//! Coordinate frames in machine integers.
//!
//! A [`CoordinateFrame`] holds an affine transform exactly: the entries of its
//! rotation block are 32-bit integers and its translation counts tenths of a
//! world unit in 64 bits. Its view is the [`Affine`] it stands for, and every operation
//! is specified over that view.

use crate::algebra::{
    cos_quarter, lemma_compose_associative, lemma_compose_identity, lemma_times_orthonormal,
    lemma_turns_orthonormal, sin_quarter, Affine, Mat3, Vec3,
};
use std::ops::Mul;
use vstd::prelude::*;
use vstd::std_specs::ops::MulSpecImpl;

verus! {

/// Three lengths, each in tenths of a world unit.
#[derive(Clone, Copy, Debug, PartialEq, Eq)]
pub struct Vector3 {
    pub x: i64,
    pub y: i64,
    pub z: i64,
}

/// One row of a rotation block.
#[derive(Clone, Copy, Debug, PartialEq, Eq)]
pub struct Row3 {
    pub x: i32,
    pub y: i32,
    pub z: i32,
}

/// A rotation block, held by its rows.
#[derive(Clone, Copy, Debug, PartialEq, Eq)]
pub struct Matrix3 {
    pub x: Row3,
    pub y: Row3,
    pub z: Row3,
}

/// An affine transform: a rotation block and a translation.
#[derive(Clone, Copy, Debug, PartialEq, Eq)]
pub struct CoordinateFrame {
    pub rotation: Matrix3,
    pub translation: Vector3,
}

impl View for Vector3 {
    type V = Vec3;

    open spec fn view(&self) -> Vec3 {
        Vec3 { x: self.x as int, y: self.y as int, z: self.z as int }
    }
}

impl View for Row3 {
    type V = Vec3;

    open spec fn view(&self) -> Vec3 {
        Vec3 { x: self.x as int, y: self.y as int, z: self.z as int }
    }
}

impl View for Matrix3 {
    type V = Mat3;

    open spec fn view(&self) -> Mat3 {
        Mat3 { x: self.x@, y: self.y@, z: self.z@ }
    }
}

impl View for CoordinateFrame {
    type V = Affine;

    open spec fn view(&self) -> Affine {
        Affine { rot: self.rotation@, pos: self.translation@ }
    }
}

impl Affine {
    /// A [`CoordinateFrame`] can hold this transform.
    pub open spec fn fits(self) -> bool {
        &&& self.rot.within(i32::MIN as int, i32::MAX as int)
        &&& self.pos.within(i64::MIN as int, i64::MAX as int)
    }
}

impl Vector3 {
    /// The vector with the components of `v`, where they fit.
    pub open spec fn of(v: Vec3) -> Vector3 {
        Vector3 { x: v.x as i64, y: v.y as i64, z: v.z as i64 }
    }
}

impl Row3 {
    /// The row with the components of `v`, where they fit.
    pub open spec fn of(v: Vec3) -> Row3 {
        Row3 { x: v.x as i32, y: v.y as i32, z: v.z as i32 }
    }

    /// The dot product with a column of a rotation block.
    fn dot_small(&self, x: i32, y: i32, z: i32) -> (d: i128)
        ensures
            d == self@.dot(Vec3::new(x as int, y as int, z as int)),
    {
        let a: i128 = small_product(self.x, x);
        let b: i128 = small_product(self.y, y);
        let c: i128 = small_product(self.z, z);
        a + b + c
    }

    /// The dot product with a vector of lengths.
    fn dot_wide(&self, v: &Vector3) -> (d: i128)
        ensures
            d == self@.dot(v@),
            -3 * 0x4000_0000_0000_0000_0000_0000 <= d <= 3 * 0x4000_0000_0000_0000_0000_0000,
    {
        let a: i128 = wide_product(self.x, v.x);
        let b: i128 = wide_product(self.y, v.y);
        let c: i128 = wide_product(self.z, v.z);
        a + b + c
    }
}

fn small_product(a: i32, b: i32) -> (p: i128)
    ensures
        p == a * b,
        -0x4000_0000_0000_0000 <= p <= 0x4000_0000_0000_0000,
{
    assert(-0x4000_0000_0000_0000 <= a * b <= 0x4000_0000_0000_0000) by (nonlinear_arith)
        requires
            -0x8000_0000 <= a <= 0x7fff_ffff,
            -0x8000_0000 <= b <= 0x7fff_ffff,
    ;
    (a as i128) * (b as i128)
}

fn wide_product(a: i32, b: i64) -> (p: i128)
    ensures
        p == a * b,
        -0x4000_0000_0000_0000_0000_0000 <= p <= 0x4000_0000_0000_0000_0000_0000,
{
    assert(-0x4000_0000_0000_0000_0000_0000 <= a * b <= 0x4000_0000_0000_0000_0000_0000)
        by (nonlinear_arith)
        requires
            -0x8000_0000 <= a <= 0x7fff_ffff,
            -0x8000_0000_0000_0000 <= b <= 0x7fff_ffff_ffff_ffff,
    ;
    (a as i128) * (b as i128)
}

/// The cosine and the sine of `quarter_turns` quarter turns.
fn quarter_cos_sin(quarter_turns: i32) -> (cs: (i32, i32))
    ensures
        cs.0 == cos_quarter(quarter_turns as int),
        cs.1 == sin_quarter(quarter_turns as int),
{
    let r: i32 = if quarter_turns >= 0 {
        quarter_turns % 4
    } else {
        3 - (-(quarter_turns + 1)) % 4
    };
    assert(r == (quarter_turns as int) % 4);
    if r == 0 {
        (1, 0)
    } else if r == 1 {
        (0, 1)
    } else if r == 2 {
        (-1, 0)
    } else {
        (0, -1)
    }
}

impl Matrix3 {
    /// The block with the entries of `m`, where they fit.
    pub open spec fn of(m: Mat3) -> Matrix3 {
        Matrix3 { x: Row3::of(m.x), y: Row3::of(m.y), z: Row3::of(m.z) }
    }

    /// The block whose rows are the three consecutive triples of `rot`.
    pub open spec fn rows(rot: [i32; 9]) -> Matrix3 {
        Matrix3 {
            x: Row3 { x: rot[0], y: rot[1], z: rot[2] },
            y: Row3 { x: rot[3], y: rot[4], z: rot[5] },
            z: Row3 { x: rot[6], y: rot[7], z: rot[8] },
        }
    }

    /// The block whose rows are the three consecutive triples of `rot`.
    pub fn from_rows(rot: [i32; 9]) -> (m: Matrix3)
        ensures
            m == Matrix3::rows(rot),
    {
        Matrix3 {
            x: Row3 { x: rot[0], y: rot[1], z: rot[2] },
            y: Row3 { x: rot[3], y: rot[4], z: rot[5] },
            z: Row3 { x: rot[6], y: rot[7], z: rot[8] },
        }
    }
}

impl Default for CoordinateFrame {
    /// The identity transform.
    fn default() -> (frame: Self)
        ensures
            frame@ == Affine::identity(),
            frame@.is_rigid(),
    {
        CoordinateFrame::new(0, 0, 0)
    }
}

impl CoordinateFrame {
    /// The frame that holds `a`, where `a.fits()`.
    pub open spec fn of(a: Affine) -> CoordinateFrame {
        CoordinateFrame { rotation: Matrix3::of(a.rot), translation: Vector3::of(a.pos) }
    }

    /// The identity frame.
    pub open spec fn identity() -> CoordinateFrame {
        CoordinateFrame::of(Affine::identity())
    }

    /// A frame can hold the composition `self · rhs`.
    pub open spec fn composable(self, rhs: CoordinateFrame) -> bool {
        self@.compose(rhs@).fits()
    }

    /// The frame of the composition `self · rhs`, where a frame can hold it.
    pub open spec fn product(self, rhs: CoordinateFrame) -> CoordinateFrame {
        CoordinateFrame::of(self@.compose(rhs@))
    }

    /// The translation by `(x, y, z)`.
    pub fn new(x: i64, y: i64, z: i64) -> (frame: Self)
        ensures
            frame@ == Affine::translation(x as int, y as int, z as int),
            frame@.is_rigid(),
    {
        CoordinateFrame {
            rotation: Matrix3 {
                x: Row3 { x: 1, y: 0, z: 0 },
                y: Row3 { x: 0, y: 1, z: 0 },
                z: Row3 { x: 0, y: 0, z: 1 },
            },
            translation: Vector3 { x, y, z },
        }
    }

    /// The frame at `(x, y, z)` whose rotation block has the rows of `rot`.
    /// The block is taken as it is: nothing makes it orthonormal.
    pub fn from_rotation(x: i64, y: i64, z: i64, rot: [i32; 9]) -> (frame: Self)
        ensures
            frame == (CoordinateFrame {
                rotation: Matrix3::rows(rot),
                translation: Vector3 { x, y, z },
            }),
    {
        CoordinateFrame { rotation: Matrix3::from_rows(rot), translation: Vector3 { x, y, z } }
    }

    /// The rotation by `x` quarter turns about X, then `y` about Y, then `z`
    /// about Z.
    pub fn angles(x: i32, y: i32, z: i32) -> (frame: Self)
        ensures
            frame@ == Affine::rotation(Mat3::rot_z(z as int)).compose(
                Affine::rotation(Mat3::rot_y(y as int)),
            ).compose(Affine::rotation(Mat3::rot_x(x as int))),
            frame@.is_rigid(),
    {
        let about_z = Self::rz(z);
        let about_y = Self::ry(y);
        let about_x = Self::rx(x);
        proof {
            lemma_times_orthonormal(about_z@.rot, about_y@.rot);
            lemma_times_orthonormal(about_z@.rot.times(about_y@.rot), about_x@.rot);
        }
        about_z * about_y * about_x
    }

    /// The right-handed rotation by `angle` quarter turns about the X axis.
    pub fn rx(angle: i32) -> (frame: Self)
        ensures
            frame@ == Affine::rotation(Mat3::rot_x(angle as int)),
            frame@.is_rigid(),
    {
        proof {
            lemma_turns_orthonormal(angle as int);
        }
        let (c, s) = quarter_cos_sin(angle);
        CoordinateFrame {
            rotation: Matrix3 {
                x: Row3 { x: 1, y: 0, z: 0 },
                y: Row3 { x: 0, y: c, z: -s },
                z: Row3 { x: 0, y: s, z: c },
            },
            translation: Vector3 { x: 0, y: 0, z: 0 },
        }
    }

    /// The right-handed rotation by `angle` quarter turns about the Y axis.
    pub fn ry(angle: i32) -> (frame: Self)
        ensures
            frame@ == Affine::rotation(Mat3::rot_y(angle as int)),
            frame@.is_rigid(),
    {
        proof {
            lemma_turns_orthonormal(angle as int);
        }
        let (c, s) = quarter_cos_sin(angle);
        CoordinateFrame {
            rotation: Matrix3 {
                x: Row3 { x: c, y: 0, z: s },
                y: Row3 { x: 0, y: 1, z: 0 },
                z: Row3 { x: -s, y: 0, z: c },
            },
            translation: Vector3 { x: 0, y: 0, z: 0 },
        }
    }

    /// The right-handed rotation by `angle` quarter turns about the Z axis.
    pub fn rz(angle: i32) -> (frame: Self)
        ensures
            frame@ == Affine::rotation(Mat3::rot_z(angle as int)),
            frame@.is_rigid(),
    {
        proof {
            lemma_turns_orthonormal(angle as int);
        }
        let (c, s) = quarter_cos_sin(angle);
        CoordinateFrame {
            rotation: Matrix3 {
                x: Row3 { x: c, y: -s, z: 0 },
                y: Row3 { x: s, y: c, z: 0 },
                z: Row3 { x: 0, y: 0, z: 1 },
            },
            translation: Vector3 { x: 0, y: 0, z: 0 },
        }
    }

    /// The translation part.
    pub fn position(&self) -> (p: Vector3)
        ensures
            p == self.translation,
            p@ == self@.pos,
    {
        self.translation
    }

    /// The rotation block.
    pub fn rotation_matrix(&self) -> (m: Matrix3)
        ensures
            m == self.rotation,
            m@ == self@.rot,
    {
        self.rotation
    }

    /// The composition `self · rhs`, or `None` where a frame cannot hold it.
    pub fn checked_mul(&self, rhs: &CoordinateFrame) -> (product: Option<CoordinateFrame>)
        ensures
            product == (if self.composable(*rhs) {
                Some(self.product(*rhs))
            } else {
                None
            }),
    {
        let a = &self.rotation;
        let b = &rhs.rotation;
        let xx: i128 = a.x.dot_small(b.x.x, b.y.x, b.z.x);
        let xy: i128 = a.x.dot_small(b.x.y, b.y.y, b.z.y);
        let xz: i128 = a.x.dot_small(b.x.z, b.y.z, b.z.z);
        let yx: i128 = a.y.dot_small(b.x.x, b.y.x, b.z.x);
        let yy: i128 = a.y.dot_small(b.x.y, b.y.y, b.z.y);
        let yz: i128 = a.y.dot_small(b.x.z, b.y.z, b.z.z);
        let zx: i128 = a.z.dot_small(b.x.x, b.y.x, b.z.x);
        let zy: i128 = a.z.dot_small(b.x.y, b.y.y, b.z.y);
        let zz: i128 = a.z.dot_small(b.x.z, b.y.z, b.z.z);
        let px: i128 = a.x.dot_wide(&rhs.translation) + (self.translation.x as i128);
        let py: i128 = a.y.dot_wide(&rhs.translation) + (self.translation.y as i128);
        let pz: i128 = a.z.dot_wide(&rhs.translation) + (self.translation.z as i128);
        if fits_entry(xx) && fits_entry(xy) && fits_entry(xz) && fits_entry(yx) && fits_entry(yy)
            && fits_entry(yz) && fits_entry(zx) && fits_entry(zy) && fits_entry(zz)
            && fits_length(px) && fits_length(py) && fits_length(pz) {
            Some(
                CoordinateFrame {
                    rotation: Matrix3 {
                        x: Row3 { x: xx as i32, y: xy as i32, z: xz as i32 },
                        y: Row3 { x: yx as i32, y: yy as i32, z: yz as i32 },
                        z: Row3 { x: zx as i32, y: zy as i32, z: zz as i32 },
                    },
                    translation: Vector3 { x: px as i64, y: py as i64, z: pz as i64 },
                },
            )
        } else {
            None
        }
    }
}

fn fits_entry(e: i128) -> (r: bool)
    ensures
        r == (i32::MIN <= e <= i32::MAX),
{
    -0x8000_0000 <= e && e <= 0x7fff_ffff
}

fn fits_length(e: i128) -> (r: bool)
    ensures
        r == (i64::MIN <= e <= i64::MAX),
{
    -0x8000_0000_0000_0000 <= e && e <= 0x7fff_ffff_ffff_ffff
}

impl MulSpecImpl for CoordinateFrame {
    open spec fn obeys_mul_spec() -> bool {
        true
    }

    open spec fn mul_req(self, rhs: CoordinateFrame) -> bool {
        self.composable(rhs)
    }

    open spec fn mul_spec(self, rhs: CoordinateFrame) -> CoordinateFrame {
        self.product(rhs)
    }
}

/// A frame holds the transform that it was made to hold.
pub proof fn lemma_of_view(a: Affine)
    requires
        a.fits(),
    ensures
        CoordinateFrame::of(a)@ == a,
{
}

/// The product of frames is associative, where frames can hold the products.
pub proof fn lemma_mul_associative(a: CoordinateFrame, b: CoordinateFrame, c: CoordinateFrame)
    requires
        a.composable(b),
        b.composable(c),
        a.product(b).composable(c),
    ensures
        a.composable(b.product(c)),
        a.product(b).product(c) == a.product(b.product(c)),
{
    lemma_of_view(a@.compose(b@));
    lemma_of_view(b@.compose(c@));
    lemma_compose_associative(a@, b@, c@);
}

/// The identity frame is neutral on both sides of a product.
pub proof fn lemma_mul_identity(t: CoordinateFrame)
    ensures
        CoordinateFrame::identity().composable(t),
        t.composable(CoordinateFrame::identity()),
        CoordinateFrame::identity().product(t) == t,
        t.product(CoordinateFrame::identity()) == t,
{
    lemma_of_view(Affine::identity());
    lemma_compose_identity(t@);
}

impl Mul for CoordinateFrame {
    type Output = CoordinateFrame;

    /// The composition that applies `rhs` first and `self` second.
    fn mul(self, rhs: CoordinateFrame) -> (product: CoordinateFrame)
        ensures
            product == self.product(rhs),
            product@ == self@.compose(rhs@),
    {
        self.checked_mul(&rhs).unwrap()
    }
}

} // verus!
