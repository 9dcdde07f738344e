//! The mathematical model of coordinate frames: vectors, matrices and affine
//! transforms over unbounded integers.

use vstd::prelude::*;

verus! {

/// A vector of three integers.
pub struct Vec3 {
    pub x: int,
    pub y: int,
    pub z: int,
}

/// A 3×3 integer matrix, held by its rows.
pub struct Mat3 {
    pub x: Vec3,
    pub y: Vec3,
    pub z: Vec3,
}

/// An affine transform `p ↦ rot · p + pos`; as a homogeneous 4×4 matrix its
/// upper three rows are `[rot | pos]` and its last row is `(0, 0, 0, 1)`.
pub struct Affine {
    pub rot: Mat3,
    pub pos: Vec3,
}

/// The cosine of `k` quarter turns.
pub open spec fn cos_quarter(k: int) -> int {
    if k % 4 == 0 {
        1
    } else if k % 4 == 2 {
        -1
    } else {
        0
    }
}

/// The sine of `k` quarter turns.
pub open spec fn sin_quarter(k: int) -> int {
    if k % 4 == 1 {
        1
    } else if k % 4 == 3 {
        -1
    } else {
        0
    }
}

impl Vec3 {
    /// The vector `(x, y, z)`.
    pub open spec fn new(x: int, y: int, z: int) -> Vec3 {
        Vec3 { x, y, z }
    }

    /// The origin.
    pub open spec fn zero() -> Vec3 {
        Vec3 { x: 0, y: 0, z: 0 }
    }

    /// The dot product.
    pub open spec fn dot(self, other: Vec3) -> int {
        self.x * other.x + self.y * other.y + self.z * other.z
    }

    /// The sum.
    pub open spec fn plus(self, other: Vec3) -> Vec3 {
        Vec3 { x: self.x + other.x, y: self.y + other.y, z: self.z + other.z }
    }

    /// Every component lies in `lo ..= hi`.
    pub open spec fn within(self, lo: int, hi: int) -> bool {
        &&& lo <= self.x <= hi
        &&& lo <= self.y <= hi
        &&& lo <= self.z <= hi
    }
}

impl Mat3 {
    /// The identity matrix.
    pub open spec fn identity() -> Mat3 {
        Mat3 { x: Vec3::new(1, 0, 0), y: Vec3::new(0, 1, 0), z: Vec3::new(0, 0, 1) }
    }

    /// The first column.
    pub open spec fn col_x(self) -> Vec3 {
        Vec3 { x: self.x.x, y: self.y.x, z: self.z.x }
    }

    /// The second column.
    pub open spec fn col_y(self) -> Vec3 {
        Vec3 { x: self.x.y, y: self.y.y, z: self.z.y }
    }

    /// The third column.
    pub open spec fn col_z(self) -> Vec3 {
        Vec3 { x: self.x.z, y: self.y.z, z: self.z.z }
    }

    /// The matrix–vector product.
    pub open spec fn apply(self, v: Vec3) -> Vec3 {
        Vec3 { x: self.x.dot(v), y: self.y.dot(v), z: self.z.dot(v) }
    }

    /// One row of a matrix product: the row vector `r` times `self`.
    pub open spec fn row_times(self, r: Vec3) -> Vec3 {
        Vec3 { x: r.dot(self.col_x()), y: r.dot(self.col_y()), z: r.dot(self.col_z()) }
    }

    /// The matrix product `self · other`.
    pub open spec fn times(self, other: Mat3) -> Mat3 {
        Mat3 {
            x: other.row_times(self.x),
            y: other.row_times(self.y),
            z: other.row_times(self.z),
        }
    }

    /// The columns have unit length and are mutually orthogonal.
    pub open spec fn is_orthonormal(self) -> bool {
        &&& self.col_x().dot(self.col_x()) == 1
        &&& self.col_y().dot(self.col_y()) == 1
        &&& self.col_z().dot(self.col_z()) == 1
        &&& self.col_x().dot(self.col_y()) == 0
        &&& self.col_x().dot(self.col_z()) == 0
        &&& self.col_y().dot(self.col_z()) == 0
    }

    /// Every entry lies in `lo ..= hi`.
    pub open spec fn within(self, lo: int, hi: int) -> bool {
        &&& self.x.within(lo, hi)
        &&& self.y.within(lo, hi)
        &&& self.z.within(lo, hi)
    }

    /// The right-handed rotation by `k` quarter turns about the X axis.
    pub open spec fn rot_x(k: int) -> Mat3 {
        Mat3 {
            x: Vec3::new(1, 0, 0),
            y: Vec3::new(0, cos_quarter(k), -sin_quarter(k)),
            z: Vec3::new(0, sin_quarter(k), cos_quarter(k)),
        }
    }

    /// The right-handed rotation by `k` quarter turns about the Y axis.
    pub open spec fn rot_y(k: int) -> Mat3 {
        Mat3 {
            x: Vec3::new(cos_quarter(k), 0, sin_quarter(k)),
            y: Vec3::new(0, 1, 0),
            z: Vec3::new(-sin_quarter(k), 0, cos_quarter(k)),
        }
    }

    /// The right-handed rotation by `k` quarter turns about the Z axis.
    pub open spec fn rot_z(k: int) -> Mat3 {
        Mat3 {
            x: Vec3::new(cos_quarter(k), -sin_quarter(k), 0),
            y: Vec3::new(sin_quarter(k), cos_quarter(k), 0),
            z: Vec3::new(0, 0, 1),
        }
    }
}

impl Affine {
    /// The transform that leaves every point where it is.
    pub open spec fn identity() -> Affine {
        Affine { rot: Mat3::identity(), pos: Vec3::zero() }
    }

    /// The transform that moves every point by `(x, y, z)`.
    pub open spec fn translation(x: int, y: int, z: int) -> Affine {
        Affine { rot: Mat3::identity(), pos: Vec3::new(x, y, z) }
    }

    /// The transform that applies `rot` about the origin.
    pub open spec fn rotation(rot: Mat3) -> Affine {
        Affine { rot, pos: Vec3::zero() }
    }

    /// The transform that applies `other` first and `self` second: the
    /// product of the two homogeneous matrices, `self` on the left.
    pub open spec fn compose(self, other: Affine) -> Affine {
        Affine { rot: self.rot.times(other.rot), pos: self.rot.apply(other.pos).plus(self.pos) }
    }

    /// The image of the point `p`.
    pub open spec fn apply(self, p: Vec3) -> Vec3 {
        self.rot.apply(p).plus(self.pos)
    }

    /// The rotation block is orthonormal, so the transform is rigid.
    pub open spec fn is_rigid(self) -> bool {
        self.rot.is_orthonormal()
    }
}

/// The entries of a product are bounded by three times the product of the
/// factors' bounds.
pub proof fn lemma_times_within(a: Mat3, b: Mat3, p: int, q: int)
    requires
        a.within(-p, p),
        b.within(-q, q),
    ensures
        a.times(b).within(-3 * (p * q), 3 * (p * q)),
{
    lemma_dot_within(a.x, b.col_x(), p, q);
    lemma_dot_within(a.x, b.col_y(), p, q);
    lemma_dot_within(a.x, b.col_z(), p, q);
    lemma_dot_within(a.y, b.col_x(), p, q);
    lemma_dot_within(a.y, b.col_y(), p, q);
    lemma_dot_within(a.y, b.col_z(), p, q);
    lemma_dot_within(a.z, b.col_x(), p, q);
    lemma_dot_within(a.z, b.col_y(), p, q);
    lemma_dot_within(a.z, b.col_z(), p, q);
}

/// A dot product is bounded by three times the product of the vectors' bounds.
pub proof fn lemma_dot_within(v: Vec3, w: Vec3, p: int, q: int)
    requires
        v.within(-p, p),
        w.within(-q, q),
    ensures
        -3 * (p * q) <= v.dot(w) <= 3 * (p * q),
{
    lemma_product_within(v.x, w.x, p, q);
    lemma_product_within(v.y, w.y, p, q);
    lemma_product_within(v.z, w.z, p, q);
}

proof fn lemma_product_within(a: int, b: int, p: int, q: int)
    requires
        -p <= a <= p,
        -q <= b <= q,
    ensures
        -(p * q) <= a * b <= p * q,
{
    assert(-(p * q) <= a * b <= p * q) by (nonlinear_arith)
        requires
            -p <= a <= p,
            -q <= b <= q,
    ;
}

/// The product of two integers that are each -1, 0 or 1.
pub open spec fn unit_product(a: int, b: int) -> int {
    if a == 0 || b == 0 {
        0
    } else if a == b {
        1
    } else {
        -1
    }
}

/// The dot product of two vectors whose components are each -1, 0 or 1,
/// without a multiplication.
pub open spec fn unit_dot(v: Vec3, w: Vec3) -> int {
    unit_product(v.x, w.x) + unit_product(v.y, w.y) + unit_product(v.z, w.z)
}

/// Where the components of two vectors are each -1, 0 or 1, their dot
/// product is their [`unit_dot`].
pub proof fn lemma_unit_dot(v: Vec3, w: Vec3)
    requires
        v.within(-1, 1),
        w.within(-1, 1),
    ensures
        v.dot(w) == unit_dot(v, w),
{
    lemma_unit_product(v.x, w.x);
    lemma_unit_product(v.y, w.y);
    lemma_unit_product(v.z, w.z);
}

proof fn lemma_unit_product(a: int, b: int)
    requires
        -1 <= a <= 1,
        -1 <= b <= 1,
    ensures
        a * b == unit_product(a, b),
{
    assert(a * b == unit_product(a, b)) by (nonlinear_arith)
        requires
            -1 <= a <= 1,
            -1 <= b <= 1,
    ;
}

/// The quarter-turn rotations about the axes are orthonormal.
pub proof fn lemma_turns_orthonormal(k: int)
    ensures
        Mat3::rot_x(k).is_orthonormal(),
        Mat3::rot_y(k).is_orthonormal(),
        Mat3::rot_z(k).is_orthonormal(),
{
    lemma_unit_orthonormal(Mat3::rot_x(k));
    lemma_unit_orthonormal(Mat3::rot_y(k));
    lemma_unit_orthonormal(Mat3::rot_z(k));
}

/// For a matrix whose entries are -1, 0 or 1, orthonormality can be read
/// off without a multiplication.
proof fn lemma_unit_orthonormal(m: Mat3)
    requires
        m.within(-1, 1),
    ensures
        m.is_orthonormal() <==> {
            &&& unit_dot(m.col_x(), m.col_x()) == 1
            &&& unit_dot(m.col_y(), m.col_y()) == 1
            &&& unit_dot(m.col_z(), m.col_z()) == 1
            &&& unit_dot(m.col_x(), m.col_y()) == 0
            &&& unit_dot(m.col_x(), m.col_z()) == 0
            &&& unit_dot(m.col_y(), m.col_z()) == 0
        },
{
    lemma_unit_dot(m.col_x(), m.col_x());
    lemma_unit_dot(m.col_y(), m.col_y());
    lemma_unit_dot(m.col_z(), m.col_z());
    lemma_unit_dot(m.col_x(), m.col_y());
    lemma_unit_dot(m.col_x(), m.col_z());
    lemma_unit_dot(m.col_y(), m.col_z());
}

/// The entries of an orthonormal matrix are -1, 0 or 1.
pub proof fn lemma_orthonormal_within(m: Mat3)
    requires
        m.is_orthonormal(),
    ensures
        m.within(-1, 1),
{
    lemma_unit_column(m.col_x());
    lemma_unit_column(m.col_y());
    lemma_unit_column(m.col_z());
}

proof fn lemma_unit_column(v: Vec3)
    requires
        v.dot(v) == 1,
    ensures
        v.within(-1, 1),
{
    lemma_square_bound(v.x);
    lemma_square_bound(v.y);
    lemma_square_bound(v.z);
}

proof fn lemma_square_bound(a: int)
    ensures
        a * a >= 0,
        a * a <= 1 ==> -1 <= a <= 1,
{
    assert(a * a >= 0 && (a * a <= 1 ==> -1 <= a <= 1)) by (nonlinear_arith);
}

/// An orthonormal matrix keeps the dot product of any two vectors.
pub proof fn lemma_orthonormal_dot(m: Mat3, u: Vec3, v: Vec3)
    requires
        m.is_orthonormal(),
    ensures
        m.apply(u).dot(m.apply(v)) == u.dot(v),
{
    lemma_dot_dot(m.x, u, v);
    lemma_dot_dot(m.y, u, v);
    lemma_dot_dot(m.z, u, v);
    lemma_sum_times(m.x.x * m.x.x, m.y.x * m.y.x, m.z.x * m.z.x, u.x * v.x);
    lemma_sum_times(m.x.y * m.x.y, m.y.y * m.y.y, m.z.y * m.z.y, u.y * v.y);
    lemma_sum_times(m.x.z * m.x.z, m.y.z * m.y.z, m.z.z * m.z.z, u.z * v.z);
    lemma_sum_times(m.x.x * m.x.y, m.y.x * m.y.y, m.z.x * m.z.y, u.x * v.y + u.y * v.x);
    lemma_sum_times(m.x.x * m.x.z, m.y.x * m.y.z, m.z.x * m.z.z, u.x * v.z + u.z * v.x);
    lemma_sum_times(m.x.y * m.x.z, m.y.y * m.y.z, m.z.y * m.z.z, u.y * v.z + u.z * v.y);
    lemma_times_unit(u.x * v.x);
    lemma_times_unit(u.y * v.y);
    lemma_times_unit(u.z * v.z);
    lemma_times_unit(u.x * v.y + u.y * v.x);
    lemma_times_unit(u.x * v.z + u.z * v.x);
    lemma_times_unit(u.y * v.z + u.z * v.y);
}

/// The product of two dot products with the same row, sorted by the pairs
/// of the row's components.
proof fn lemma_dot_dot(r: Vec3, u: Vec3, v: Vec3)
    ensures
        r.dot(u) * r.dot(v) == (r.x * r.x) * (u.x * v.x) + (r.y * r.y) * (u.y * v.y) + (r.z
            * r.z) * (u.z * v.z) + (r.x * r.y) * (u.x * v.y + u.y * v.x) + (r.x * r.z) * (u.x
            * v.z + u.z * v.x) + (r.y * r.z) * (u.y * v.z + u.z * v.y),
{
    lemma_sum_times(r.x * u.x, r.y * u.y, r.z * u.z, r.dot(v));
    lemma_times_sum(r.x * u.x, r.x * v.x, r.y * v.y, r.z * v.z);
    lemma_times_sum(r.y * u.y, r.x * v.x, r.y * v.y, r.z * v.z);
    lemma_times_sum(r.z * u.z, r.x * v.x, r.y * v.y, r.z * v.z);
    lemma_pairs(r.x, u.x, r.x, v.x);
    lemma_pairs(r.x, u.x, r.y, v.y);
    lemma_pairs(r.x, u.x, r.z, v.z);
    lemma_pairs(r.y, u.y, r.x, v.x);
    lemma_pairs(r.y, u.y, r.y, v.y);
    lemma_pairs(r.y, u.y, r.z, v.z);
    lemma_pairs(r.z, u.z, r.x, v.x);
    lemma_pairs(r.z, u.z, r.y, v.y);
    lemma_pairs(r.z, u.z, r.z, v.z);
    lemma_times_pair(r.x * r.y, u.x * v.y, u.y * v.x);
    lemma_times_pair(r.x * r.z, u.x * v.z, u.z * v.x);
    lemma_times_pair(r.y * r.z, u.y * v.z, u.z * v.y);
}

/// `(a · b) · (c · d)` sorted into `(a · c) · (b · d)`, with `a · c` in
/// either order.
proof fn lemma_pairs(a: int, b: int, c: int, d: int)
    ensures
        (a * b) * (c * d) == (a * c) * (b * d),
        (a * b) * (c * d) == (c * a) * (b * d),
{
    assert((a * b) * (c * d) == (a * c) * (b * d) && (a * b) * (c * d) == (c * a) * (b * d))
        by (nonlinear_arith);
}

proof fn lemma_times_pair(r: int, a: int, b: int)
    ensures
        r * (a + b) == r * a + r * b,
{
    assert(r * (a + b) == r * a + r * b) by (nonlinear_arith);
}

/// The product of two orthonormal matrices is orthonormal.
pub proof fn lemma_times_orthonormal(a: Mat3, b: Mat3)
    requires
        a.is_orthonormal(),
        b.is_orthonormal(),
    ensures
        a.times(b).is_orthonormal(),
        a.times(b).within(-1, 1),
{
    let p = a.times(b);
    assert(p.col_x() == a.apply(b.col_x()));
    assert(p.col_y() == a.apply(b.col_y()));
    assert(p.col_z() == a.apply(b.col_z()));
    lemma_orthonormal_dot(a, b.col_x(), b.col_x());
    lemma_orthonormal_dot(a, b.col_y(), b.col_y());
    lemma_orthonormal_dot(a, b.col_z(), b.col_z());
    lemma_orthonormal_dot(a, b.col_x(), b.col_y());
    lemma_orthonormal_dot(a, b.col_x(), b.col_z());
    lemma_orthonormal_dot(a, b.col_y(), b.col_z());
    lemma_orthonormal_within(p);
}

/// The composition of two rigid transforms is rigid.
pub proof fn lemma_compose_rigid(a: Affine, b: Affine)
    requires
        a.is_rigid(),
        b.is_rigid(),
    ensures
        a.compose(b).is_rigid(),
{
    lemma_times_orthonormal(a.rot, b.rot);
}

/// A composition applies its right factor first.
pub proof fn lemma_compose_apply(a: Affine, b: Affine, p: Vec3)
    ensures
        a.compose(b).apply(p) == a.apply(b.apply(p)),
{
    lemma_apply_times(a.rot, b.rot, p);
    lemma_apply_plus(a.rot, b.rot.apply(p), b.pos);
}

/// Composition is associative.
pub proof fn lemma_compose_associative(a: Affine, b: Affine, c: Affine)
    ensures
        a.compose(b).compose(c) == a.compose(b.compose(c)),
{
    lemma_times_associative(a.rot, b.rot, c.rot);
    lemma_apply_times(a.rot, b.rot, c.pos);
    lemma_apply_plus(a.rot, b.rot.apply(c.pos), b.pos);
}

/// The identity is neutral on both sides of a composition.
pub proof fn lemma_compose_identity(t: Affine)
    ensures
        Affine::identity().compose(t) == t,
        t.compose(Affine::identity()) == t,
{
    lemma_times_identity(t.rot);
    lemma_apply_identity(t.pos);
    lemma_apply_zero(t.rot);
}

/// The identity matrix is neutral on both sides of a product.
pub proof fn lemma_times_identity(m: Mat3)
    ensures
        Mat3::identity().times(m) == m,
        m.times(Mat3::identity()) == m,
{
    lemma_times_unit(m.x.x);
    lemma_times_unit(m.x.y);
    lemma_times_unit(m.x.z);
    lemma_times_unit(m.y.x);
    lemma_times_unit(m.y.y);
    lemma_times_unit(m.y.z);
    lemma_times_unit(m.z.x);
    lemma_times_unit(m.z.y);
    lemma_times_unit(m.z.z);
}

/// The identity matrix leaves every vector where it is.
pub proof fn lemma_apply_identity(v: Vec3)
    ensures
        Mat3::identity().apply(v) == v,
{
    lemma_times_unit(v.x);
    lemma_times_unit(v.y);
    lemma_times_unit(v.z);
}

/// Every matrix leaves the origin where it is.
pub proof fn lemma_apply_zero(m: Mat3)
    ensures
        m.apply(Vec3::zero()) == Vec3::zero(),
{
    lemma_times_unit(m.x.x);
    lemma_times_unit(m.x.y);
    lemma_times_unit(m.x.z);
    lemma_times_unit(m.y.x);
    lemma_times_unit(m.y.y);
    lemma_times_unit(m.y.z);
    lemma_times_unit(m.z.x);
    lemma_times_unit(m.z.y);
    lemma_times_unit(m.z.z);
}

/// A rotation about the origin, applied in the local frame of `a`, turns the
/// frame and leaves it where it stands.
pub proof fn lemma_compose_rotation(a: Affine, rot: Mat3)
    ensures
        a.compose(Affine::rotation(rot)) == (Affine { rot: a.rot.times(rot), pos: a.pos }),
{
    lemma_apply_zero(a.rot);
}

/// A translation, applied in the local frame of `a`, moves the frame along
/// its own axes and does not turn it.
pub proof fn lemma_compose_translation(a: Affine, x: int, y: int, z: int)
    ensures
        a.compose(Affine::translation(x, y, z)) == (Affine {
            rot: a.rot,
            pos: a.rot.apply(Vec3::new(x, y, z)).plus(a.pos),
        }),
{
    lemma_times_identity(a.rot);
}

proof fn lemma_times_unit(a: int)
    ensures
        a * 0 == 0,
        0 * a == 0,
        a * 1 == a,
        1 * a == a,
{
    assert(a * 0 == 0 && 0 * a == 0 && a * 1 == a && 1 * a == a) by (nonlinear_arith);
}

/// The matrix product is associative.
pub proof fn lemma_times_associative(a: Mat3, b: Mat3, c: Mat3)
    ensures
        a.times(b).times(c) == a.times(b.times(c)),
{
    lemma_row_times_times(b, c, a.x);
    lemma_row_times_times(b, c, a.y);
    lemma_row_times_times(b, c, a.z);
}

/// A row vector times a product is the row times the first factor, times the second.
pub proof fn lemma_row_times_times(b: Mat3, c: Mat3, r: Vec3)
    ensures
        c.row_times(b.row_times(r)) == b.times(c).row_times(r),
{
    lemma_dot_row_times(b, r, c.col_x());
    lemma_dot_row_times(b, r, c.col_y());
    lemma_dot_row_times(b, r, c.col_z());
}

/// `(r · B) · v == r · (B v)` for a row vector `r` and a column vector `v`.
pub proof fn lemma_dot_row_times(b: Mat3, r: Vec3, v: Vec3)
    ensures
        b.row_times(r).dot(v) == r.dot(b.apply(v)),
{
    lemma_sum_times(r.x * b.x.x, r.y * b.y.x, r.z * b.z.x, v.x);
    lemma_sum_times(r.x * b.x.y, r.y * b.y.y, r.z * b.z.y, v.y);
    lemma_sum_times(r.x * b.x.z, r.y * b.y.z, r.z * b.z.z, v.z);
    lemma_times_sum(r.x, b.x.x * v.x, b.x.y * v.y, b.x.z * v.z);
    lemma_times_sum(r.y, b.y.x * v.x, b.y.y * v.y, b.y.z * v.z);
    lemma_times_sum(r.z, b.z.x * v.x, b.z.y * v.y, b.z.z * v.z);
    lemma_times_times(r.x, b.x.x, v.x);
    lemma_times_times(r.x, b.x.y, v.y);
    lemma_times_times(r.x, b.x.z, v.z);
    lemma_times_times(r.y, b.y.x, v.x);
    lemma_times_times(r.y, b.y.y, v.y);
    lemma_times_times(r.y, b.y.z, v.z);
    lemma_times_times(r.z, b.z.x, v.x);
    lemma_times_times(r.z, b.z.y, v.y);
    lemma_times_times(r.z, b.z.z, v.z);
}

proof fn lemma_sum_times(a: int, b: int, c: int, v: int)
    ensures
        (a + b + c) * v == a * v + b * v + c * v,
{
    assert((a + b + c) * v == a * v + b * v + c * v) by (nonlinear_arith);
}

proof fn lemma_times_sum(r: int, a: int, b: int, c: int)
    ensures
        r * (a + b + c) == r * a + r * b + r * c,
{
    assert(r * (a + b + c) == r * a + r * b + r * c) by (nonlinear_arith);
}

proof fn lemma_times_times(a: int, b: int, c: int)
    ensures
        (a * b) * c == a * (b * c),
{
    assert((a * b) * c == a * (b * c)) by (nonlinear_arith);
}

/// Applying a product to a vector applies the right factor first.
pub proof fn lemma_apply_times(a: Mat3, b: Mat3, v: Vec3)
    ensures
        a.times(b).apply(v) == a.apply(b.apply(v)),
{
    lemma_dot_row_times(b, a.x, v);
    lemma_dot_row_times(b, a.y, v);
    lemma_dot_row_times(b, a.z, v);
}

/// Applying a matrix distributes over vector addition.
pub proof fn lemma_apply_plus(a: Mat3, v: Vec3, w: Vec3)
    ensures
        a.apply(v.plus(w)) == a.apply(v).plus(a.apply(w)),
{
    lemma_dot_plus(a.x, v, w);
    lemma_dot_plus(a.y, v, w);
    lemma_dot_plus(a.z, v, w);
}

/// The dot product distributes over vector addition.
pub proof fn lemma_dot_plus(r: Vec3, v: Vec3, w: Vec3)
    ensures
        r.dot(v.plus(w)) == r.dot(v) + r.dot(w),
{
    assert(r.x * (v.x + w.x) + r.y * (v.y + w.y) + r.z * (v.z + w.z) == (r.x * v.x + r.y * v.y
        + r.z * v.z) + (r.x * w.x + r.y * w.y + r.z * w.z)) by (nonlinear_arith);
}

} // verus!
