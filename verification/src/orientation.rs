//! The orientation table: one rotation block for each of the six directions a
//! brick can face and each of its four quarter turns about that direction.
//!
//! Bricks are placed in a frame whose third axis points up; primitives live in
//! a frame whose second axis points up. Every entry of the table already
//! carries that exchange of axes.

use crate::algebra::{lemma_unit_dot, Mat3};
use crate::cframe::Matrix3;
use vstd::prelude::*;

verus! {

/// The direction that a brick faces.
#[derive(Clone, Copy, Debug, PartialEq, Eq)]
pub enum Direction {
    XPositive,
    XNegative,
    YPositive,
    YNegative,
    ZPositive,
    ZNegative,
}

/// The quarter turns of a brick about the direction it faces.
#[derive(Clone, Copy, Debug, PartialEq, Eq)]
pub enum Rotation {
    Deg0,
    Deg90,
    Deg180,
    Deg270,
}

impl Direction {
    /// The position of the direction among the six, from 0.
    pub open spec fn index(self) -> int {
        match self {
            Direction::XPositive => 0,
            Direction::XNegative => 1,
            Direction::YPositive => 2,
            Direction::YNegative => 3,
            Direction::ZPositive => 4,
            Direction::ZNegative => 5,
        }
    }

    /// The position of the direction among the six, from 0.
    pub fn ordinal(self) -> (n: u8)
        ensures
            n == self.index(),
    {
        match self {
            Direction::XPositive => 0,
            Direction::XNegative => 1,
            Direction::YPositive => 2,
            Direction::YNegative => 3,
            Direction::ZPositive => 4,
            Direction::ZNegative => 5,
        }
    }
}

impl Rotation {
    /// The number of quarter turns.
    pub open spec fn index(self) -> int {
        match self {
            Rotation::Deg0 => 0,
            Rotation::Deg90 => 1,
            Rotation::Deg180 => 2,
            Rotation::Deg270 => 3,
        }
    }

    /// The number of quarter turns.
    pub fn ordinal(self) -> (n: u8)
        ensures
            n == self.index(),
    {
        match self {
            Rotation::Deg0 => 0,
            Rotation::Deg90 => 1,
            Rotation::Deg180 => 2,
            Rotation::Deg270 => 3,
        }
    }
}

/// The rotation blocks, row by row, at `4 * direction + rotation`. The
/// columns of a block are the right axis, the up axis and the reversed
/// forward axis of the brick, in the frame of the primitives. A brick that
/// faces the positive first axis and is not turned stands unrotated: the
/// first block is the identity.
pub const ORIENTATION_MAP: [[i32; 9]; 24] = [
    [1, 0, 0, 0, 1, 0, 0, 0, 1],
    [0, 1, 0, 0, 0, 1, 1, 0, 0],
    [0, 1, 0, 1, 0, 0, 0, 0, -1],
    [0, 1, 0, 0, 0, -1, -1, 0, 0],
    [0, -1, 0, -1, 0, 0, 0, 0, -1],
    [0, -1, 0, 0, 0, 1, -1, 0, 0],
    [0, -1, 0, 1, 0, 0, 0, 0, 1],
    [0, -1, 0, 0, 0, -1, 1, 0, 0],
    [0, 0, -1, -1, 0, 0, 0, 1, 0],
    [-1, 0, 0, 0, 0, 1, 0, 1, 0],
    [0, 0, 1, 1, 0, 0, 0, 1, 0],
    [1, 0, 0, 0, 0, -1, 0, 1, 0],
    [0, 0, 1, -1, 0, 0, 0, -1, 0],
    [1, 0, 0, 0, 0, 1, 0, -1, 0],
    [0, 0, -1, 1, 0, 0, 0, -1, 0],
    [-1, 0, 0, 0, 0, -1, 0, -1, 0],
    [-1, 0, 0, 0, 1, 0, 0, 0, -1],
    [0, 0, 1, 0, 1, 0, -1, 0, 0],
    [1, 0, 0, 0, 1, 0, 0, 0, 1],
    [0, 0, -1, 0, 1, 0, 1, 0, 0],
    [1, 0, 0, 0, -1, 0, 0, 0, -1],
    [0, 0, -1, 0, -1, 0, -1, 0, 0],
    [-1, 0, 0, 0, -1, 0, 0, 0, 1],
    [0, 0, 1, 0, -1, 0, 1, 0, 0],
];

/// The place in the table of a brick that faces `direction` and is turned by
/// `rotation` and by `adjustment` further quarter turns.
pub open spec fn orientation_index(direction: Direction, rotation: Rotation, adjustment: int) -> int {
    4 * direction.index() + (rotation.index() + adjustment) % 4
}

/// The rotation block at `index`.
pub open spec fn orientation_matrix(index: int) -> Mat3 {
    Matrix3::rows(ORIENTATION_MAP[index])@
}

/// Looks up the rotation block of a brick. The adjustment is added to the
/// brick's own quarter turns, modulo 4, before the look-up.
pub fn orientation(direction: Direction, rotation: Rotation, adjustment: u8) -> (rot: [i32; 9])
    ensures
        0 <= orientation_index(direction, rotation, adjustment as int) < 24,
        rot == ORIENTATION_MAP[orientation_index(direction, rotation, adjustment as int)],
{
    let facing: u8 = direction.ordinal();
    let turns: u8 = (rotation.ordinal() + adjustment % 4) % 4;
    let index: u8 = facing << 2 | turns;
    assert(index == 4 * facing + turns) by (bit_vector)
        requires
            index == facing << 2 | turns,
            facing < 6,
            turns < 4,
    ;
    ORIENTATION_MAP[index as usize]
}

/// A brick that faces the positive first axis and is not turned stands
/// unrotated.
pub proof fn lemma_orientation_unturned()
    ensures
        orientation_index(Direction::XPositive, Rotation::Deg0, 0) == 0,
        orientation_matrix(orientation_index(Direction::XPositive, Rotation::Deg0, 0))
            == Mat3::identity(),
{
}

/// Every entry of the table is orthonormal: its columns have unit length and
/// are mutually orthogonal.
pub proof fn lemma_orientation_orthonormal(index: int)
    requires
        0 <= index < 24,
    ensures
        orientation_matrix(index).is_orthonormal(),
        orientation_matrix(index).within(-1, 1),
{
    let m = orientation_matrix(index);
    lemma_unit_dot(m.col_x(), m.col_x());
    lemma_unit_dot(m.col_y(), m.col_y());
    lemma_unit_dot(m.col_z(), m.col_z());
    lemma_unit_dot(m.col_x(), m.col_y());
    lemma_unit_dot(m.col_x(), m.col_z());
    lemma_unit_dot(m.col_y(), m.col_z());
}

} // verus!
