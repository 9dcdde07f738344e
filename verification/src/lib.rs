//! Exact conversion of grid-placed bricks into oriented rigid primitives.
//!
//! A brick stands on a grid: it has a position, one of six directions, one of
//! four quarter turns about that direction, a size, and a material, a colour
//! and flags. A decomposition rule, chosen by the name of the brick's asset,
//! turns it into one or more primitives, each with a frame and a size of its
//! own, and a shared policy writes what the material, the visibility, the
//! collision flag and the light of the brick mean for each of them.
//!
//! Nothing here is rounded. A length is a whole number of tenths of a world
//! unit, a rotation is a whole number of quarter turns, a display colour is
//! counted in billionths, and a single-precision number that only passes
//! through is carried by its bit pattern. Frames therefore compose exactly,
//! and what the rules promise of their geometry is proved rather than
//! measured.
//!
//! * [`algebra`]: vectors, matrices and affine transforms over the integers,
//!   with the laws of composition.
//! * [`cframe`]: the same in machine integers.
//! * [`orientation`]: the table of rotation blocks, one for each direction
//!   and rotation of a brick.
//! * [`color`]: colours and their display encoding.
//! * [`brick`]: what is read of a brick and of the tables of its save.
//! * [`instance`]: the descriptors that a conversion gives out.
//! * [`policy`]: what every rule shares.
//! * [`part`]: part definitions, their resolution, and the conversion of a
//!   brick.
//! * [`shape`]: the decomposition rules and what holds of their geometry.
//! * [`text`]: comparison of names.

pub mod algebra;
pub mod brick;
pub mod cframe;
pub mod color;
pub mod instance;
pub mod orientation;
pub mod part;
pub mod policy;
pub mod shape;
pub mod text;
