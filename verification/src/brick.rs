//! What a save holds of a brick, and the tables that bricks refer to.

use crate::algebra::Vec3;
use crate::color::Color;
use crate::orientation::{Direction, Rotation};
use vstd::prelude::*;

verus! {

/// The size of a brick: half of its extent along each grid axis, in grid
/// units. A brick with a fixed mesh stores none.
#[derive(Clone, Copy, Debug, PartialEq, Eq)]
pub enum Size {
    Empty,
    Procedural(u32, u32, u32),
}

/// The colour of a brick: a place in the palette of the save, or a colour of
/// its own.
#[derive(Clone, Copy, Debug, PartialEq, Eq)]
pub enum BrickColor {
    Index(u32),
    Unique(Color),
}

/// The point light that a brick carries. Brightness and range are
/// single-precision numbers, held by their bit patterns; a field that the
/// save left out is `None`. A light that does not say whether it takes the
/// colour of its brick does not take it.
#[derive(Clone, Copy, Debug, PartialEq, Eq)]
pub struct PointLight {
    pub brightness: Option<u32>,
    pub range: Option<u32>,
    pub cast_shadows: Option<bool>,
    pub use_brick_color: Option<bool>,
    pub color: Option<Color>,
}

/// One brick of a save.
#[derive(Clone, Copy, Debug, PartialEq, Eq)]
pub struct Brick {
    /// The place of the brick's asset name in [`SaveData::brick_assets`].
    pub asset_name_index: u32,
    pub size: Size,
    /// The centre of the brick on the grid; the third axis points up.
    pub position: (i32, i32, i32),
    pub direction: Direction,
    pub rotation: Rotation,
    /// Whether players collide with the brick.
    pub player_collision: bool,
    pub visibility: bool,
    /// The place of the brick's material in [`SaveData::materials`].
    pub material_index: u32,
    pub material_intensity: u32,
    pub color: BrickColor,
    pub point_light: Option<PointLight>,
}

/// The tables of a save that its bricks refer to.
#[derive(Clone, Debug, PartialEq, Eq)]
pub struct SaveData {
    pub brick_assets: Vec<String>,
    pub colors: Vec<Color>,
    pub materials: Vec<String>,
}

impl PointLight {
    /// Whether the light shines in the colour of its primitive: only where
    /// it says so.
    pub open spec fn takes_brick_color(self) -> bool {
        self.use_brick_color == Some(true)
    }
}

impl Size {
    /// Half of the brick's extent along each grid axis, in tenths of a world
    /// unit; nothing for a brick without a stored size.
    pub open spec fn half_extents(self) -> Vec3 {
        match self {
            Size::Empty => Vec3::zero(),
            Size::Procedural(x, y, z) => Vec3::new(x as int, y as int, z as int),
        }
    }
}

impl Brick {
    /// The colour that the brick shows: its own, or the one at its place in
    /// the palette.
    pub open spec fn shown_color(self, save: SaveData) -> Color {
        match self.color {
            BrickColor::Index(index) => save.colors@[index as int],
            BrickColor::Unique(color) => color,
        }
    }

    /// The name of the brick's asset.
    pub open spec fn asset(self, save: SaveData) -> Seq<char> {
        save.brick_assets@[self.asset_name_index as int]@
    }

    /// The name of the brick's material.
    pub open spec fn material(self, save: SaveData) -> Seq<char> {
        save.materials@[self.material_index as int]@
    }

    /// The brick's asset is in the table of asset names.
    pub open spec fn names_asset(self, save: SaveData) -> bool {
        self.asset_name_index < save.brick_assets@.len()
    }

    /// The brick's colour, where it is a place in the palette, is in the
    /// palette.
    pub open spec fn names_color(self, save: SaveData) -> bool {
        self.color matches BrickColor::Index(index) ==> index < save.colors@.len()
    }

    /// The brick's material, where the brick is visible, is in the table of
    /// materials.
    pub open spec fn names_material(self, save: SaveData) -> bool {
        self.visibility ==> self.material_index < save.materials@.len()
    }
}

} // verus!
