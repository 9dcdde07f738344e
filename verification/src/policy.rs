//! The policy that every decomposition rule shares: where a brick stands,
//! and what its material, its visibility, its collision flag and its light
//! write on the primitives that stand for it.

use crate::algebra::{lemma_dot_within, lemma_times_within, Affine, Vec3};
use crate::brick::{Brick, PointLight, SaveData};
use crate::cframe::CoordinateFrame;
use crate::color::{Color, Color3};
use crate::instance::{Leaf, Properties, PropertyValue};
use crate::orientation::{
    lemma_orientation_orthonormal, lemma_orientation_unturned, orientation, orientation_index,
    orientation_matrix, Direction, Rotation,
};
use crate::text::str_eq;
use vstd::prelude::*;

verus! {

/// The material `Neon` of the output format.
pub const MATERIAL_NEON: u32 = 288;

/// The material `Metal` of the output format.
pub const MATERIAL_METAL: u32 = 1088;

/// The material `ForceField` of the output format.
pub const MATERIAL_FORCE_FIELD: u32 = 1584;

/// Full transparency, in tenths.
pub const TRANSPARENCY_FULL: i64 = 10;

/// The transparency of a ghost brick, in tenths; it is written as a
/// double-precision number.
pub const TRANSPARENCY_PHANTOM: i64 = 5;

/// The material intensity at which glass is opaque; it is also the divisor
/// that turns an intensity into a transparency.
pub const INTENSITY_MAX: i64 = 10;

/// The divisor that turns the brightness and the range of a light in a save
/// into those of the output format.
pub const LIGHT_DIVISOR: u32 = 10;

/// The bit pattern of the single-precision number 10, the brightness of a
/// light that stores none.
pub const DEFAULT_BRIGHTNESS: u32 = 0x4120_0000;

/// The bit pattern of the single-precision number 100, the range of a light
/// that stores none.
pub const DEFAULT_RANGE: u32 = 0x42c8_0000;

/// The materials of a save that change how a primitive looks.
#[derive(Clone, Copy, Debug, PartialEq, Eq)]
pub enum Material {
    Phantom,
    Glow,
    Metallic,
    Hologram,
    Glass,
    Plain,
}

/// The material that a name of the save's material table stands for.
pub open spec fn material_named(name: Seq<char>) -> Material {
    if name == "BMC_Ghost"@ || name == "BMC_Ghost_Fail"@ {
        Material::Phantom
    } else if name == "BMC_Glow"@ {
        Material::Glow
    } else if name == "BMC_Metallic"@ {
        Material::Metallic
    } else if name == "BMC_Hologram"@ {
        Material::Hologram
    } else if name == "BMC_Glass"@ {
        Material::Glass
    } else {
        Material::Plain
    }
}

/// The material that a name of the save's material table stands for.
pub fn material_of(name: &str) -> (material: Material)
    ensures
        material == material_named(name@),
{
    if str_eq(name, "BMC_Ghost") || str_eq(name, "BMC_Ghost_Fail") {
        Material::Phantom
    } else if str_eq(name, "BMC_Glow") {
        Material::Glow
    } else if str_eq(name, "BMC_Metallic") {
        Material::Metallic
    } else if str_eq(name, "BMC_Hologram") {
        Material::Hologram
    } else if str_eq(name, "BMC_Glass") {
        Material::Glass
    } else {
        Material::Plain
    }
}

/// Each material name that changes how a primitive looks stands for its
/// material.
pub proof fn lemma_material_names()
    ensures
        material_named("BMC_Ghost"@) == Material::Phantom,
        material_named("BMC_Ghost_Fail"@) == Material::Phantom,
        material_named("BMC_Glow"@) == Material::Glow,
        material_named("BMC_Metallic"@) == Material::Metallic,
        material_named("BMC_Hologram"@) == Material::Hologram,
        material_named("BMC_Glass"@) == Material::Glass,
{
    reveal_strlit("BMC_Ghost");
    assert("BMC_Ghost"@.len() == 9);
    assert("BMC_Ghost"@[5] == 'h');
    reveal_strlit("BMC_Ghost_Fail");
    assert("BMC_Ghost_Fail"@.len() == 14);
    reveal_strlit("BMC_Glow");
    assert("BMC_Glow"@.len() == 8);
    reveal_strlit("BMC_Metallic");
    assert("BMC_Metallic"@.len() == 12);
    assert("BMC_Metallic"@[4] == 'M');
    reveal_strlit("BMC_Hologram");
    assert("BMC_Hologram"@.len() == 12);
    assert("BMC_Hologram"@[4] == 'H');
    reveal_strlit("BMC_Glass");
    assert("BMC_Glass"@.len() == 9);
    assert("BMC_Glass"@[5] == 'l');
}

/// The names under which resolution writes.
pub open spec fn policy_names() -> Seq<Seq<char>> {
    seq!["Size"@, "CFrame"@, "Color"@, "Material"@, "Transparency"@, "CanCollide"@, "Anchored"@]
}

/// The names under which the decomposition rules write.
pub open spec fn rule_names() -> Seq<Seq<char>> {
    seq!["Shape"@, "TopSurface"@, "BottomSurface"@, "LeftSurface"@, "RightSurface"@]
}

/// No name occurs twice among those under which resolution and the rules
/// write.
pub proof fn lemma_property_names()
    ensures
        (policy_names() + rule_names()).no_duplicates(),
{
    reveal_strlit("Size");
    assert("Size"@.len() == 4);
    reveal_strlit("CFrame");
    assert("CFrame"@.len() == 6);
    reveal_strlit("Color");
    assert("Color"@.len() == 5);
    assert("Color"@[0] == 'C');
    reveal_strlit("Material");
    assert("Material"@.len() == 8);
    assert("Material"@[0] == 'M');
    reveal_strlit("Transparency");
    assert("Transparency"@.len() == 12);
    assert("Transparency"@[0] == 'T');
    reveal_strlit("CanCollide");
    assert("CanCollide"@.len() == 10);
    assert("CanCollide"@[0] == 'C');
    reveal_strlit("Anchored");
    assert("Anchored"@.len() == 8);
    assert("Anchored"@[0] == 'A');
    reveal_strlit("Shape");
    assert("Shape"@.len() == 5);
    assert("Shape"@[0] == 'S');
    reveal_strlit("TopSurface");
    assert("TopSurface"@.len() == 10);
    assert("TopSurface"@[0] == 'T');
    reveal_strlit("BottomSurface");
    assert("BottomSurface"@.len() == 13);
    reveal_strlit("LeftSurface");
    assert("LeftSurface"@.len() == 11);
    reveal_strlit("RightSurface");
    assert("RightSurface"@.len() == 12);
    assert("RightSurface"@[0] == 'R');
}

/// Where a brick stands: at its grid position, with the second and third
/// axes exchanged, turned by the orientation at its direction and at its
/// rotation plus `adjustment` quarter turns.
pub open spec fn placement(brick: Brick, adjustment: int) -> Affine {
    Affine {
        rot: orientation_matrix(orientation_index(brick.direction, brick.rotation, adjustment)),
        pos: Vec3::new(brick.position.0 as int, brick.position.2 as int, brick.position.1 as int),
    }
}

/// Where a brick stands, with `adjustment` quarter turns added to its own.
pub fn global_frame(brick: &Brick, adjustment: u8) -> (global: CoordinateFrame)
    ensures
        global@ == placement(*brick, adjustment as int),
        global@.is_rigid(),
{
    proof {
        lemma_orientation_orthonormal(
            orientation_index(brick.direction, brick.rotation, adjustment as int),
        );
    }
    let rot = orientation(brick.direction, brick.rotation, adjustment);
    CoordinateFrame::from_rotation(
        brick.position.0 as i64,
        brick.position.2 as i64,
        brick.position.1 as i64,
        rot,
    )
}

/// A brick stands in a rigid frame, whatever quarter turns are added to its
/// own.
pub proof fn lemma_placement_rigid(brick: Brick, adjustment: int)
    ensures
        placement(brick, adjustment).is_rigid(),
        placement(brick, adjustment).rot.within(-1, 1),
{
    lemma_orientation_orthonormal(orientation_index(brick.direction, brick.rotation, adjustment));
}

/// A brick at the origin of the grid that faces the positive first axis and
/// is not turned stands in the identity frame.
pub proof fn lemma_placement_unturned(brick: Brick)
    requires
        brick.direction == Direction::XPositive,
        brick.rotation == Rotation::Deg0,
        brick.position == (0i32, 0i32, 0i32),
    ensures
        placement(brick, 0) == Affine::identity(),
{
    lemma_orientation_unturned();
}

/// A frame whose rotation entries are at most 2^28 in size and whose position
/// is at most 2^60 in size can be placed on any brick.
pub proof fn lemma_placement_fits(brick: Brick, adjustment: int, offset: Affine)
    requires
        offset.rot.within(-0x1000_0000, 0x1000_0000),
        offset.pos.within(-0x1000_0000_0000_0000, 0x1000_0000_0000_0000),
    ensures
        placement(brick, adjustment).compose(offset).fits(),
{
    let global = placement(brick, adjustment);
    lemma_orientation_orthonormal(orientation_index(brick.direction, brick.rotation, adjustment));
    lemma_times_within(global.rot, offset.rot, 1, 0x1000_0000);
    lemma_dot_within(global.rot.x, offset.pos, 1, 0x1000_0000_0000_0000);
    lemma_dot_within(global.rot.y, offset.pos, 1, 0x1000_0000_0000_0000);
    lemma_dot_within(global.rot.z, offset.pos, 1, 0x1000_0000_0000_0000);
}

/// What the material and the visibility of a brick write: an invisible brick
/// is fully transparent whatever its material.
pub open spec fn surface_properties(brick: Brick, save: SaveData) -> Map<Seq<char>, PropertyValue> {
    if !brick.visibility {
        map!["Transparency"@ => PropertyValue::Number(TRANSPARENCY_FULL)]
    } else {
        match material_named(brick.material(save)) {
            Material::Phantom => map![
                "Material"@ => PropertyValue::Enum(MATERIAL_NEON),
                "Transparency"@ => PropertyValue::Double(TRANSPARENCY_PHANTOM),
            ],
            Material::Glow => map!["Material"@ => PropertyValue::Enum(MATERIAL_NEON)],
            Material::Metallic => map!["Material"@ => PropertyValue::Enum(MATERIAL_METAL)],
            Material::Hologram => map!["Material"@ => PropertyValue::Enum(MATERIAL_FORCE_FIELD)],
            Material::Glass => map![
                "Transparency"@ => PropertyValue::Number(
                    (INTENSITY_MAX - brick.material_intensity) as i64,
                ),
            ],
            Material::Plain => Map::empty(),
        }
    }
}

/// What the collision flag of a brick writes.
pub open spec fn collision_properties(brick: Brick) -> Map<Seq<char>, PropertyValue> {
    if brick.player_collision {
        Map::empty()
    } else {
        map!["CanCollide"@ => PropertyValue::Bool(false)]
    }
}

/// The properties of the light that a brick carries, on a primitive of
/// display colour `part_display`: brightness and range are divided by
/// [`LIGHT_DIVISOR`], and the light shines in the colour of its primitive or
/// in its own, which is white where it stores none.
pub open spec fn light_properties(light: PointLight, part_display: Color3) -> Map<
    Seq<char>,
    PropertyValue,
> {
    map![
        "Brightness"@ => PropertyValue::Quotient {
            bits: match light.brightness {
                Some(bits) => bits,
                None => DEFAULT_BRIGHTNESS,
            },
            divisor: LIGHT_DIVISOR,
        },
        "Range"@ => PropertyValue::Quotient {
            bits: match light.range {
                Some(bits) => bits,
                None => DEFAULT_RANGE,
            },
            divisor: LIGHT_DIVISOR,
        },
        "Shadows"@ => PropertyValue::Bool(
            match light.cast_shadows {
                Some(shadows) => shadows,
                None => false,
            },
        ),
        "Color"@ => PropertyValue::Color3(
            if light.takes_brick_color() {
                part_display
            } else {
                match light.color {
                    Some(color) => color.encoded(),
                    None => Color::white().encoded(),
                }
            },
        ),
    ]
}

/// Writes what the material and the visibility of a brick write.
pub fn write_surface(properties: &mut Properties, brick: &Brick, save: &SaveData)
    requires
        brick.names_material(*save),
    ensures
        final(properties)@ == old(properties)@.union_prefer_right(
            surface_properties(*brick, *save),
        ),
{
    if brick.visibility {
        match material_of(save.materials[brick.material_index as usize].as_str()) {
            Material::Phantom => {
                properties.insert("Material", PropertyValue::Enum(MATERIAL_NEON));
                properties.insert("Transparency", PropertyValue::Double(TRANSPARENCY_PHANTOM));
            },
            Material::Glow => {
                properties.insert("Material", PropertyValue::Enum(MATERIAL_NEON));
            },
            Material::Metallic => {
                properties.insert("Material", PropertyValue::Enum(MATERIAL_METAL));
            },
            Material::Hologram => {
                properties.insert("Material", PropertyValue::Enum(MATERIAL_FORCE_FIELD));
            },
            Material::Glass => {
                properties.insert(
                    "Transparency",
                    PropertyValue::Number(INTENSITY_MAX - (brick.material_intensity as i64)),
                );
            },
            Material::Plain => {},
        }
    } else {
        properties.insert("Transparency", PropertyValue::Number(TRANSPARENCY_FULL));
    }
    assert(properties@ =~= old(properties)@.union_prefer_right(surface_properties(*brick, *save)));
}

/// Writes what the collision flag of a brick writes.
pub fn write_collision(properties: &mut Properties, brick: &Brick)
    ensures
        final(properties)@ == old(properties)@.union_prefer_right(collision_properties(*brick)),
{
    if !brick.player_collision {
        properties.insert("CanCollide", PropertyValue::Bool(false));
    }
    assert(properties@ =~= old(properties)@.union_prefer_right(collision_properties(*brick)));
}

/// The light that a brick carries, on a primitive of display colour
/// `part_display`.
pub fn light_leaf(light: &PointLight, part_display: Color3) -> (leaf: Leaf)
    ensures
        leaf.class@ == "PointLight"@,
        leaf.properties@ == light_properties(*light, part_display),
{
    let mut properties = Properties::new();
    let brightness: u32 = match light.brightness {
        Some(bits) => bits,
        None => DEFAULT_BRIGHTNESS,
    };
    properties.insert(
        "Brightness",
        PropertyValue::Quotient { bits: brightness, divisor: LIGHT_DIVISOR },
    );
    let range: u32 = match light.range {
        Some(bits) => bits,
        None => DEFAULT_RANGE,
    };
    properties.insert("Range", PropertyValue::Quotient { bits: range, divisor: LIGHT_DIVISOR });
    let shadows = match light.cast_shadows {
        Some(shadows) => shadows,
        None => false,
    };
    properties.insert("Shadows", PropertyValue::Bool(shadows));
    let takes_brick_color = match light.use_brick_color {
        Some(flag) => flag,
        None => false,
    };
    let display = if takes_brick_color {
        part_display
    } else {
        match light.color {
            Some(color) => color.to_srgb(),
            None => Color::new(255, 255, 255, 255).to_srgb(),
        }
    };
    properties.insert("Color", PropertyValue::Color3(display));
    Leaf { class: "PointLight".to_owned(), properties }
}

} // verus!
