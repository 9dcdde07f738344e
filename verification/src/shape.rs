//! The decomposition rules: for each known brick asset, the primitives that
//! stand for a brick of that asset.
//!
//! A rule works in the brick's own frame, in tenths of a world unit, with the
//! second axis pointing up. The brick is the box around the origin whose half
//! extents along the first, second and third axes are the brick's half
//! extents along the grid's first, third and second axes.

use crate::algebra::{
    lemma_compose_identity, lemma_compose_rigid, lemma_compose_rotation,
    lemma_orthonormal_within, lemma_times_identity, lemma_times_orthonormal,
    lemma_turns_orthonormal, Affine, Mat3, Vec3,
};
use crate::brick::{Brick, SaveData, Size};
use crate::cframe::{CoordinateFrame, Vector3};
use crate::instance::{Instance, PropertyValue};
use crate::part::{keeps_policy, lemma_resolved_policy, PartDef, PartView};
use crate::orientation::{lemma_orientation_orthonormal, orientation_index, Direction, Rotation};
use crate::policy::{
    lemma_placement_fits, lemma_placement_unturned, lemma_property_names, placement,
    policy_names, rule_names,
};
use crate::text::str_eq;
use vstd::prelude::*;

verus! {

/// The surface type `Smooth` of the output format.
pub const SURFACE_SMOOTH: u32 = 0;

/// The surface type `Studs` of the output format.
pub const SURFACE_STUDS: u32 = 3;

/// The surface type `Inlet` of the output format.
pub const SURFACE_INLET: u32 = 4;

/// The part shape `Cylinder` of the output format.
pub const SHAPE_CYLINDER: u32 = 2;

/// The width of the upright end of a ramp.
pub const RAMP_END: i64 = 10;

/// Half of [`RAMP_END`].
pub const HALF_RAMP_END: i64 = 5;

/// The thickness of the plate under a slope, by which the slope is inset.
pub const INSET: i64 = 2;

/// Half of [`INSET`].
pub const HALF_INSET: i64 = 1;

/// The brick assets that have a decomposition rule.
#[derive(Clone, Copy, Debug, PartialEq, Eq)]
pub enum Shape {
    Brick,
    Tile,
    Ramp,
    RampInverted,
    Wedge,
    SideWedge,
    SideWedgeTile,
    MicroBrick,
    MicroWedge,
    MicroWedgeInnerCorner,
    Round2x2,
    Round2x2Flat,
    Round1x1,
    Cone1x1,
    Round1x1Flat,
}

/// The shape that an asset name stands for, if it has a rule.
pub open spec fn shape_named(name: Seq<char>) -> Option<Shape> {
    if name == "PB_DefaultBrick"@ {
        Some(Shape::Brick)
    } else if name == "PB_DefaultTile"@ {
        Some(Shape::Tile)
    } else if name == "PB_DefaultRamp"@ {
        Some(Shape::Ramp)
    } else if name == "PB_DefaultRampInverted"@ {
        Some(Shape::RampInverted)
    } else if name == "PB_DefaultWedge"@ {
        Some(Shape::Wedge)
    } else if name == "PB_DefaultSideWedge"@ {
        Some(Shape::SideWedge)
    } else if name == "PB_DefaultSideWedgeTile"@ {
        Some(Shape::SideWedgeTile)
    } else if name == "PB_DefaultMicroBrick"@ {
        Some(Shape::MicroBrick)
    } else if name == "PB_DefaultMicroWedge"@ {
        Some(Shape::MicroWedge)
    } else if name == "PB_DefaultMicroWedgeInnerCorner"@ {
        Some(Shape::MicroWedgeInnerCorner)
    } else if name == "B_2x2_Round"@ {
        Some(Shape::Round2x2)
    } else if name == "B_2x2F_Round"@ {
        Some(Shape::Round2x2Flat)
    } else if name == "B_1x1_Round"@ {
        Some(Shape::Round1x1)
    } else if name == "B_1x1_Cone"@ {
        Some(Shape::Cone1x1)
    } else if name == "B_1x1F_Round"@ {
        Some(Shape::Round1x1Flat)
    } else {
        None
    }
}

/// The shape that an asset name stands for, or `None` where the asset has no
/// rule.
pub fn shape_of(name: &str) -> (shape: Option<Shape>)
    ensures
        shape == shape_named(name@),
{
    if str_eq(name, "PB_DefaultBrick") {
        Some(Shape::Brick)
    } else if str_eq(name, "PB_DefaultTile") {
        Some(Shape::Tile)
    } else if str_eq(name, "PB_DefaultRamp") {
        Some(Shape::Ramp)
    } else if str_eq(name, "PB_DefaultRampInverted") {
        Some(Shape::RampInverted)
    } else if str_eq(name, "PB_DefaultWedge") {
        Some(Shape::Wedge)
    } else if str_eq(name, "PB_DefaultSideWedge") {
        Some(Shape::SideWedge)
    } else if str_eq(name, "PB_DefaultSideWedgeTile") {
        Some(Shape::SideWedgeTile)
    } else if str_eq(name, "PB_DefaultMicroBrick") {
        Some(Shape::MicroBrick)
    } else if str_eq(name, "PB_DefaultMicroWedge") {
        Some(Shape::MicroWedge)
    } else if str_eq(name, "PB_DefaultMicroWedgeInnerCorner") {
        Some(Shape::MicroWedgeInnerCorner)
    } else if str_eq(name, "B_2x2_Round") {
        Some(Shape::Round2x2)
    } else if str_eq(name, "B_2x2F_Round") {
        Some(Shape::Round2x2Flat)
    } else if str_eq(name, "B_1x1_Round") {
        Some(Shape::Round1x1)
    } else if str_eq(name, "B_1x1_Cone") {
        Some(Shape::Cone1x1)
    } else if str_eq(name, "B_1x1F_Round") {
        Some(Shape::Round1x1Flat)
    } else {
        None
    }
}

/// Each asset name that has a rule stands for a shape of its own.
pub proof fn lemma_shape_names()
    ensures
        shape_named("PB_DefaultBrick"@) == Some(Shape::Brick),
        shape_named("PB_DefaultTile"@) == Some(Shape::Tile),
        shape_named("PB_DefaultRamp"@) == Some(Shape::Ramp),
        shape_named("PB_DefaultRampInverted"@) == Some(Shape::RampInverted),
        shape_named("PB_DefaultWedge"@) == Some(Shape::Wedge),
        shape_named("PB_DefaultSideWedge"@) == Some(Shape::SideWedge),
        shape_named("PB_DefaultSideWedgeTile"@) == Some(Shape::SideWedgeTile),
        shape_named("PB_DefaultMicroBrick"@) == Some(Shape::MicroBrick),
        shape_named("PB_DefaultMicroWedge"@) == Some(Shape::MicroWedge),
        shape_named("PB_DefaultMicroWedgeInnerCorner"@) == Some(Shape::MicroWedgeInnerCorner),
        shape_named("B_2x2_Round"@) == Some(Shape::Round2x2),
        shape_named("B_2x2F_Round"@) == Some(Shape::Round2x2Flat),
        shape_named("B_1x1_Round"@) == Some(Shape::Round1x1),
        shape_named("B_1x1_Cone"@) == Some(Shape::Cone1x1),
        shape_named("B_1x1F_Round"@) == Some(Shape::Round1x1Flat),
{
    reveal_strlit("PB_DefaultBrick");
    assert("PB_DefaultBrick"@.len() == 15);
    assert("PB_DefaultBrick"@[10] == 'B');
    reveal_strlit("PB_DefaultTile");
    assert("PB_DefaultTile"@.len() == 14);
    assert("PB_DefaultTile"@[10] == 'T');
    reveal_strlit("PB_DefaultRamp");
    assert("PB_DefaultRamp"@.len() == 14);
    assert("PB_DefaultRamp"@[10] == 'R');
    reveal_strlit("PB_DefaultRampInverted");
    assert("PB_DefaultRampInverted"@.len() == 22);
    reveal_strlit("PB_DefaultWedge");
    assert("PB_DefaultWedge"@.len() == 15);
    assert("PB_DefaultWedge"@[10] == 'W');
    reveal_strlit("PB_DefaultSideWedge");
    assert("PB_DefaultSideWedge"@.len() == 19);
    reveal_strlit("PB_DefaultSideWedgeTile");
    assert("PB_DefaultSideWedgeTile"@.len() == 23);
    reveal_strlit("PB_DefaultMicroBrick");
    assert("PB_DefaultMicroBrick"@.len() == 20);
    assert("PB_DefaultMicroBrick"@[15] == 'B');
    reveal_strlit("PB_DefaultMicroWedge");
    assert("PB_DefaultMicroWedge"@.len() == 20);
    assert("PB_DefaultMicroWedge"@[15] == 'W');
    reveal_strlit("PB_DefaultMicroWedgeInnerCorner");
    assert("PB_DefaultMicroWedgeInnerCorner"@.len() == 31);
    reveal_strlit("B_2x2_Round");
    assert("B_2x2_Round"@.len() == 11);
    assert("B_2x2_Round"@[2] == '2');
    reveal_strlit("B_2x2F_Round");
    assert("B_2x2F_Round"@.len() == 12);
    assert("B_2x2F_Round"@[2] == '2');
    reveal_strlit("B_1x1_Round");
    assert("B_1x1_Round"@.len() == 11);
    assert("B_1x1_Round"@[2] == '1');
    reveal_strlit("B_1x1_Cone");
    assert("B_1x1_Cone"@.len() == 10);
    reveal_strlit("B_1x1F_Round");
    assert("B_1x1F_Round"@.len() == 12);
    assert("B_1x1F_Round"@[2] == '1');
}

/// The box of a whole brick with half extents `h`.
pub open spec fn cuboid(h: Vec3) -> PartView {
    PartView::placed(
        "Part"@,
        Mat3::identity(),
        Vec3::zero(),
        Vec3::new(2 * h.x, 2 * h.z, 2 * h.y),
    )
}

/// The surfaces of a part that shows no studs and no inlets.
pub open spec fn smooth_top(part: PartView) -> PartView {
    part.property("TopSurface"@, PropertyValue::Enum(SURFACE_SMOOTH))
}

/// The surfaces of a part that shows no studs and no inlets.
pub open spec fn smooth_bottom(part: PartView) -> PartView {
    part.property("BottomSurface"@, PropertyValue::Enum(SURFACE_SMOOTH))
}

/// A part that lies on its side, a quarter turn about the third axis: what
/// were its top and bottom are smooth, and its left and right faces carry the
/// inlets and the surface `right`.
pub open spec fn on_its_side(part: PartView, right: u32) -> PartView {
    smooth_bottom(smooth_top(part)).property(
        "LeftSurface"@,
        PropertyValue::Enum(SURFACE_INLET),
    ).property("RightSurface"@, PropertyValue::Enum(right))
}

/// A cylinder of the given size along the brick's upright axis.
pub open spec fn cylinder(x: int, y: int, z: int) -> PartView {
    on_its_side(
        PartView::placed("Part"@, Mat3::rot_z(1), Vec3::zero(), Vec3::new(x, y, z)).property(
            "Shape"@,
            PropertyValue::Enum(SHAPE_CYLINDER),
        ),
        SURFACE_STUDS,
    )
}

/// A wedge that fills the whole brick, lying on its side; `right` is the
/// surface of its right face.
pub open spec fn side_wedge(h: Vec3, right: u32) -> PartView {
    on_its_side(
        PartView::placed(
            "WedgePart"@,
            Mat3::rot_z(1),
            Vec3::zero(),
            Vec3::new(2 * h.z, 2 * h.x, 2 * h.y),
        ),
        right,
    )
}

/// The upright end of a ramp: the last [`RAMP_END`] tenths of the brick along
/// the first axis, at its full height and depth.
pub open spec fn ramp_end(h: Vec3) -> PartView {
    PartView::placed(
        "Part"@,
        Mat3::identity(),
        Vec3::new(h.x - HALF_RAMP_END, 0, 0),
        Vec3::new(RAMP_END as int, 2 * h.z, 2 * h.y),
    )
}

/// The slope of a ramp: a wedge over the rest of the brick's length, above
/// the plate.
pub open spec fn ramp_slope(h: Vec3) -> PartView {
    PartView::placed(
        "WedgePart"@,
        Mat3::rot_y(1),
        Vec3::new(-HALF_RAMP_END, HALF_INSET as int, 0),
        Vec3::new(2 * h.y, 2 * h.z - INSET, 2 * h.x - RAMP_END),
    )
}

/// The plate under the slope of a ramp.
pub open spec fn ramp_plate(h: Vec3) -> PartView {
    PartView::placed(
        "Part"@,
        Mat3::identity(),
        Vec3::new(-HALF_RAMP_END, -h.z + HALF_INSET, 0),
        Vec3::new(2 * h.x - RAMP_END, INSET as int, 2 * h.y),
    )
}

/// The slope of an inverted ramp: the wedge of a ramp, upside down, under
/// the plate.
pub open spec fn inverted_slope(h: Vec3) -> PartView {
    PartView::placed(
        "WedgePart"@,
        Mat3::rot_x(2).times(Mat3::rot_y(1)),
        Vec3::new(-HALF_RAMP_END, -HALF_INSET, 0),
        Vec3::new(2 * h.y, 2 * h.z - INSET, 2 * h.x - RAMP_END),
    )
}

/// The plate over the slope of an inverted ramp.
pub open spec fn inverted_plate(h: Vec3) -> PartView {
    PartView::placed(
        "Part"@,
        Mat3::identity(),
        Vec3::new(-HALF_RAMP_END, h.z - HALF_INSET, 0),
        Vec3::new(2 * h.x - RAMP_END, INSET as int, 2 * h.y),
    )
}

/// The slope of a wedge: a wedge over the brick's whole length, above the
/// plate.
pub open spec fn wedge_slope(h: Vec3) -> PartView {
    PartView::placed(
        "WedgePart"@,
        Mat3::rot_y(1),
        Vec3::new(0, HALF_INSET as int, 0),
        Vec3::new(2 * h.y, 2 * h.z - INSET, 2 * h.x),
    )
}

/// The plate under the slope of a wedge.
pub open spec fn wedge_plate(h: Vec3) -> PartView {
    PartView::placed(
        "Part"@,
        Mat3::rot_y(1),
        Vec3::new(0, -h.z + HALF_INSET, 0),
        Vec3::new(2 * h.y, INSET as int, 2 * h.x),
    )
}

/// A wedge that fills a whole micro brick.
pub open spec fn micro_wedge(h: Vec3) -> PartView {
    smooth_bottom(
        PartView::placed(
            "WedgePart"@,
            Mat3::rot_z(1).times(Mat3::rot_x(-1)).times(Mat3::rot_y(2)),
            Vec3::zero(),
            Vec3::new(2 * h.z, 2 * h.y, 2 * h.x),
        ),
    )
}

/// The first wedge of an inner corner, a quarter turn from the second.
pub open spec fn corner_turned(h: Vec3) -> PartView {
    smooth_bottom(
        PartView::placed(
            "WedgePart"@,
            Mat3::rot_y(1),
            Vec3::zero(),
            Vec3::new(2 * h.x, 2 * h.z, 2 * h.y),
        ),
    )
}

/// The second wedge of an inner corner.
pub open spec fn corner_straight(h: Vec3) -> PartView {
    smooth_bottom(
        PartView::placed(
            "WedgePart"@,
            Mat3::identity(),
            Vec3::zero(),
            Vec3::new(2 * h.y, 2 * h.z, 2 * h.x),
        ),
    )
}

/// The primitives of a brick of shape `shape` with half extents `h`, in the
/// order of the rule.
pub open spec fn shape_parts(shape: Shape, h: Vec3) -> Seq<PartView> {
    match shape {
        Shape::Brick => seq![cuboid(h)],
        Shape::Tile => seq![smooth_top(cuboid(h))],
        Shape::Ramp => seq![ramp_end(h), ramp_slope(h), ramp_plate(h)],
        Shape::RampInverted => seq![ramp_end(h), inverted_slope(h), inverted_plate(h)],
        Shape::Wedge => seq![wedge_slope(h), wedge_plate(h)],
        Shape::SideWedge => seq![side_wedge(h, SURFACE_STUDS)],
        Shape::SideWedgeTile => seq![side_wedge(h, SURFACE_SMOOTH)],
        Shape::MicroBrick => seq![smooth_bottom(smooth_top(cuboid(h)))],
        Shape::MicroWedge => seq![micro_wedge(h)],
        Shape::MicroWedgeInnerCorner => seq![corner_turned(h), corner_straight(h)],
        Shape::Round2x2 => seq![cylinder(12, 20, 20)],
        Shape::Round2x2Flat => seq![cylinder(4, 20, 20)],
        Shape::Round1x1 => seq![cylinder(12, 10, 10)],
        Shape::Cone1x1 => seq![cylinder(12, 10, 10)],
        Shape::Round1x1Flat => seq![cylinder(12, 10, 10)],
    }
}

/// The local offset of `part` is rigid, its rotation entries are -1, 0 or 1
/// and it lies within 2^33 tenths of the brick's centre; the part sets no
/// colour and no rotation adjustment.
pub open spec fn well_placed(part: PartView) -> bool {
    &&& part.offset.is_rigid()
    &&& part.offset.rot.within(-1, 1)
    &&& part.offset.pos.within(-0x2_0000_0000, 0x2_0000_0000)
    &&& part.color is None
    &&& part.rotation_adjustment == 0
}

/// Every primitive of every rule is well placed.
pub proof fn lemma_rules_well_placed(shape: Shape, size: Size, i: int)
    requires
        0 <= i < shape_parts(shape, size.half_extents()).len(),
    ensures
        well_placed(shape_parts(shape, size.half_extents())[i]),
{
    let h = size.half_extents();
    assert(h.within(0, u32::MAX as int));
    lemma_turns_orthonormal(1);
    lemma_turns_orthonormal(2);
    lemma_turns_orthonormal(-1);
    lemma_times_orthonormal(Mat3::rot_x(2), Mat3::rot_y(1));
    lemma_times_orthonormal(Mat3::rot_z(1), Mat3::rot_x(-1));
    lemma_times_orthonormal(Mat3::rot_z(1).times(Mat3::rot_x(-1)), Mat3::rot_y(2));
}

/// Every primitive of every rule stands in a rigid frame, on whatever brick:
/// the rotation block of its resolved frame is orthonormal.
pub proof fn lemma_rule_frames_rigid(shape: Shape, brick: Brick, i: int)
    requires
        0 <= i < shape_parts(shape, brick.size.half_extents()).len(),
    ensures
        shape_parts(shape, brick.size.half_extents())[i].resolved_frame(brick).is_rigid(),
        shape_parts(shape, brick.size.half_extents())[i].resolved_frame(brick).fits(),
{
    let part = shape_parts(shape, brick.size.half_extents())[i];
    lemma_rules_well_placed(shape, brick.size, i);
    lemma_orientation_orthonormal(orientation_index(brick.direction, brick.rotation, 0));
    lemma_compose_rigid(placement(brick, 0), part.offset);
    lemma_placement_fits(brick, 0, part.offset);
}

/// Every primitive that stands for a brick is in a rigid frame: the columns
/// of the rotation block that it is given have unit length and are mutually
/// orthogonal, whatever the direction and the rotation of the brick.
pub proof fn lemma_rule_resolved_rigid(
    shape: Shape,
    brick: Brick,
    save: SaveData,
    instance: Instance,
    i: int,
)
    requires
        0 <= i < shape_parts(shape, brick.size.half_extents()).len(),
        shape_parts(shape, brick.size.half_extents())[i].resolves_to(save, brick, instance),
    ensures
        instance.properties@.contains_key("CFrame"@),
        instance.properties@["CFrame"@] == PropertyValue::CFrame(
            CoordinateFrame::of(
                shape_parts(shape, brick.size.half_extents())[i].resolved_frame(brick),
            ),
        ),
        CoordinateFrame::of(
            shape_parts(shape, brick.size.half_extents())[i].resolved_frame(brick),
        )@.is_rigid(),
{
    let h = brick.size.half_extents();
    let part = shape_parts(shape, h)[i];
    lemma_rules_well_placed(shape, brick.size, i);
    lemma_rule_frames_rigid(shape, brick, i);
    lemma_rules_keep_policy(shape, h, i);
    lemma_resolved_policy(part, save, brick);
}

/// The brick is large enough for its rule: a ramp is at least as long as
/// its upright end, and a slope at least as high as the plate that goes with
/// it.
pub open spec fn large_enough(shape: Shape, h: Vec3) -> bool {
    match shape {
        Shape::Ramp | Shape::RampInverted => 2 * h.x >= RAMP_END && 2 * h.z >= INSET,
        Shape::Wedge => 2 * h.z >= INSET,
        _ => true,
    }
}

/// No primitive of a brick that is large enough for its rule has a negative
/// size.
pub proof fn lemma_sizes_not_negative(shape: Shape, h: Vec3, i: int)
    requires
        h.x >= 0,
        h.y >= 0,
        h.z >= 0,
        large_enough(shape, h),
        0 <= i < shape_parts(shape, h).len(),
    ensures
        shape_parts(shape, h)[i].size.x >= 0,
        shape_parts(shape, h)[i].size.y >= 0,
        shape_parts(shape, h)[i].size.z >= 0,
{
}

/// Whether a shape's rule is a single box of the brick's own extents.
pub open spec fn is_cuboid(shape: Shape) -> bool {
    shape == Shape::Brick || shape == Shape::Tile || shape == Shape::MicroBrick
}

/// A brick, a tile and a micro brick each become one upright box at the
/// brick's centre whose size is the brick's full extents, the second and
/// third grid axes exchanged.
pub proof fn lemma_cuboid_size(shape: Shape, h: Vec3)
    requires
        is_cuboid(shape),
    ensures
        shape_parts(shape, h).len() == 1,
        shape_parts(shape, h)[0].class == "Part"@,
        shape_parts(shape, h)[0].offset == Affine::identity(),
        shape_parts(shape, h)[0].size == Vec3::new(2 * h.x, 2 * h.z, 2 * h.y),
        shape_parts(shape, h)[0].extent() == Vec3::new(2 * h.x, 2 * h.z, 2 * h.y),
{
}

/// No rule overrides what resolution writes: the rules write under
/// [`rule_names`] only.
pub proof fn lemma_rules_keep_policy(shape: Shape, h: Vec3, i: int)
    requires
        0 <= i < shape_parts(shape, h).len(),
    ensures
        keeps_policy(shape_parts(shape, h)[i]),
{
    lemma_property_names();
    let names = policy_names() + rule_names();
    let part = shape_parts(shape, h)[i];
    assert forall|k: int| 0 <= k < policy_names().len() implies !part.properties.contains_key(
        #[trigger] policy_names()[k],
    ) by {
        assert(names[k] == policy_names()[k]);
        assert(names[7] == "Shape"@);
        assert(names[8] == "TopSurface"@);
        assert(names[9] == "BottomSurface"@);
        assert(names[10] == "LeftSurface"@);
        assert(names[11] == "RightSurface"@);
    }
}

/// The primitive that stands for a brick, a tile or a micro brick has, as
/// its size, the brick's full extents with the second and third grid axes
/// exchanged.
pub proof fn lemma_cuboid_resolved_size(
    shape: Shape,
    brick: Brick,
    save: SaveData,
    instance: Instance,
)
    requires
        is_cuboid(shape),
        shape_parts(shape, brick.size.half_extents())[0].resolves_to(save, brick, instance),
    ensures
        instance.properties@.contains_key("Size"@),
        instance.properties@["Size"@] == PropertyValue::Vector3(
            Vector3::of(
                Vec3::new(
                    2 * brick.size.half_extents().x,
                    2 * brick.size.half_extents().z,
                    2 * brick.size.half_extents().y,
                ),
            ),
        ),
{
    let h = brick.size.half_extents();
    lemma_cuboid_size(shape, h);
    lemma_rules_keep_policy(shape, h, 0);
    lemma_resolved_policy(shape_parts(shape, h)[0], save, brick);
}

/// A brick, a tile or a micro brick at the origin of the grid that faces the
/// positive first axis and is not turned becomes a primitive in the identity
/// frame: it is not rotated and stands at the origin.
pub proof fn lemma_cuboid_unturned(shape: Shape, brick: Brick, save: SaveData, instance: Instance)
    requires
        is_cuboid(shape),
        brick.direction == Direction::XPositive,
        brick.rotation == Rotation::Deg0,
        brick.position == (0i32, 0i32, 0i32),
        shape_parts(shape, brick.size.half_extents())[0].resolves_to(save, brick, instance),
    ensures
        instance.properties@.contains_key("CFrame"@),
        instance.properties@["CFrame"@] == PropertyValue::CFrame(CoordinateFrame::identity()),
{
    let h = brick.size.half_extents();
    let part = shape_parts(shape, h)[0];
    lemma_cuboid_size(shape, h);
    lemma_rules_keep_policy(shape, h, 0);
    lemma_resolved_policy(part, save, brick);
    lemma_placement_unturned(brick);
    lemma_compose_identity(Affine::identity());
}

/// The three primitives of a ramp tile the brick: along the first axis the
/// slope and the upright end lie end to end over the brick's length; under
/// the slope, along the second axis, the plate and the slope lie end to end
/// over the brick's height, the plate being [`INSET`] thick; and every
/// primitive has the brick's depth.
pub proof fn lemma_ramp_tiles(h: Vec3)
    ensures
        cuboid(h).span_x().splits_into(ramp_slope(h).span_x(), ramp_end(h).span_x()),
        ramp_plate(h).span_x() == ramp_slope(h).span_x(),
        cuboid(h).span_y().splits_into(ramp_plate(h).span_y(), ramp_slope(h).span_y()),
        ramp_end(h).span_y() == cuboid(h).span_y(),
        ramp_end(h).span_z() == cuboid(h).span_z(),
        ramp_slope(h).span_z() == cuboid(h).span_z(),
        ramp_plate(h).span_z() == cuboid(h).span_z(),
        ramp_slope(h).extent().x + ramp_end(h).extent().x == cuboid(h).extent().x,
        ramp_plate(h).extent().y + ramp_slope(h).extent().y == cuboid(h).extent().y,
        ramp_plate(h).extent().y == INSET,
{
}

/// The three primitives of an inverted ramp tile the brick as those of a
/// ramp do, with the plate over the slope.
pub proof fn lemma_inverted_ramp_tiles(h: Vec3)
    ensures
        cuboid(h).span_x().splits_into(inverted_slope(h).span_x(), ramp_end(h).span_x()),
        inverted_plate(h).span_x() == inverted_slope(h).span_x(),
        cuboid(h).span_y().splits_into(inverted_slope(h).span_y(), inverted_plate(h).span_y()),
        ramp_end(h).span_y() == cuboid(h).span_y(),
        ramp_end(h).span_z() == cuboid(h).span_z(),
        inverted_slope(h).span_z() == cuboid(h).span_z(),
        inverted_plate(h).span_z() == cuboid(h).span_z(),
        inverted_slope(h).extent().x + ramp_end(h).extent().x == cuboid(h).extent().x,
        inverted_slope(h).extent().y + inverted_plate(h).extent().y == cuboid(h).extent().y,
        inverted_plate(h).extent().y == INSET,
{
    lemma_turns_orthonormal(1);
    lemma_turns_orthonormal(2);
    lemma_times_orthonormal(Mat3::rot_x(2), Mat3::rot_y(1));
}

/// The two primitives of a wedge tile the brick: along the second axis the
/// plate and the slope lie end to end over the brick's height, the plate
/// being [`INSET`] thick, and both have the brick's length and depth.
pub proof fn lemma_wedge_tiles(h: Vec3)
    ensures
        cuboid(h).span_y().splits_into(wedge_plate(h).span_y(), wedge_slope(h).span_y()),
        wedge_slope(h).span_x() == cuboid(h).span_x(),
        wedge_plate(h).span_x() == cuboid(h).span_x(),
        wedge_slope(h).span_z() == cuboid(h).span_z(),
        wedge_plate(h).span_z() == cuboid(h).span_z(),
        wedge_plate(h).extent().y + wedge_slope(h).extent().y == cuboid(h).extent().y,
        wedge_plate(h).extent().y == INSET,
{
}

/// The part definitions of a sequence, as mathematical values.
pub open spec fn views(parts: Seq<PartDef>) -> Seq<PartView> {
    parts.map_values(|part: PartDef| part@)
}

/// The blank definition of class `class`, moved by `(x, y, z)` and then
/// turned by `turn`.
fn placed_part(class: &str, x: i64, y: i64, z: i64, turn: CoordinateFrame) -> (part: PartDef)
    requires
        turn@.pos == Vec3::zero(),
        turn@.is_rigid(),
    ensures
        part@ == PartView::placed(
            class@,
            turn@.rot,
            Vec3::new(x as int, y as int, z as int),
            Vec3::zero(),
        ),
{
    proof {
        let moved = Affine::translation(x as int, y as int, z as int);
        lemma_compose_identity(moved);
        lemma_compose_rotation(moved, turn@.rot);
        lemma_times_identity(turn@.rot);
        lemma_orthonormal_within(turn@.rot);
    }
    PartDef::new(class).offset(x, y, z).cf(turn)
}

/// The composition of two rotations about the origin.
fn turned(first: CoordinateFrame, second: CoordinateFrame) -> (both: CoordinateFrame)
    requires
        first@.pos == Vec3::zero(),
        second@.pos == Vec3::zero(),
        first@.is_rigid(),
        second@.is_rigid(),
    ensures
        both@ == Affine::rotation(first@.rot.times(second@.rot)),
        both@.is_rigid(),
{
    proof {
        lemma_compose_rotation(first@, second@.rot);
        lemma_times_orthonormal(first@.rot, second@.rot);
    }
    first * second
}

fn smooth_top_part(part: PartDef) -> (smooth: PartDef)
    ensures
        smooth@ == smooth_top(part@),
{
    part.property("TopSurface", PropertyValue::Enum(SURFACE_SMOOTH))
}

fn smooth_bottom_part(part: PartDef) -> (smooth: PartDef)
    ensures
        smooth@ == smooth_bottom(part@),
{
    part.property("BottomSurface", PropertyValue::Enum(SURFACE_SMOOTH))
}

fn on_its_side_part(part: PartDef, right: u32) -> (turned: PartDef)
    ensures
        turned@ == on_its_side(part@, right),
{
    smooth_bottom_part(smooth_top_part(part)).property(
        "LeftSurface",
        PropertyValue::Enum(SURFACE_INLET),
    ).property("RightSurface", PropertyValue::Enum(right))
}

fn cuboid_part(x: i64, y: i64, z: i64) -> (part: PartDef)
    requires
        0 <= x <= u32::MAX,
        0 <= y <= u32::MAX,
        0 <= z <= u32::MAX,
    ensures
        part@ == cuboid(Vec3::new(x as int, y as int, z as int)),
{
    PartDef::default().size(2 * x, 2 * z, 2 * y)
}

fn cylinder_part(x: i64, y: i64, z: i64) -> (part: PartDef)
    ensures
        part@ == cylinder(x as int, y as int, z as int),
{
    let part = placed_part("Part", 0, 0, 0, CoordinateFrame::rz(1)).size(x, y, z).property(
        "Shape",
        PropertyValue::Enum(SHAPE_CYLINDER),
    );
    on_its_side_part(part, SURFACE_STUDS)
}

fn side_wedge_part(x: i64, y: i64, z: i64, right: u32) -> (part: PartDef)
    requires
        0 <= x <= u32::MAX,
        0 <= y <= u32::MAX,
        0 <= z <= u32::MAX,
    ensures
        part@ == side_wedge(Vec3::new(x as int, y as int, z as int), right),
{
    let part = placed_part("WedgePart", 0, 0, 0, CoordinateFrame::rz(1)).size(2 * z, 2 * x, 2 * y);
    on_its_side_part(part, right)
}

fn ramp_end_part(x: i64, y: i64, z: i64) -> (part: PartDef)
    requires
        0 <= x <= u32::MAX,
        0 <= y <= u32::MAX,
        0 <= z <= u32::MAX,
    ensures
        part@ == ramp_end(Vec3::new(x as int, y as int, z as int)),
{
    placed_part("Part", x - HALF_RAMP_END, 0, 0, CoordinateFrame::default()).size(
        RAMP_END,
        2 * z,
        2 * y,
    )
}

fn ramp_slope_part(x: i64, y: i64, z: i64) -> (part: PartDef)
    requires
        0 <= x <= u32::MAX,
        0 <= y <= u32::MAX,
        0 <= z <= u32::MAX,
    ensures
        part@ == ramp_slope(Vec3::new(x as int, y as int, z as int)),
{
    placed_part("WedgePart", -HALF_RAMP_END, HALF_INSET, 0, CoordinateFrame::ry(1)).size(
        2 * y,
        2 * z - INSET,
        2 * x - RAMP_END,
    )
}

fn ramp_plate_part(x: i64, y: i64, z: i64) -> (part: PartDef)
    requires
        0 <= x <= u32::MAX,
        0 <= y <= u32::MAX,
        0 <= z <= u32::MAX,
    ensures
        part@ == ramp_plate(Vec3::new(x as int, y as int, z as int)),
{
    placed_part("Part", -HALF_RAMP_END, -z + HALF_INSET, 0, CoordinateFrame::default()).size(
        2 * x - RAMP_END,
        INSET,
        2 * y,
    )
}

fn inverted_slope_part(x: i64, y: i64, z: i64) -> (part: PartDef)
    requires
        0 <= x <= u32::MAX,
        0 <= y <= u32::MAX,
        0 <= z <= u32::MAX,
    ensures
        part@ == inverted_slope(Vec3::new(x as int, y as int, z as int)),
{
    let turn = turned(CoordinateFrame::rx(2), CoordinateFrame::ry(1));
    placed_part("WedgePart", -HALF_RAMP_END, -HALF_INSET, 0, turn).size(
        2 * y,
        2 * z - INSET,
        2 * x - RAMP_END,
    )
}

fn inverted_plate_part(x: i64, y: i64, z: i64) -> (part: PartDef)
    requires
        0 <= x <= u32::MAX,
        0 <= y <= u32::MAX,
        0 <= z <= u32::MAX,
    ensures
        part@ == inverted_plate(Vec3::new(x as int, y as int, z as int)),
{
    placed_part("Part", -HALF_RAMP_END, z - HALF_INSET, 0, CoordinateFrame::default()).size(
        2 * x - RAMP_END,
        INSET,
        2 * y,
    )
}

fn wedge_slope_part(x: i64, y: i64, z: i64) -> (part: PartDef)
    requires
        0 <= x <= u32::MAX,
        0 <= y <= u32::MAX,
        0 <= z <= u32::MAX,
    ensures
        part@ == wedge_slope(Vec3::new(x as int, y as int, z as int)),
{
    placed_part("WedgePart", 0, HALF_INSET, 0, CoordinateFrame::ry(1)).size(
        2 * y,
        2 * z - INSET,
        2 * x,
    )
}

fn wedge_plate_part(x: i64, y: i64, z: i64) -> (part: PartDef)
    requires
        0 <= x <= u32::MAX,
        0 <= y <= u32::MAX,
        0 <= z <= u32::MAX,
    ensures
        part@ == wedge_plate(Vec3::new(x as int, y as int, z as int)),
{
    placed_part("Part", 0, -z + HALF_INSET, 0, CoordinateFrame::ry(1)).size(2 * y, INSET, 2 * x)
}

fn micro_wedge_part(x: i64, y: i64, z: i64) -> (part: PartDef)
    requires
        0 <= x <= u32::MAX,
        0 <= y <= u32::MAX,
        0 <= z <= u32::MAX,
    ensures
        part@ == micro_wedge(Vec3::new(x as int, y as int, z as int)),
{
    let tipped = turned(CoordinateFrame::rz(1), CoordinateFrame::rx(-1));
    let turn = turned(tipped, CoordinateFrame::ry(2));
    smooth_bottom_part(placed_part("WedgePart", 0, 0, 0, turn).size(2 * z, 2 * y, 2 * x))
}

fn corner_turned_part(x: i64, y: i64, z: i64) -> (part: PartDef)
    requires
        0 <= x <= u32::MAX,
        0 <= y <= u32::MAX,
        0 <= z <= u32::MAX,
    ensures
        part@ == corner_turned(Vec3::new(x as int, y as int, z as int)),
{
    smooth_bottom_part(
        placed_part("WedgePart", 0, 0, 0, CoordinateFrame::ry(1)).size(2 * x, 2 * z, 2 * y),
    )
}

fn corner_straight_part(x: i64, y: i64, z: i64) -> (part: PartDef)
    requires
        0 <= x <= u32::MAX,
        0 <= y <= u32::MAX,
        0 <= z <= u32::MAX,
    ensures
        part@ == corner_straight(Vec3::new(x as int, y as int, z as int)),
{
    smooth_bottom_part(
        placed_part("WedgePart", 0, 0, 0, CoordinateFrame::default()).size(2 * y, 2 * z, 2 * x),
    )
}

/// The part definitions of a brick of shape `shape` and size `size`, in the
/// order of the rule.
pub fn parts_of(shape: Shape, size: Size) -> (parts: Vec<PartDef>)
    ensures
        views(parts@) == shape_parts(shape, size.half_extents()),
{
    let (x, y, z): (i64, i64, i64) = match size {
        Size::Empty => (0, 0, 0),
        Size::Procedural(x, y, z) => (x as i64, y as i64, z as i64),
    };
    let parts = match shape {
        Shape::Brick => vec![cuboid_part(x, y, z)],
        Shape::Tile => vec![smooth_top_part(cuboid_part(x, y, z))],
        Shape::Ramp => vec![
            ramp_end_part(x, y, z),
            ramp_slope_part(x, y, z),
            ramp_plate_part(x, y, z),
        ],
        Shape::RampInverted => vec![
            ramp_end_part(x, y, z),
            inverted_slope_part(x, y, z),
            inverted_plate_part(x, y, z),
        ],
        Shape::Wedge => vec![wedge_slope_part(x, y, z), wedge_plate_part(x, y, z)],
        Shape::SideWedge => vec![side_wedge_part(x, y, z, SURFACE_STUDS)],
        Shape::SideWedgeTile => vec![side_wedge_part(x, y, z, SURFACE_SMOOTH)],
        Shape::MicroBrick => vec![smooth_bottom_part(smooth_top_part(cuboid_part(x, y, z)))],
        Shape::MicroWedge => vec![micro_wedge_part(x, y, z)],
        Shape::MicroWedgeInnerCorner => vec![
            corner_turned_part(x, y, z),
            corner_straight_part(x, y, z),
        ],
        Shape::Round2x2 => vec![cylinder_part(12, 20, 20)],
        Shape::Round2x2Flat => vec![cylinder_part(4, 20, 20)],
        Shape::Round1x1 => vec![cylinder_part(12, 10, 10)],
        Shape::Cone1x1 => vec![cylinder_part(12, 10, 10)],
        Shape::Round1x1Flat => vec![cylinder_part(12, 10, 10)],
    };
    assert(views(parts@) =~= shape_parts(shape, size.half_extents()));
    parts
}

} // verus!
