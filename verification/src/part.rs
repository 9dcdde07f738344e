//! Part definitions: what a decomposition rule says of one primitive, and how
//! it is resolved against the brick it belongs to.
//!
//! A definition gathers a local offset, a size, an optional colour, a rotation
//! adjustment and property overrides. Offsets accumulate on the right: each
//! further translation or rotation acts in the local frame that the earlier
//! ones have set up.

use crate::algebra::{lemma_compose_rigid, Affine, Mat3, Vec3};
use crate::brick::{Brick, BrickColor, SaveData};
use crate::cframe::{CoordinateFrame, Vector3};
use crate::color::Color;
use crate::instance::{Instance, Leaf, Properties, PropertyValue};
use crate::policy::{
    collision_properties, global_frame, lemma_placement_fits, lemma_placement_rigid,
    lemma_property_names, light_leaf, light_properties, placement, policy_names, rule_names,
    surface_properties, write_collision, write_surface, TRANSPARENCY_FULL,
};
use crate::shape::{
    lemma_rules_well_placed, parts_of, shape_named, shape_of, shape_parts, views,
};
use vstd::prelude::*;

verus! {

/// The stretch that a box covers along one axis, by twice its lowest and
/// twice its highest coordinate, in tenths of a world unit.
pub struct Span {
    pub low: int,
    pub high: int,
}

impl Span {
    /// The stretch of the given length around `centre`.
    pub open spec fn around(centre: int, length: int) -> Span {
        Span { low: 2 * centre - length, high: 2 * centre + length }
    }

    /// `first` and `second` lie end to end and together cover `self`, without
    /// a gap and without an overlap.
    pub open spec fn splits_into(self, first: Span, second: Span) -> bool {
        &&& self.low == first.low
        &&& first.high == second.low
        &&& second.high == self.high
    }
}

/// The length along one axis of the brick's frame of a box of size `size`,
/// where `row` is the row of the box's rotation for that axis and the
/// rotation only exchanges and reverses axes: the size along the local axis
/// that the rotation lays along this one.
pub open spec fn length_along(row: Vec3, size: Vec3) -> int {
    (if row.x != 0 {
        size.x
    } else {
        0
    }) + (if row.y != 0 {
        size.y
    } else {
        0
    }) + (if row.z != 0 {
        size.z
    } else {
        0
    })
}

/// The definition of one primitive, before it is resolved.
#[derive(Clone, Debug, PartialEq, Eq)]
pub struct PartDef {
    pub class: String,
    pub offset: CoordinateFrame,
    pub size: Vector3,
    pub color: Option<Color>,
    pub rotation_adjustment: u8,
    pub properties: Properties,
}

/// A part definition as a mathematical value.
pub struct PartView {
    pub class: Seq<char>,
    pub offset: Affine,
    pub size: Vec3,
    pub color: Option<Color>,
    pub rotation_adjustment: int,
    pub properties: Map<Seq<char>, PropertyValue>,
}

impl View for PartDef {
    type V = PartView;

    open spec fn view(&self) -> PartView {
        PartView {
            class: self.class@,
            offset: self.offset@,
            size: self.size@,
            color: self.color,
            rotation_adjustment: self.rotation_adjustment as int,
            properties: self.properties@,
        }
    }
}

impl PartView {
    /// The definition of class `class` with no offset, no size, no colour,
    /// no rotation adjustment and no property.
    pub open spec fn new(class: Seq<char>) -> PartView {
        PartView {
            class,
            offset: Affine::identity(),
            size: Vec3::zero(),
            color: None,
            rotation_adjustment: 0,
            properties: Map::empty(),
        }
    }

    /// The definition of class `class` and size `size` whose local frame is
    /// turned by `rot` and stands at `pos`.
    pub open spec fn placed(class: Seq<char>, rot: Mat3, pos: Vec3, size: Vec3) -> PartView {
        PartView {
            class,
            offset: Affine { rot, pos },
            size,
            color: None,
            rotation_adjustment: 0,
            properties: Map::empty(),
        }
    }

    /// The lengths of the primitive's box along the axes of the brick's
    /// frame.
    pub open spec fn extent(self) -> Vec3 {
        Vec3 {
            x: length_along(self.offset.rot.x, self.size),
            y: length_along(self.offset.rot.y, self.size),
            z: length_along(self.offset.rot.z, self.size),
        }
    }

    /// What the primitive's box covers along the first axis of the brick's
    /// frame.
    pub open spec fn span_x(self) -> Span {
        Span::around(self.offset.pos.x, self.extent().x)
    }

    /// What the primitive's box covers along the second axis of the brick's
    /// frame.
    pub open spec fn span_y(self) -> Span {
        Span::around(self.offset.pos.y, self.extent().y)
    }

    /// What the primitive's box covers along the third axis of the brick's
    /// frame.
    pub open spec fn span_z(self) -> Span {
        Span::around(self.offset.pos.z, self.extent().z)
    }

    /// Applies `frame` in the local frame reached so far.
    pub open spec fn cf(self, frame: Affine) -> PartView {
        PartView { offset: self.offset.compose(frame), ..self }
    }

    /// Moves by `(x, y, z)` in the local frame reached so far.
    pub open spec fn offset(self, x: int, y: int, z: int) -> PartView {
        self.cf(Affine::translation(x, y, z))
    }

    /// The same definition with the size `(x, y, z)`.
    pub open spec fn size(self, x: int, y: int, z: int) -> PartView {
        PartView { size: Vec3::new(x, y, z), ..self }
    }

    /// The same definition with a colour of its own.
    pub open spec fn color(self, color: Color) -> PartView {
        PartView { color: Some(color), ..self }
    }

    /// The same definition with the given rotation adjustment.
    pub open spec fn rotation_adjustment(self, quarter_turns: int) -> PartView {
        PartView { rotation_adjustment: quarter_turns, ..self }
    }

    /// The same definition with the property `name` set to `value`.
    pub open spec fn property(self, name: Seq<char>, value: PropertyValue) -> PartView {
        PartView { properties: self.properties.insert(name, value), ..self }
    }
}

impl PartView {
    /// The colour of the primitive: the definition's own, else the brick's.
    pub open spec fn resolved_color(self, save: SaveData, brick: Brick) -> Color {
        match self.color {
            Some(color) => color,
            None => brick.shown_color(save),
        }
    }

    /// Where the primitive stands: the brick's placement, then the local
    /// offset.
    pub open spec fn resolved_frame(self, brick: Brick) -> Affine {
        placement(brick, self.rotation_adjustment).compose(self.offset)
    }

    /// The definition can be resolved against `brick`: the brick's colour and
    /// material are in the tables of `save` where they are looked up, and a
    /// frame can hold where the primitive stands.
    pub open spec fn resolvable(self, save: SaveData, brick: Brick) -> bool {
        &&& self.color is None ==> brick.names_color(save)
        &&& brick.names_material(save)
        &&& self.resolved_frame(brick).fits()
    }

    /// The properties of the resolved primitive: size, frame and colour, what
    /// the brick's material, visibility and collision flag write, the anchor,
    /// and last the definition's own properties, which override the others.
    pub open spec fn resolved_properties(self, save: SaveData, brick: Brick) -> Map<
        Seq<char>,
        PropertyValue,
    > {
        Map::<Seq<char>, PropertyValue>::empty().insert(
            "Size"@,
            PropertyValue::Vector3(Vector3::of(self.size)),
        ).insert(
            "CFrame"@,
            PropertyValue::CFrame(CoordinateFrame::of(self.resolved_frame(brick))),
        ).insert(
            "Color"@,
            PropertyValue::Color3(self.resolved_color(save, brick).encoded()),
        ).union_prefer_right(surface_properties(brick, save)).union_prefer_right(
            collision_properties(brick),
        ).insert("Anchored"@, PropertyValue::Bool(true)).union_prefer_right(self.properties)
    }

    /// `instance` is this definition resolved against `brick`: it has the
    /// definition's class and the resolved properties, and its only child, if
    /// any, is the light that the brick carries.
    pub open spec fn resolves_to(self, save: SaveData, brick: Brick, instance: Instance) -> bool {
        &&& instance.class@ == self.class
        &&& instance.properties@ == self.resolved_properties(save, brick)
        &&& match brick.point_light {
            Some(light) => {
                &&& instance.children@.len() == 1
                &&& instance.children@[0].class@ == "PointLight"@
                &&& instance.children@[0].properties@ == light_properties(
                    light,
                    self.resolved_color(save, brick).encoded(),
                )
            },
            None => instance.children@.len() == 0,
        }
    }
}

impl Default for PartDef {
    /// The blank definition of a `Part`.
    fn default() -> (part: Self)
        ensures
            part@ == PartView::new("Part"@),
    {
        PartDef::new("Part")
    }
}

impl PartDef {
    /// The blank definition of a primitive of class `class`.
    pub fn new(class: &str) -> (part: Self)
        ensures
            part@ == PartView::new(class@),
    {
        PartDef {
            class: class.to_owned(),
            offset: CoordinateFrame::default(),
            size: Vector3 { x: 0, y: 0, z: 0 },
            color: None,
            rotation_adjustment: 0,
            properties: Properties::new(),
        }
    }

    /// Applies `cf` in the local frame reached so far.
    pub fn cf(self, cf: CoordinateFrame) -> (part: Self)
        requires
            self@.offset.compose(cf@).fits(),
        ensures
            part@ == self@.cf(cf@),
    {
        let mut part = self;
        part.offset = part.offset * cf;
        part
    }

    /// Moves by `(x, y, z)`, in tenths of a world unit, in the local frame
    /// reached so far.
    pub fn offset(self, x: i64, y: i64, z: i64) -> (part: Self)
        requires
            self@.offset.compose(Affine::translation(x as int, y as int, z as int)).fits(),
        ensures
            part@ == self@.offset(x as int, y as int, z as int),
    {
        self.cf(CoordinateFrame::new(x, y, z))
    }

    /// Sets the size, in tenths of a world unit.
    pub fn size(self, x: i64, y: i64, z: i64) -> (part: Self)
        ensures
            part@ == self@.size(x as int, y as int, z as int),
    {
        let mut part = self;
        part.size = Vector3 { x, y, z };
        part
    }

    /// Sets a colour that takes the place of the brick's own.
    pub fn color(self, color: Color) -> (part: Self)
        ensures
            part@ == self@.color(color),
    {
        let mut part = self;
        part.color = Some(color);
        part
    }

    /// Sets the quarter turns that are added to the brick's own before its
    /// orientation is looked up.
    pub fn rotation_adjustment(self, quarter_turns: u8) -> (part: Self)
        ensures
            part@ == self@.rotation_adjustment(quarter_turns as int),
    {
        let mut part = self;
        part.rotation_adjustment = quarter_turns;
        part
    }

    /// Sets a property that overrides what resolution would write under the
    /// same name.
    pub fn property(self, key: &str, value: PropertyValue) -> (part: Self)
        ensures
            part@ == self@.property(key@, value),
    {
        let mut part = self;
        part.properties.insert(key, value);
        part
    }

    /// Whether [`PartDef::to_instance`] can be called on `save` and `brick`.
    pub fn can_resolve(&self, save: &SaveData, brick: &Brick) -> (ok: bool)
        ensures
            ok == self@.resolvable(*save, *brick),
    {
        let color_found = match self.color {
            Some(_) => true,
            None => match brick.color {
                BrickColor::Index(index) => (index as usize) < save.colors.len(),
                BrickColor::Unique(_) => true,
            },
        };
        let material_found = !brick.visibility || (brick.material_index as usize)
            < save.materials.len();
        let global = global_frame(brick, self.rotation_adjustment);
        color_found && material_found && global.checked_mul(&self.offset).is_some()
    }

    /// Resolves the definition against the brick it belongs to.
    pub fn to_instance(self, save: &SaveData, brick: &Brick) -> (instance: Instance)
        requires
            self@.resolvable(*save, *brick),
        ensures
            self@.resolves_to(*save, *brick, instance),
    {
        let mut properties = Properties::new();
        properties.insert("Size", PropertyValue::Vector3(self.size));

        let global = global_frame(brick, self.rotation_adjustment);
        properties.insert("CFrame", PropertyValue::CFrame(global * self.offset));

        let color = match self.color {
            Some(color) => color,
            None => match brick.color {
                BrickColor::Index(index) => save.colors[index as usize],
                BrickColor::Unique(color) => color,
            },
        };
        let display = color.to_srgb();
        properties.insert("Color", PropertyValue::Color3(display));
        write_surface(&mut properties, brick, save);
        write_collision(&mut properties, brick);
        properties.insert("Anchored", PropertyValue::Bool(true));

        let mut children: Vec<Leaf> = Vec::new();
        match brick.point_light {
            Some(light) => {
                children.push(light_leaf(&light, display));
            },
            None => {},
        }

        properties.extend(&self.properties);
        Instance { class: self.class, properties, children }
    }

}

/// A definition that overrides nothing of what resolution writes.
pub open spec fn keeps_policy(part: PartView) -> bool {
    forall|i: int|
        0 <= i < policy_names().len() ==> !part.properties.contains_key(#[trigger] policy_names()[i])
}

/// A property of the definition overrides whatever resolution writes under
/// the same name.
pub proof fn lemma_override_wins(part: PartView, save: SaveData, brick: Brick, name: Seq<char>)
    requires
        part.properties.contains_key(name),
    ensures
        part.resolved_properties(save, brick).contains_key(name),
        part.resolved_properties(save, brick)[name] == part.properties[name],
{
}

/// The size of the resolved primitive is the definition's, where the
/// definition does not override it.
pub proof fn lemma_resolved_size(part: PartView, save: SaveData, brick: Brick)
    requires
        !part.properties.contains_key("Size"@),
    ensures
        part.resolved_properties(save, brick).contains_key("Size"@),
        part.resolved_properties(save, brick)["Size"@] == PropertyValue::Vector3(
            Vector3::of(part.size),
        ),
{
    lemma_policy_names_differ();
}

/// The frame of the resolved primitive is the brick's placement followed by
/// the local offset, where the definition does not override it.
pub proof fn lemma_resolved_frame(part: PartView, save: SaveData, brick: Brick)
    requires
        !part.properties.contains_key("CFrame"@),
    ensures
        part.resolved_properties(save, brick).contains_key("CFrame"@),
        part.resolved_properties(save, brick)["CFrame"@] == PropertyValue::CFrame(
            CoordinateFrame::of(part.resolved_frame(brick)),
        ),
{
    lemma_policy_names_differ();
}

/// A definition with a rigid local offset resolves, on any brick and with
/// any rotation adjustment, to a primitive whose frame is rigid: the columns
/// of its rotation block have unit length and are mutually orthogonal.
pub proof fn lemma_resolved_frame_rigid(
    part: PartView,
    save: SaveData,
    brick: Brick,
    instance: Instance,
)
    requires
        part.offset.is_rigid(),
        part.resolved_frame(brick).fits(),
        !part.properties.contains_key("CFrame"@),
        part.resolves_to(save, brick, instance),
    ensures
        instance.properties@.contains_key("CFrame"@),
        instance.properties@["CFrame"@] == PropertyValue::CFrame(
            CoordinateFrame::of(part.resolved_frame(brick)),
        ),
        CoordinateFrame::of(part.resolved_frame(brick))@.is_rigid(),
{
    lemma_resolved_frame(part, save, brick);
    lemma_placement_rigid(brick, part.rotation_adjustment);
    lemma_compose_rigid(placement(brick, part.rotation_adjustment), part.offset);
}

/// The seven names under which resolution writes differ from each other.
proof fn lemma_policy_names_differ()
    ensures
        "Size"@ != "CFrame"@,
        "Size"@ != "Color"@,
        "Size"@ != "Material"@,
        "Size"@ != "Transparency"@,
        "Size"@ != "CanCollide"@,
        "Size"@ != "Anchored"@,
        "CFrame"@ != "Color"@,
        "CFrame"@ != "Material"@,
        "CFrame"@ != "Transparency"@,
        "CFrame"@ != "CanCollide"@,
        "CFrame"@ != "Anchored"@,
        "Color"@ != "Material"@,
        "Color"@ != "Transparency"@,
        "Color"@ != "CanCollide"@,
        "Color"@ != "Anchored"@,
        "Material"@ != "Transparency"@,
        "Material"@ != "CanCollide"@,
        "Material"@ != "Anchored"@,
        "Transparency"@ != "CanCollide"@,
        "Transparency"@ != "Anchored"@,
        "CanCollide"@ != "Anchored"@,
{
    lemma_property_names();
    let names = policy_names() + rule_names();
    assert(names[0] == "Size"@);
    assert(names[1] == "CFrame"@);
    assert(names[2] == "Color"@);
    assert(names[3] == "Material"@);
    assert(names[4] == "Transparency"@);
    assert(names[5] == "CanCollide"@);
    assert(names[6] == "Anchored"@);
}

/// What resolution writes where the definition overrides none of it: the
/// size, the frame, the colour and the anchor always, the collision flag
/// only to switch collisions off, and the material and the transparency as
/// [`surface_properties`] gives them.
pub proof fn lemma_resolved_policy(part: PartView, save: SaveData, brick: Brick)
    requires
        keeps_policy(part),
    ensures
        ({
            let resolved = part.resolved_properties(save, brick);
            let surface = surface_properties(brick, save);
            &&& resolved.contains_key("Size"@)
            &&& resolved["Size"@] == PropertyValue::Vector3(Vector3::of(part.size))
            &&& resolved.contains_key("CFrame"@)
            &&& resolved["CFrame"@] == PropertyValue::CFrame(
                CoordinateFrame::of(part.resolved_frame(brick)),
            )
            &&& resolved.contains_key("Color"@)
            &&& resolved["Color"@] == PropertyValue::Color3(
                part.resolved_color(save, brick).encoded(),
            )
            &&& resolved.contains_key("Anchored"@)
            &&& resolved["Anchored"@] == PropertyValue::Bool(true)
            &&& resolved.contains_key("CanCollide"@) <==> !brick.player_collision
            &&& !brick.player_collision ==> resolved["CanCollide"@] == PropertyValue::Bool(false)
            &&& resolved.contains_key("Material"@) <==> surface.contains_key("Material"@)
            &&& surface.contains_key("Material"@) ==> resolved["Material"@] == surface["Material"@]
            &&& resolved.contains_key("Transparency"@) <==> surface.contains_key("Transparency"@)
            &&& surface.contains_key("Transparency"@) ==> resolved["Transparency"@]
                == surface["Transparency"@]
            &&& !brick.visibility ==> resolved["Transparency"@] == PropertyValue::Number(
                TRANSPARENCY_FULL,
            )
        }),
{
    lemma_property_names();
    let names = policy_names() + rule_names();
    assert(names[0] == policy_names()[0] && names[0] == "Size"@);
    assert(names[1] == policy_names()[1] && names[1] == "CFrame"@);
    assert(names[2] == policy_names()[2] && names[2] == "Color"@);
    assert(names[3] == policy_names()[3] && names[3] == "Material"@);
    assert(names[4] == policy_names()[4] && names[4] == "Transparency"@);
    assert(names[5] == policy_names()[5] && names[5] == "CanCollide"@);
    assert(names[6] == policy_names()[6] && names[6] == "Anchored"@);
}

/// The brick can be converted against `save`: its asset is in the table of
/// asset names and, where that asset has a rule, its colour and its material
/// are in their tables where they are looked up.
pub open spec fn convertible(brick: Brick, save: SaveData) -> bool {
    &&& brick.names_asset(save)
    &&& shape_named(brick.asset(save)) is Some ==> brick.names_color(save)
        && brick.names_material(save)
}

/// Whether [`convert_brick`] can be called on `brick` and `save`.
pub fn is_convertible(brick: &Brick, save: &SaveData) -> (ok: bool)
    ensures
        ok == convertible(*brick, *save),
{
    if brick.asset_name_index as usize >= save.brick_assets.len() {
        return false;
    }
    if shape_of(save.brick_assets[brick.asset_name_index as usize].as_str()).is_none() {
        return true;
    }
    let color_found = match brick.color {
        BrickColor::Index(index) => (index as usize) < save.colors.len(),
        BrickColor::Unique(_) => true,
    };
    let material_found = !brick.visibility || (brick.material_index as usize)
        < save.materials.len();
    color_found && material_found
}

/// Converts one brick into the primitives that stand for it, in the order of
/// its asset's rule, or into `None` where its asset has no rule.
pub fn convert_brick(brick: &Brick, save: &SaveData) -> (converted: Option<Vec<Instance>>)
    requires
        convertible(*brick, *save),
    ensures
        match shape_named(brick.asset(*save)) {
            Some(shape) => {
                &&& converted is Some
                &&& converted->0@.len() >= 1
                &&& converted->0@.len() == shape_parts(shape, brick.size.half_extents()).len()
                &&& forall|i: int|
                    0 <= i < converted->0@.len() ==> shape_parts(
                        shape,
                        brick.size.half_extents(),
                    )[i].resolves_to(*save, *brick, #[trigger] converted->0@[i])
            },
            None => converted is None,
        },
{
    let asset = save.brick_assets[brick.asset_name_index as usize].as_str();
    match shape_of(asset) {
        Some(shape) => {
            let ghost rule = shape_parts(shape, brick.size.half_extents());
            let mut parts = parts_of(shape, brick.size);
            let mut instances: Vec<Instance> = Vec::new();
            while parts.len() > 0
                invariant
                    convertible(*brick, *save),
                    shape_named(brick.asset(*save)) == Some(shape),
                    rule == shape_parts(shape, brick.size.half_extents()),
                    instances@.len() + parts@.len() == rule.len(),
                    views(parts@) == rule.skip(instances@.len() as int),
                    forall|i: int|
                        0 <= i < instances@.len() ==> rule[i].resolves_to(
                            *save,
                            *brick,
                            #[trigger] instances@[i],
                        ),
                decreases parts@.len(),
            {
                let ghost done = instances@.len() as int;
                let ghost rest = parts@;
                let part = parts.remove(0);
                proof {
                    assert(views(rest)[0] == rule[done]);
                    assert forall|k: int| 0 <= k < parts@.len() implies views(parts@)[k]
                        == rule.skip(done + 1)[k] by {
                        assert(parts@[k] == rest[k + 1]);
                        assert(views(rest)[k + 1] == rule.skip(done)[k + 1]);
                    }
                    assert(views(parts@) =~= rule.skip(done + 1));
                    lemma_rules_well_placed(shape, brick.size, done);
                    lemma_placement_fits(*brick, 0, rule[done].offset);
                }
                instances.push(part.to_instance(save, brick));
            }
            Some(instances)
        },
        None => None,
    }
}

} // verus!
