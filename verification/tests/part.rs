use rbxl_brs::brick::{Brick, BrickColor, PointLight, SaveData, Size};
use rbxl_brs::cframe::{CoordinateFrame, Vector3};
use rbxl_brs::color::{Color, Color3};
use rbxl_brs::instance::{Instance, PropertyValue};
use rbxl_brs::orientation::{Direction, Rotation, ORIENTATION_MAP};
use rbxl_brs::part::PartDef;
use rbxl_brs::policy::{global_frame, material_of, Material, DEFAULT_BRIGHTNESS, DEFAULT_RANGE};

fn save() -> SaveData {
    SaveData {
        brick_assets: vec!["PB_DefaultBrick".to_string()],
        colors: vec![
            Color { r: 255, g: 255, b: 255, a: 255 },
            Color { r: 128, g: 0, b: 1, a: 255 },
        ],
        materials: vec![
            "BMC_Plastic".to_string(),
            "BMC_Ghost".to_string(),
            "BMC_Ghost_Fail".to_string(),
            "BMC_Glow".to_string(),
            "BMC_Metallic".to_string(),
            "BMC_Hologram".to_string(),
            "BMC_Glass".to_string(),
        ],
    }
}

fn brick() -> Brick {
    Brick {
        asset_name_index: 0,
        size: Size::Procedural(10, 10, 10),
        position: (0, 0, 0),
        direction: Direction::ZPositive,
        rotation: Rotation::Deg180,
        player_collision: true,
        visibility: true,
        material_index: 0,
        material_intensity: 5,
        color: BrickColor::Index(1),
        point_light: None,
    }
}

fn with_material(index: u32) -> Brick {
    Brick { material_index: index, ..brick() }
}

#[test]
fn blank_definition() {
    let part = PartDef::new("WedgePart");
    assert_eq!(part.class, "WedgePart");
    assert_eq!(part.offset, CoordinateFrame::default());
    assert_eq!(part.size, Vector3 { x: 0, y: 0, z: 0 });
    assert_eq!(part.color, None);
    assert_eq!(part.rotation_adjustment, 0);
    assert!(part.properties.entries.is_empty());
    assert_eq!(PartDef::default(), PartDef::new("Part"));
}

#[test]
fn builder_sets_each_field() {
    let part = PartDef::new("Part")
        .size(1, 2, 3)
        .color(Color { r: 9, g: 8, b: 7, a: 6 })
        .rotation_adjustment(3)
        .property("Shape", PropertyValue::Enum(2));
    assert_eq!(part.size, Vector3 { x: 1, y: 2, z: 3 });
    assert_eq!(part.color, Some(Color { r: 9, g: 8, b: 7, a: 6 }));
    assert_eq!(part.rotation_adjustment, 3);
    assert_eq!(part.properties.get("Shape"), Some(PropertyValue::Enum(2)));
    assert_eq!(part.offset, CoordinateFrame::default());
    assert_eq!(part.class, "Part");
}

#[test]
fn later_property_overrides_earlier() {
    let part = PartDef::new("Part")
        .property("TopSurface", PropertyValue::Enum(3))
        .property("TopSurface", PropertyValue::Enum(0));
    assert_eq!(part.properties.get("TopSurface"), Some(PropertyValue::Enum(0)));
}

#[test]
fn offsets_accumulate_in_the_local_frame() {
    let part = PartDef::new("Part").offset(10, 0, 0).cf(CoordinateFrame::rz(1)).offset(10, 0, 0);
    // After the quarter turn about Z the local first axis points along the
    // second axis of the starting frame.
    assert_eq!(part.offset.position(), Vector3 { x: 10, y: 10, z: 0 });
    assert_eq!(part.offset.rotation_matrix(), CoordinateFrame::rz(1).rotation_matrix());
    let other = PartDef::new("Part").cf(CoordinateFrame::rz(1)).offset(10, 0, 0).offset(10, 0, 0);
    assert_eq!(other.offset.position(), Vector3 { x: 0, y: 20, z: 0 });
    assert_eq!(
        part.offset,
        CoordinateFrame::new(10, 0, 0) * CoordinateFrame::rz(1) * CoordinateFrame::new(10, 0, 0)
    );
}

#[test]
fn material_names() {
    assert_eq!(material_of("BMC_Ghost"), Material::Phantom);
    assert_eq!(material_of("BMC_Ghost_Fail"), Material::Phantom);
    assert_eq!(material_of("BMC_Glow"), Material::Glow);
    assert_eq!(material_of("BMC_Metallic"), Material::Metallic);
    assert_eq!(material_of("BMC_Hologram"), Material::Hologram);
    assert_eq!(material_of("BMC_Glass"), Material::Glass);
    assert_eq!(material_of("BMC_Plastic"), Material::Plain);
    assert_eq!(material_of("bmc_glass"), Material::Plain);
    assert_eq!(material_of(""), Material::Plain);
}

#[test]
fn plain_brick_resolves_to_size_frame_colour_and_anchor() {
    let part = PartDef::new("Part").size(20, 20, 20);
    let instance = part.to_instance(&save(), &brick());
    assert_eq!(instance.class, "Part");
    assert!(instance.children.is_empty());
    assert_eq!(
        instance.properties.get("Size"),
        Some(PropertyValue::Vector3(Vector3 { x: 20, y: 20, z: 20 }))
    );
    assert_eq!(
        instance.properties.get("CFrame"),
        Some(PropertyValue::CFrame(CoordinateFrame::default()))
    );
    assert_eq!(
        instance.properties.get("Color"),
        Some(PropertyValue::Color3(Color3 { r: 736_646_942, g: 0, b: 49_840_090 }))
    );
    assert_eq!(instance.properties.get("Anchored"), Some(PropertyValue::Bool(true)));
    assert_eq!(instance.properties.get("Material"), None);
    assert_eq!(instance.properties.get("Transparency"), None);
    assert_eq!(instance.properties.get("CanCollide"), None);
    assert_eq!(instance.properties.entries.len(), 4);
}

#[test]
fn frame_is_placement_then_local_offset() {
    let placed = Brick {
        position: (10, 20, 30),
        direction: Direction::ZPositive,
        rotation: Rotation::Deg0,
        ..brick()
    };
    let instance = PartDef::new("Part").offset(1, 2, 3).to_instance(&save(), &placed);
    // The orientation of an upright, unturned brick reverses the first and
    // the third axis; the brick stands at its grid position with the
    // second and third coordinates exchanged.
    assert_eq!(
        instance.properties.get("CFrame"),
        Some(PropertyValue::CFrame(CoordinateFrame::from_rotation(
            9,
            32,
            17,
            [-1, 0, 0, 0, 1, 0, 0, 0, -1]
        )))
    );
    assert_eq!(
        global_frame(&placed, 0),
        CoordinateFrame::from_rotation(10, 30, 20, [-1, 0, 0, 0, 1, 0, 0, 0, -1])
    );
}

#[test]
fn rotation_adjustment_picks_another_entry() {
    let turned = Brick { direction: Direction::XNegative, rotation: Rotation::Deg270, ..brick() };
    for adjustment in 0u8..8 {
        let instance =
            PartDef::new("Part").rotation_adjustment(adjustment).to_instance(&save(), &turned);
        let index = 4 + (3 + usize::from(adjustment)) % 4;
        assert_eq!(
            instance.properties.get("CFrame"),
            Some(PropertyValue::CFrame(CoordinateFrame::from_rotation(
                0,
                0,
                0,
                ORIENTATION_MAP[index]
            )))
        );
    }
}

#[test]
fn colour_comes_from_override_then_brick() {
    let own = Brick { color: BrickColor::Unique(Color { r: 0, g: 255, b: 0, a: 0 }), ..brick() };
    let instance = PartDef::new("Part").to_instance(&save(), &own);
    assert_eq!(
        instance.properties.get("Color"),
        Some(PropertyValue::Color3(Color3 { r: 0, g: 1_000_000_000, b: 0 }))
    );
    let indexed = Brick { color: BrickColor::Index(0), ..brick() };
    let instance = PartDef::new("Part").to_instance(&save(), &indexed);
    assert_eq!(
        instance.properties.get("Color"),
        Some(PropertyValue::Color3(Color3 {
            r: 1_000_000_000,
            g: 1_000_000_000,
            b: 1_000_000_000
        }))
    );
    let missing = Brick { color: BrickColor::Index(77), ..brick() };
    let part = PartDef::new("Part").color(Color { r: 1, g: 1, b: 255, a: 255 });
    assert!(part.can_resolve(&save(), &missing));
    let instance = part.to_instance(&save(), &missing);
    assert_eq!(
        instance.properties.get("Color"),
        Some(PropertyValue::Color3(Color3 { r: 49_840_090, g: 49_840_090, b: 1_000_000_000 }))
    );
}

#[test]
fn ghost_materials_glow_half_transparent() {
    for index in [1u32, 2] {
        let instance = PartDef::new("Part").to_instance(&save(), &with_material(index));
        assert_eq!(instance.properties.get("Material"), Some(PropertyValue::Enum(288)));
        assert_eq!(instance.properties.get("Transparency"), Some(PropertyValue::Double(5)));
    }
}

#[test]
fn glow_metallic_and_hologram_set_a_material() {
    let expected = [(3u32, 288u32), (4, 1088), (5, 1584)];
    for (index, material) in expected {
        let instance = PartDef::new("Part").to_instance(&save(), &with_material(index));
        assert_eq!(instance.properties.get("Material"), Some(PropertyValue::Enum(material)));
        assert_eq!(instance.properties.get("Transparency"), None);
    }
}

#[test]
fn glass_is_as_transparent_as_its_intensity_is_low() {
    let glass = |intensity: u32| Brick { material_intensity: intensity, ..with_material(6) };
    let cases = [(0u32, 10i64), (3, 7), (10, 0), (25, -15), (u32::MAX, 10 - 4_294_967_295)];
    for (intensity, transparency) in cases {
        let instance = PartDef::new("Part").to_instance(&save(), &glass(intensity));
        assert_eq!(
            instance.properties.get("Transparency"),
            Some(PropertyValue::Number(transparency))
        );
        assert_eq!(instance.properties.get("Material"), None);
    }
}

#[test]
fn invisible_brick_is_fully_transparent() {
    for index in 0u32..7 {
        let hidden = Brick { visibility: false, ..with_material(index) };
        let instance = PartDef::new("Part").to_instance(&save(), &hidden);
        assert_eq!(instance.properties.get("Transparency"), Some(PropertyValue::Number(10)));
        assert_eq!(instance.properties.get("Material"), None);
    }
    let unnamed = Brick { visibility: false, material_index: 1000, ..brick() };
    assert!(PartDef::new("Part").can_resolve(&save(), &unnamed));
    let instance = PartDef::new("Part").to_instance(&save(), &unnamed);
    assert_eq!(instance.properties.get("Transparency"), Some(PropertyValue::Number(10)));
}

#[test]
fn collision_flag_only_switches_collisions_off() {
    let passable = Brick { player_collision: false, ..brick() };
    let instance = PartDef::new("Part").to_instance(&save(), &passable);
    assert_eq!(instance.properties.get("CanCollide"), Some(PropertyValue::Bool(false)));
    let solid = PartDef::new("Part").to_instance(&save(), &brick());
    assert_eq!(solid.properties.get("CanCollide"), None);
}

#[test]
fn every_primitive_is_anchored() {
    for index in 0u32..7 {
        for visibility in [false, true] {
            for player_collision in [false, true] {
                let any = Brick { visibility, player_collision, ..with_material(index) };
                let instance = PartDef::new("WedgePart").to_instance(&save(), &any);
                assert_eq!(instance.properties.get("Anchored"), Some(PropertyValue::Bool(true)));
            }
        }
    }
}

#[test]
fn overrides_win_over_what_resolution_writes() {
    let hidden = Brick { visibility: false, player_collision: false, ..brick() };
    let part = PartDef::new("Part")
        .size(1, 2, 3)
        .property("Anchored", PropertyValue::Bool(false))
        .property("Transparency", PropertyValue::Number(2))
        .property("Size", PropertyValue::Vector3(Vector3 { x: 7, y: 7, z: 7 }))
        .property("TopSurface", PropertyValue::Enum(0));
    let instance = part.to_instance(&save(), &hidden);
    assert_eq!(instance.properties.get("Anchored"), Some(PropertyValue::Bool(false)));
    assert_eq!(instance.properties.get("Transparency"), Some(PropertyValue::Number(2)));
    assert_eq!(
        instance.properties.get("Size"),
        Some(PropertyValue::Vector3(Vector3 { x: 7, y: 7, z: 7 }))
    );
    assert_eq!(instance.properties.get("TopSurface"), Some(PropertyValue::Enum(0)));
    assert_eq!(instance.properties.get("CanCollide"), Some(PropertyValue::Bool(false)));
}

#[test]
fn default_light_values_are_ten_and_a_hundred() {
    assert_eq!(f32::from_bits(DEFAULT_BRIGHTNESS), 10.0);
    assert_eq!(f32::from_bits(DEFAULT_RANGE), 100.0);
}

#[test]
fn light_without_fields_takes_the_defaults() {
    let light = PointLight {
        brightness: None,
        range: None,
        cast_shadows: None,
        use_brick_color: Some(false),
        color: None,
    };
    let lit = Brick { point_light: Some(light), ..brick() };
    let instance = PartDef::new("Part").to_instance(&save(), &lit);
    assert_eq!(instance.children.len(), 1);
    let child = &instance.children[0];
    assert_eq!(child.class, "PointLight");
    assert_eq!(
        child.properties.get("Brightness"),
        Some(PropertyValue::Quotient { bits: 10.0f32.to_bits(), divisor: 10 })
    );
    assert_eq!(
        child.properties.get("Range"),
        Some(PropertyValue::Quotient { bits: 100.0f32.to_bits(), divisor: 10 })
    );
    assert_eq!(child.properties.get("Shadows"), Some(PropertyValue::Bool(false)));
    assert_eq!(
        child.properties.get("Color"),
        Some(PropertyValue::Color3(Color3 {
            r: 1_000_000_000,
            g: 1_000_000_000,
            b: 1_000_000_000
        }))
    );
    assert_eq!(child.properties.entries.len(), 4);
}

#[test]
fn light_passes_its_fields_on() {
    let light = PointLight {
        brightness: Some(35.5f32.to_bits()),
        range: Some(800.0f32.to_bits()),
        cast_shadows: Some(true),
        use_brick_color: Some(false),
        color: Some(Color { r: 0, g: 128, b: 255, a: 3 }),
    };
    let lit = Brick { point_light: Some(light), ..brick() };
    let instance = PartDef::new("Part").to_instance(&save(), &lit);
    let child = &instance.children[0];
    assert_eq!(
        child.properties.get("Brightness"),
        Some(PropertyValue::Quotient { bits: 35.5f32.to_bits(), divisor: 10 })
    );
    assert_eq!(
        child.properties.get("Range"),
        Some(PropertyValue::Quotient { bits: 800.0f32.to_bits(), divisor: 10 })
    );
    assert_eq!(child.properties.get("Shadows"), Some(PropertyValue::Bool(true)));
    assert_eq!(
        child.properties.get("Color"),
        Some(PropertyValue::Color3(Color3 { r: 0, g: 736_646_942, b: 1_000_000_000 }))
    );
}

#[test]
fn light_can_take_the_colour_of_its_primitive() {
    let light = PointLight {
        brightness: None,
        range: None,
        cast_shadows: None,
        use_brick_color: Some(true),
        color: Some(Color { r: 0, g: 128, b: 255, a: 3 }),
    };
    let lit = Brick { point_light: Some(light), ..brick() };
    let instance = PartDef::new("Part").to_instance(&save(), &lit);
    assert_eq!(
        instance.children[0].properties.get("Color"),
        Some(PropertyValue::Color3(Color3 { r: 736_646_942, g: 0, b: 49_840_090 }))
    );
    let painted = PartDef::new("Part")
        .color(Color { r: 255, g: 0, b: 0, a: 255 })
        .to_instance(&save(), &lit);
    assert_eq!(
        painted.children[0].properties.get("Color"),
        Some(PropertyValue::Color3(Color3 { r: 1_000_000_000, g: 0, b: 0 }))
    );
    assert_eq!(painted.children[0].properties.get("Color"), painted.properties.get("Color"));
}

#[test]
fn resolvable_when_tables_and_frame_allow() {
    let part = PartDef::new("Part");
    assert!(part.can_resolve(&save(), &brick()));
    let no_colour = Brick { color: BrickColor::Index(2), ..brick() };
    assert!(!part.can_resolve(&save(), &no_colour));
    let no_material = Brick { material_index: 7, ..brick() };
    assert!(!part.can_resolve(&save(), &no_material));
    let own_colour =
        Brick { color: BrickColor::Unique(Color { r: 1, g: 2, b: 3, a: 4 }), ..brick() };
    assert!(part.can_resolve(&save(), &own_colour));
    let far = PartDef::new("Part").offset(i64::MAX, 0, 0);
    assert!(far.can_resolve(&save(), &brick()));
    let away = Brick { position: (1, 0, 0), ..brick() };
    assert!(!far.can_resolve(&save(), &away));
    let back = Brick { position: (-1, 0, 0), ..brick() };
    assert!(far.can_resolve(&save(), &back));
}

#[test]
fn light_that_does_not_say_keeps_its_own_colour() {
    let silent = |color: Option<Color>| PointLight {
        brightness: None,
        range: None,
        cast_shadows: None,
        use_brick_color: None,
        color,
    };
    let own = Brick {
        point_light: Some(silent(Some(Color { r: 0, g: 128, b: 255, a: 3 }))),
        ..brick()
    };
    let instance = PartDef::new("Part").to_instance(&save(), &own);
    assert_eq!(instance.children.len(), 1);
    assert_eq!(
        instance.children[0].properties.get("Color"),
        Some(PropertyValue::Color3(Color3 { r: 0, g: 736_646_942, b: 1_000_000_000 }))
    );
    let plain = Brick { point_light: Some(silent(None)), ..brick() };
    let instance = PartDef::new("Part").to_instance(&save(), &plain);
    assert_eq!(
        instance.children[0].properties.get("Color"),
        Some(PropertyValue::Color3(Color3 {
            r: 1_000_000_000,
            g: 1_000_000_000,
            b: 1_000_000_000
        }))
    );
    assert_ne!(instance.children[0].properties.get("Color"), instance.properties.get("Color"));
    let denied = Brick {
        point_light: Some(PointLight { use_brick_color: Some(false), ..silent(None) }),
        ..brick()
    };
    assert_eq!(
        PartDef::new("Part").to_instance(&save(), &denied).children,
        instance.children
    );
}

#[test]
fn every_orientation_resolves_to_an_orthonormal_block() {
    let block = |instance: &Instance| match instance.properties.get("CFrame") {
        Some(PropertyValue::CFrame(frame)) => frame.rotation_matrix(),
        other => panic!("no frame: {:?}", other),
    };
    let directions = [
        Direction::XPositive,
        Direction::XNegative,
        Direction::YPositive,
        Direction::YNegative,
        Direction::ZPositive,
        Direction::ZNegative,
    ];
    let rotations = [Rotation::Deg0, Rotation::Deg90, Rotation::Deg180, Rotation::Deg270];
    for direction in directions {
        for rotation in rotations {
            for adjustment in 0u8..4 {
                let turned = Brick { direction, rotation, ..brick() };
                let instance = PartDef::new("Part")
                    .rotation_adjustment(adjustment)
                    .to_instance(&save(), &turned);
                let m = block(&instance);
                let columns = [
                    [i32::from(m.x.x), i32::from(m.y.x), i32::from(m.z.x)],
                    [i32::from(m.x.y), i32::from(m.y.y), i32::from(m.z.y)],
                    [i32::from(m.x.z), i32::from(m.y.z), i32::from(m.z.z)],
                ];
                for i in 0..3 {
                    for j in 0..3 {
                        let dot: i32 = (0..3).map(|k| columns[i][k] * columns[j][k]).sum();
                        assert_eq!(dot, if i == j { 1 } else { 0 });
                    }
                }
            }
        }
    }
}
