use rbxl_brs::cframe::Vector3;
use rbxl_brs::instance::{Properties, PropertyValue};

#[test]
fn new_table_is_empty() {
    let properties = Properties::new();
    assert!(properties.entries.is_empty());
    assert_eq!(properties.get("Size"), None);
}

#[test]
fn inserted_property_is_found() {
    let mut properties = Properties::new();
    properties.insert("Anchored", PropertyValue::Bool(true));
    properties.insert("Size", PropertyValue::Vector3(Vector3 { x: 1, y: 2, z: 3 }));
    assert_eq!(properties.get("Anchored"), Some(PropertyValue::Bool(true)));
    assert_eq!(
        properties.get("Size"),
        Some(PropertyValue::Vector3(Vector3 { x: 1, y: 2, z: 3 }))
    );
    assert_eq!(properties.get("anchored"), None);
}

#[test]
fn last_write_wins() {
    let mut properties = Properties::new();
    properties.insert("TopSurface", PropertyValue::Enum(3));
    properties.insert("Shape", PropertyValue::Enum(2));
    properties.insert("TopSurface", PropertyValue::Enum(0));
    assert_eq!(properties.get("TopSurface"), Some(PropertyValue::Enum(0)));
    assert_eq!(properties.get("Shape"), Some(PropertyValue::Enum(2)));
    let names: Vec<&str> = properties.entries.iter().map(|p| p.name.as_str()).collect();
    assert_eq!(names, vec!["TopSurface", "Shape", "TopSurface"]);
}

#[test]
fn extending_overrides_what_was_there() {
    let mut base = Properties::new();
    base.insert("Transparency", PropertyValue::Number(5));
    base.insert("Anchored", PropertyValue::Bool(true));
    let mut overrides = Properties::new();
    overrides.insert("Anchored", PropertyValue::Bool(false));
    overrides.insert("Shape", PropertyValue::Enum(2));
    base.extend(&overrides);
    assert_eq!(base.get("Transparency"), Some(PropertyValue::Number(5)));
    assert_eq!(base.get("Anchored"), Some(PropertyValue::Bool(false)));
    assert_eq!(base.get("Shape"), Some(PropertyValue::Enum(2)));
    assert_eq!(overrides.get("Transparency"), None);
}
