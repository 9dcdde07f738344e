use rbxl_brs::text::str_eq;

#[test]
fn equal_texts_are_equal() {
    assert!(str_eq("", ""));
    assert!(str_eq("PB_DefaultBrick", "PB_DefaultBrick"));
    assert!(str_eq("brique à tenons", "brique à tenons"));
}

#[test]
fn different_texts_differ() {
    assert!(!str_eq("PB_DefaultBrick", "PB_DefaultBrick "));
    assert!(!str_eq("PB_DefaultBrick", "PB_DefaultTrick"));
    assert!(!str_eq("", "a"));
    assert!(!str_eq("BMC_Ghost", "BMC_Ghost_Fail"));
    assert!(!str_eq("é", "e"));
}
