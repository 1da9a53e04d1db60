use savage_core::items::{Color, Item};

#[test]
fn a_bare_item_supports_no_facet() {
    let item = Item::new();
    assert!(!item.is_named());
    assert!(!item.is_colored());
    assert!(!item.is_readable());
    assert!(!item.has_look());
    assert!(!item.is_wearable());
}

#[test]
fn facets_are_independent() {
    let item = Item::new()
        .with_name("gravestone".to_string())
        .with_text("Rest in peace".to_string());
    assert!(item.is_named());
    assert!(item.is_readable());
    assert!(!item.is_colored());
    assert!(!item.is_wearable());
    assert_eq!(item.name(), "gravestone");
    assert_eq!(item.read(), "Rest in peace");
}

#[test]
fn color_and_look_facets_round_trip() {
    let lime = Color { r: 0, g: 255, b: 0, a: 255 };
    let item = Item::new()
        .with_color(lime)
        .with_look("shovel".to_string())
        .with_wearable();
    assert_eq!(item.color(), lime);
    assert_eq!(item.looks_like(), "shovel");
    assert!(item.is_wearable());
}
