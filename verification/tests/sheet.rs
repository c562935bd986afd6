use bevy_2dviewangle::angle::Angle;
use bevy_2dviewangle::sheet::{AngleSpriteSheets, ImageId, LayoutId, SpriteSheet};

fn sheet(image: Option<u64>, layout: Option<u64>) -> SpriteSheet {
    SpriteSheet { image: image.map(ImageId), layout: layout.map(LayoutId) }
}

#[test]
fn default_sheet_is_empty() {
    assert_eq!(SpriteSheet::default(), sheet(None, None));
}

#[test]
fn filled_from_fills_only_what_is_absent() {
    let source = sheet(Some(9), Some(8));
    assert_eq!(sheet(None, None).filled_from(&source), sheet(Some(9), Some(8)));
    assert_eq!(sheet(Some(1), None).filled_from(&source), sheet(Some(1), Some(8)));
    assert_eq!(sheet(None, Some(2)).filled_from(&source), sheet(Some(9), Some(2)));
    assert_eq!(sheet(Some(1), Some(2)).filled_from(&source), sheet(Some(1), Some(2)));
    assert_eq!(sheet(Some(1), None).filled_from(&sheet(None, None)), sheet(Some(1), None));
}

#[test]
fn new_table_is_empty() {
    let table = AngleSpriteSheets::new();
    assert_eq!(table.get(Angle::Front), None);
    assert_eq!(table.get(Angle::Any), None);
    assert!(!table.contains_key(Angle::Left));
    assert_eq!(table, AngleSpriteSheets::default());
}

#[test]
fn insert_returns_the_previous_sheet() {
    let mut table = AngleSpriteSheets::new();
    assert_eq!(table.insert(Angle::Left, sheet(Some(1), None)), None);
    assert_eq!(table.insert(Angle::Left, sheet(Some(2), None)), Some(sheet(Some(1), None)));
    assert_eq!(table.get(Angle::Left), Some(&sheet(Some(2), None)));
    assert_eq!(table.get(Angle::Right), None);
    assert!(table.contains_key(Angle::Left));
}

#[test]
fn from_keeps_every_angle() {
    let table = AngleSpriteSheets::from(vec![
        (Angle::Front, sheet(Some(1), Some(10))),
        (Angle::Back, sheet(Some(2), None)),
        (Angle::BackRight, sheet(None, Some(30))),
    ]);
    assert_eq!(table.get(Angle::Front), Some(&sheet(Some(1), Some(10))));
    assert_eq!(table.get(Angle::Back), Some(&sheet(Some(2), None)));
    assert_eq!(table.get(Angle::BackRight), Some(&sheet(None, Some(30))));
    assert_eq!(table.get(Angle::Left), None);
}

#[test]
fn from_lets_the_last_pair_win() {
    let table = AngleSpriteSheets::from(vec![
        (Angle::Front, sheet(Some(1), None)),
        (Angle::Back, sheet(Some(2), None)),
        (Angle::Front, sheet(Some(3), Some(4))),
    ]);
    assert_eq!(table.get(Angle::Front), Some(&sheet(Some(3), Some(4))));
    assert_eq!(table.get(Angle::Back), Some(&sheet(Some(2), None)));
}

#[test]
fn from_empty_list_is_empty_table() {
    assert_eq!(AngleSpriteSheets::from(Vec::new()), AngleSpriteSheets::new());
}

#[test]
fn merge_creates_the_sheet() {
    let mut table = AngleSpriteSheets::new();
    table.merge(Angle::Front, Some(ImageId(1)), None);
    assert_eq!(table.get(Angle::Front), Some(&sheet(Some(1), None)));
    table.merge(Angle::Back, None, None);
    assert_eq!(table.get(Angle::Back), Some(&sheet(None, None)));
}

#[test]
fn merge_keeps_what_the_entry_leaves_out() {
    let mut table = AngleSpriteSheets::new();
    table.merge(Angle::Front, Some(ImageId(1)), None);
    table.merge(Angle::Front, None, Some(LayoutId(7)));
    assert_eq!(table.get(Angle::Front), Some(&sheet(Some(1), Some(7))));
    table.merge(Angle::Front, Some(ImageId(2)), None);
    assert_eq!(table.get(Angle::Front), Some(&sheet(Some(2), Some(7))));
}

#[test]
fn merge_inherits_from_any() {
    let mut table = AngleSpriteSheets::new();
    table.merge(Angle::Any, Some(ImageId(5)), Some(LayoutId(6)));
    table.merge(Angle::Left, None, None);
    assert_eq!(table.get(Angle::Left), Some(&sheet(Some(5), Some(6))));
    table.merge(Angle::Right, Some(ImageId(1)), None);
    assert_eq!(table.get(Angle::Right), Some(&sheet(Some(1), Some(6))));
}

#[test]
fn merge_inherits_over_an_older_value() {
    let mut table = AngleSpriteSheets::new();
    table.merge(Angle::Front, Some(ImageId(1)), None);
    table.merge(Angle::Any, Some(ImageId(2)), None);
    assert_eq!(table.get(Angle::Front), Some(&sheet(Some(1), None)));
    table.merge(Angle::Front, None, Some(LayoutId(3)));
    assert_eq!(table.get(Angle::Front), Some(&sheet(Some(2), Some(3))));
}

#[test]
fn merge_without_image_in_any_keeps_the_image() {
    let mut table = AngleSpriteSheets::new();
    table.merge(Angle::Front, Some(ImageId(1)), None);
    table.merge(Angle::Any, None, Some(LayoutId(9)));
    table.merge(Angle::Front, None, Some(LayoutId(3)));
    assert_eq!(table.get(Angle::Front), Some(&sheet(Some(1), Some(3))));
}

#[test]
fn merge_of_any_fills_the_gaps_of_all() {
    let mut table = AngleSpriteSheets::new();
    table.merge(Angle::Front, Some(ImageId(1)), None);
    table.merge(Angle::Back, None, Some(LayoutId(2)));
    table.merge(Angle::Left, None, None);
    table.merge(Angle::Any, Some(ImageId(8)), Some(LayoutId(9)));
    assert_eq!(table.get(Angle::Front), Some(&sheet(Some(1), Some(9))));
    assert_eq!(table.get(Angle::Back), Some(&sheet(Some(8), Some(2))));
    assert_eq!(table.get(Angle::Left), Some(&sheet(Some(8), Some(9))));
    assert_eq!(table.get(Angle::Any), Some(&sheet(Some(8), Some(9))));
    assert_eq!(table.get(Angle::Right), None);
}

#[test]
fn fill_gaps_touches_no_present_part() {
    let mut table = AngleSpriteSheets::from(vec![
        (Angle::Front, sheet(Some(1), Some(2))),
        (Angle::BackRight, sheet(None, None)),
    ]);
    table.fill_gaps(&sheet(Some(7), None));
    assert_eq!(table.get(Angle::Front), Some(&sheet(Some(1), Some(2))));
    assert_eq!(table.get(Angle::BackRight), Some(&sheet(Some(7), None)));
    assert_eq!(table.get(Angle::Any), None);
}
