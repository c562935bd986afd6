use bevy_2dviewangle::angle::Angle;
use bevy_2dviewangle::registry::ActorSpriteSheets;
use bevy_2dviewangle::resolve::{get_opposite_view, ACTION_ANY, ACTOR_ANY};
use bevy_2dviewangle::sheet::{AngleSpriteSheets, ImageId, LayoutId, SpriteSheet};

fn sheet(image: Option<u64>, layout: Option<u64>) -> SpriteSheet {
    SpriteSheet { image: image.map(ImageId), layout: layout.map(LayoutId) }
}

fn with_one(actor: u64, action: u64, angle: Angle, image: u64) -> ActorSpriteSheets {
    let mut sheets = ActorSpriteSheets::new();
    sheets.register_entry(actor, action, angle, Some(ImageId(image)), None);
    sheets
}

#[test]
fn any_ids_are_zero() {
    assert_eq!(ACTOR_ANY, 0);
    assert_eq!(ACTION_ANY, 0);
}

#[test]
fn mirror_symmetry_left_right() {
    let sheets = with_one(1, 2, Angle::Left, 7);
    assert_eq!(sheets.resolve(1, 2, Angle::Right), Some((sheet(Some(7), None), true)));
    assert_eq!(sheets.resolve(1, 2, Angle::Left), Some((sheet(Some(7), None), false)));
    let sheets = with_one(1, 2, Angle::Right, 8);
    assert_eq!(sheets.resolve(1, 2, Angle::Left), Some((sheet(Some(8), None), true)));
    assert_eq!(sheets.resolve(1, 2, Angle::Right), Some((sheet(Some(8), None), false)));
}

#[test]
fn mirror_symmetry_front_left_front_right() {
    let sheets = with_one(1, 2, Angle::FrontLeft, 7);
    assert_eq!(sheets.resolve(1, 2, Angle::FrontRight), Some((sheet(Some(7), None), true)));
    assert_eq!(sheets.resolve(1, 2, Angle::FrontLeft), Some((sheet(Some(7), None), false)));
    let sheets = with_one(1, 2, Angle::FrontRight, 8);
    assert_eq!(sheets.resolve(1, 2, Angle::FrontLeft), Some((sheet(Some(8), None), true)));
    assert_eq!(sheets.resolve(1, 2, Angle::FrontRight), Some((sheet(Some(8), None), false)));
}

#[test]
fn mirror_symmetry_back_left_back_right() {
    let sheets = with_one(1, 2, Angle::BackLeft, 7);
    assert_eq!(sheets.resolve(1, 2, Angle::BackRight), Some((sheet(Some(7), None), true)));
    assert_eq!(sheets.resolve(1, 2, Angle::BackLeft), Some((sheet(Some(7), None), false)));
    let sheets = with_one(1, 2, Angle::BackRight, 8);
    assert_eq!(sheets.resolve(1, 2, Angle::BackLeft), Some((sheet(Some(8), None), true)));
    assert_eq!(sheets.resolve(1, 2, Angle::BackRight), Some((sheet(Some(8), None), false)));
}

#[test]
fn both_sides_registered_means_no_mirroring() {
    let mut sheets = with_one(1, 2, Angle::Left, 7);
    sheets.register_entry(1, 2, Angle::Right, Some(ImageId(8)), None);
    assert_eq!(sheets.resolve(1, 2, Angle::Left), Some((sheet(Some(7), None), false)));
    assert_eq!(sheets.resolve(1, 2, Angle::Right), Some((sheet(Some(8), None), false)));
}

#[test]
fn front_and_back_have_no_mirror_fallback() {
    let sheets = with_one(1, 2, Angle::Front, 7);
    assert_eq!(sheets.resolve(1, 2, Angle::Back), None);
    let sheets = with_one(1, 2, Angle::Back, 7);
    assert_eq!(sheets.resolve(1, 2, Angle::Front), None);
    let sheets = with_one(1, 2, Angle::Left, 7);
    assert_eq!(sheets.resolve(1, 2, Angle::Front), None);
    assert_eq!(sheets.resolve(1, 2, Angle::FrontRight), None);
}

#[test]
fn any_angle_is_the_last_fallback_in_a_table() {
    let mut sheets = ActorSpriteSheets::new();
    sheets.insert(
        1,
        2,
        AngleSpriteSheets::from(vec![
            (Angle::Any, sheet(Some(1), None)),
            (Angle::Left, sheet(Some(2), None)),
        ]),
    );
    assert_eq!(sheets.resolve(1, 2, Angle::Front), Some((sheet(Some(1), None), false)));
    assert_eq!(sheets.resolve(1, 2, Angle::Right), Some((sheet(Some(2), None), true)));
    assert_eq!(sheets.resolve(1, 2, Angle::BackLeft), Some((sheet(Some(1), None), false)));
    assert_eq!(sheets.resolve(1, 2, Angle::Any), Some((sheet(Some(1), None), false)));
}

#[test]
fn asking_for_any_without_an_any_sheet_finds_nothing() {
    let sheets = with_one(1, 2, Angle::Left, 7);
    assert_eq!(sheets.resolve(1, 2, Angle::Any), None);
}

#[test]
fn unavailable_when_nothing_is_registered() {
    let sheets = ActorSpriteSheets::new();
    assert_eq!(sheets.resolve(1, 2, Angle::Front), None);
    let sheets = with_one(3, 2, Angle::Front, 7);
    assert_eq!(sheets.resolve(1, 2, Angle::Front), None);
    assert_eq!(sheets.resolve(3, 1, Angle::Front), None);
}

#[test]
fn tiers_are_asked_in_order() {
    let mut sheets = ActorSpriteSheets::new();
    sheets.register_entry(0, 0, Angle::Front, Some(ImageId(1)), None);
    assert_eq!(sheets.resolve(5, 6, Angle::Front), Some((sheet(Some(1), None), false)));
    sheets.register_entry(0, 6, Angle::Front, Some(ImageId(2)), None);
    assert_eq!(sheets.resolve(5, 6, Angle::Front), Some((sheet(Some(2), None), false)));
    sheets.register_entry(5, 0, Angle::Front, Some(ImageId(3)), None);
    assert_eq!(sheets.resolve(5, 6, Angle::Front), Some((sheet(Some(3), None), false)));
    sheets.register_entry(5, 6, Angle::Front, Some(ImageId(4)), None);
    assert_eq!(sheets.resolve(5, 6, Angle::Front), Some((sheet(Some(4), None), false)));
    assert_eq!(sheets.resolve(5, 7, Angle::Front), Some((sheet(Some(3), None), false)));
    assert_eq!(sheets.resolve(9, 6, Angle::Front), Some((sheet(Some(2), None), false)));
    assert_eq!(sheets.resolve(9, 7, Angle::Front), Some((sheet(Some(1), None), false)));
}

#[test]
fn a_tier_that_offers_nothing_is_passed_over() {
    let mut sheets = ActorSpriteSheets::new();
    sheets.register_entry(5, 6, Angle::Back, Some(ImageId(1)), None);
    sheets.register_entry(5, 0, Angle::Right, Some(ImageId(2)), None);
    sheets.register_entry(0, 0, Angle::Any, Some(ImageId(3)), None);
    assert_eq!(sheets.resolve(5, 6, Angle::Left), Some((sheet(Some(2), None), true)));
    assert_eq!(sheets.resolve(5, 6, Angle::Front), Some((sheet(Some(3), None), false)));
    assert_eq!(sheets.resolve(5, 6, Angle::Back), Some((sheet(Some(1), None), false)));
}

#[test]
fn mirror_in_an_earlier_tier_beats_the_angle_in_a_later_one() {
    let mut sheets = ActorSpriteSheets::new();
    sheets.register_entry(5, 6, Angle::Right, Some(ImageId(1)), None);
    sheets.register_entry(0, 0, Angle::Left, Some(ImageId(2)), None);
    assert_eq!(sheets.resolve(5, 6, Angle::Left), Some((sheet(Some(1), None), true)));
}

#[test]
fn resolve_tier_asks_one_table_only() {
    let mut sheets = ActorSpriteSheets::new();
    sheets.register_entry(0, 0, Angle::Front, Some(ImageId(1)), None);
    assert_eq!(sheets.resolve_tier(5, 6, Angle::Front), None);
    assert_eq!(sheets.resolve_tier(0, 0, Angle::Front), Some((sheet(Some(1), None), false)));
}

#[test]
fn table_resolve_prefers_own_then_mirror_then_any() {
    let table = AngleSpriteSheets::from(vec![
        (Angle::Any, sheet(Some(1), None)),
        (Angle::BackLeft, sheet(Some(2), None)),
        (Angle::BackRight, sheet(Some(3), None)),
        (Angle::FrontLeft, sheet(Some(4), None)),
    ]);
    assert_eq!(table.resolve(Angle::BackLeft), Some((sheet(Some(2), None), false)));
    assert_eq!(table.resolve(Angle::BackRight), Some((sheet(Some(3), None), false)));
    assert_eq!(table.resolve(Angle::FrontRight), Some((sheet(Some(4), None), true)));
    assert_eq!(table.resolve(Angle::Left), Some((sheet(Some(1), None), false)));
    assert_eq!(AngleSpriteSheets::new().resolve(Angle::Left), None);
}

#[test]
fn opposite_view_of_each_angle() {
    let table = AngleSpriteSheets::from(vec![
        (Angle::Any, sheet(Some(0), None)),
        (Angle::Front, sheet(Some(1), None)),
        (Angle::Back, sheet(Some(2), None)),
        (Angle::Left, sheet(Some(3), None)),
        (Angle::Right, sheet(Some(4), None)),
        (Angle::FrontLeft, sheet(Some(5), None)),
        (Angle::FrontRight, sheet(Some(6), None)),
        (Angle::BackLeft, sheet(Some(7), None)),
        (Angle::BackRight, sheet(Some(8), None)),
    ]);
    assert_eq!(get_opposite_view(&table, Angle::Left), Some(&sheet(Some(4), None)));
    assert_eq!(get_opposite_view(&table, Angle::Right), Some(&sheet(Some(3), None)));
    assert_eq!(get_opposite_view(&table, Angle::FrontLeft), Some(&sheet(Some(6), None)));
    assert_eq!(get_opposite_view(&table, Angle::FrontRight), Some(&sheet(Some(5), None)));
    assert_eq!(get_opposite_view(&table, Angle::BackLeft), Some(&sheet(Some(8), None)));
    assert_eq!(get_opposite_view(&table, Angle::BackRight), Some(&sheet(Some(7), None)));
    assert_eq!(get_opposite_view(&table, Angle::Front), None);
    assert_eq!(get_opposite_view(&table, Angle::Back), None);
    assert_eq!(get_opposite_view(&table, Angle::Any), None);
    assert_eq!(get_opposite_view(&AngleSpriteSheets::new(), Angle::Left), None);
}
