use bevy_2dviewangle::angle::{Angle, ANGLE_COUNT};

const ALL: [Angle; 9] = [
    Angle::Any,
    Angle::Front,
    Angle::Back,
    Angle::Left,
    Angle::Right,
    Angle::FrontLeft,
    Angle::FrontRight,
    Angle::BackLeft,
    Angle::BackRight,
];

#[test]
fn default_angle_is_front() {
    assert_eq!(Angle::default(), Angle::Front);
}

#[test]
fn mirror_pairs() {
    assert_eq!(Angle::Left.mirror(), Some(Angle::Right));
    assert_eq!(Angle::Right.mirror(), Some(Angle::Left));
    assert_eq!(Angle::FrontLeft.mirror(), Some(Angle::FrontRight));
    assert_eq!(Angle::FrontRight.mirror(), Some(Angle::FrontLeft));
    assert_eq!(Angle::BackLeft.mirror(), Some(Angle::BackRight));
    assert_eq!(Angle::BackRight.mirror(), Some(Angle::BackLeft));
}

#[test]
fn front_back_and_any_have_no_mirror() {
    assert_eq!(Angle::Front.mirror(), None);
    assert_eq!(Angle::Back.mirror(), None);
    assert_eq!(Angle::Any.mirror(), None);
}

#[test]
fn mirror_of_mirror_is_the_angle() {
    for angle in ALL {
        if let Some(partner) = angle.mirror() {
            assert_ne!(partner, angle);
            assert_eq!(partner.mirror(), Some(angle));
        }
    }
}

#[test]
fn codes_follow_declaration_order() {
    assert_eq!(ANGLE_COUNT, 9);
    for (i, angle) in ALL.iter().enumerate() {
        assert_eq!(angle.code() as usize, i);
        assert_eq!(Angle::from_code(i as u8), Some(*angle));
    }
}

#[test]
fn codes_from_nine_up_name_no_angle() {
    assert_eq!(Angle::from_code(9), None);
    assert_eq!(Angle::from_code(10), None);
    assert_eq!(Angle::from_code(255), None);
}

#[test]
fn lower_case_names() {
    assert_eq!(Angle::from_name("any"), Some(Angle::Any));
    assert_eq!(Angle::from_name("front"), Some(Angle::Front));
    assert_eq!(Angle::from_name("back"), Some(Angle::Back));
    assert_eq!(Angle::from_name("left"), Some(Angle::Left));
    assert_eq!(Angle::from_name("right"), Some(Angle::Right));
    assert_eq!(Angle::from_name("front_left"), Some(Angle::FrontLeft));
    assert_eq!(Angle::from_name("front_right"), Some(Angle::FrontRight));
    assert_eq!(Angle::from_name("back_left"), Some(Angle::BackLeft));
    assert_eq!(Angle::from_name("back_right"), Some(Angle::BackRight));
}

#[test]
fn lower_case_names_are_exact() {
    assert_eq!(Angle::from_name(""), None);
    assert_eq!(Angle::from_name("Front"), None);
    assert_eq!(Angle::from_name("front "), None);
    assert_eq!(Angle::from_name("frontleft"), None);
    assert_eq!(Angle::from_name("up"), None);
}

#[test]
fn variant_names() {
    assert_eq!(Angle::from_variant_name("Any"), Some(Angle::Any));
    assert_eq!(Angle::from_variant_name("Front"), Some(Angle::Front));
    assert_eq!(Angle::from_variant_name("Back"), Some(Angle::Back));
    assert_eq!(Angle::from_variant_name("Left"), Some(Angle::Left));
    assert_eq!(Angle::from_variant_name("Right"), Some(Angle::Right));
    assert_eq!(Angle::from_variant_name("FrontLeft"), Some(Angle::FrontLeft));
    assert_eq!(Angle::from_variant_name("FrontRight"), Some(Angle::FrontRight));
    assert_eq!(Angle::from_variant_name("BackLeft"), Some(Angle::BackLeft));
    assert_eq!(Angle::from_variant_name("BackRight"), Some(Angle::BackRight));
}

#[test]
fn variant_names_are_exact() {
    assert_eq!(Angle::from_variant_name(""), None);
    assert_eq!(Angle::from_variant_name("front"), None);
    assert_eq!(Angle::from_variant_name("Front_left"), None);
    assert_eq!(Angle::from_variant_name("FRONT"), None);
}
