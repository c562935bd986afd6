use bevy_2dviewangle::ident::{capitalize_first_letter, get_act_id, replace_head, same_text};

#[test]
fn act_id_is_the_xxh3_hash_of_the_name() {
    assert_eq!(get_act_id(""), 0x2D06_8005_38D3_94C2);
    for name in ["frog", "idle", "player", "walk", "été", "日本"] {
        assert_eq!(get_act_id(name), xxhash_rust::xxh3::xxh3_64(name.as_bytes()));
    }
}

#[test]
fn act_id_is_stable_and_tells_names_apart() {
    assert_eq!(get_act_id("frog"), get_act_id("frog"));
    assert_ne!(get_act_id("frog"), get_act_id("idle"));
    assert_ne!(get_act_id("frog"), get_act_id("Frog"));
    assert_ne!(get_act_id("frog"), get_act_id("frog "));
}

#[test]
fn capitalize_ascii() {
    assert_eq!(capitalize_first_letter("frog"), "Frog");
    assert_eq!(capitalize_first_letter("idle"), "Idle");
    assert_eq!(capitalize_first_letter("front_left"), "Front_left");
    assert_eq!(capitalize_first_letter("a"), "A");
}

#[test]
fn capitalize_leaves_the_rest_alone() {
    assert_eq!(capitalize_first_letter("fROG"), "FROG");
    assert_eq!(capitalize_first_letter("Frog"), "Frog");
    assert_eq!(capitalize_first_letter("1up"), "1up");
    assert_eq!(capitalize_first_letter(" x"), " x");
}

#[test]
fn capitalize_empty_string() {
    assert_eq!(capitalize_first_letter(""), "");
}

#[test]
fn capitalize_beyond_ascii() {
    assert_eq!(capitalize_first_letter("été"), "Été");
    assert_eq!(capitalize_first_letter("ßa"), "SSa");
    assert_eq!(capitalize_first_letter("ǆx"), "Ǆx");
    assert_eq!(capitalize_first_letter("日本"), "日本");
}

#[test]
fn replace_head_swaps_the_first_character() {
    assert_eq!(replace_head(String::from("F"), "frog"), "Frog");
    assert_eq!(replace_head(String::from("SS"), "ßa"), "SSa");
    assert_eq!(replace_head(String::new(), "frog"), "rog");
    assert_eq!(replace_head(String::from("xyz"), "é"), "xyz");
    assert_eq!(replace_head(String::from("xyz"), ""), "xyz");
}

#[test]
fn same_text_compares_letter_for_letter() {
    assert!(same_text("", ""));
    assert!(same_text("actor", "actor"));
    assert!(!same_text("actor", "action"));
    assert!(!same_text("actor", "Actor"));
    assert!(!same_text("actor", "actor "));
}
