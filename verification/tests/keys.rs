use keyglance::keys::{is_modifier, keycode_to_name};

#[test]
fn letters_follow_qwerty_positions() {
    assert_eq!(keycode_to_name(0), "A");
    assert_eq!(keycode_to_name(1), "S");
    assert_eq!(keycode_to_name(4), "H");
    assert_eq!(keycode_to_name(5), "G");
    assert_eq!(keycode_to_name(12), "Q");
    assert_eq!(keycode_to_name(46), "M");
}

#[test]
fn digits_and_punctuation() {
    assert_eq!(keycode_to_name(18), "1");
    assert_eq!(keycode_to_name(29), "0");
    assert_eq!(keycode_to_name(42), "\\");
    assert_eq!(keycode_to_name(39), "'");
    assert_eq!(keycode_to_name(50), "`");
    assert_eq!(keycode_to_name(49), " ");
}

#[test]
fn editing_navigation_and_function_keys() {
    assert_eq!(keycode_to_name(36), "Enter");
    assert_eq!(keycode_to_name(51), "Backspace");
    assert_eq!(keycode_to_name(53), "Escape");
    assert_eq!(keycode_to_name(126), "ArrowUp");
    assert_eq!(keycode_to_name(124), "ArrowRight");
    assert_eq!(keycode_to_name(117), "Delete");
    assert_eq!(keycode_to_name(122), "F1");
    assert_eq!(keycode_to_name(111), "F12");
}

#[test]
fn left_and_right_modifiers_share_names() {
    assert_eq!(keycode_to_name(54), "Meta");
    assert_eq!(keycode_to_name(55), "Meta");
    assert_eq!(keycode_to_name(56), "Shift");
    assert_eq!(keycode_to_name(60), "Shift");
    assert_eq!(keycode_to_name(59), "Control");
    assert_eq!(keycode_to_name(62), "Control");
    assert_eq!(keycode_to_name(58), "Alt");
    assert_eq!(keycode_to_name(61), "Alt");
    assert_eq!(keycode_to_name(57), "CapsLock");
    assert_eq!(keycode_to_name(63), "Fn");
}

#[test]
fn unknown_codes_carry_their_number() {
    assert_eq!(keycode_to_name(10), "Unknown(10)");
    assert_eq!(keycode_to_name(52), "Unknown(52)");
    assert_eq!(keycode_to_name(64), "Unknown(64)");
    assert_eq!(keycode_to_name(200), "Unknown(200)");
    assert_eq!(keycode_to_name(1000), "Unknown(1000)");
    assert_eq!(keycode_to_name(65535), "Unknown(65535)");
}

#[test]
fn modifier_codes_are_exactly_54_to_63() {
    assert!(!is_modifier(53));
    for code in 54u16..=63 {
        assert!(is_modifier(code));
    }
    assert!(!is_modifier(64));
    assert!(!is_modifier(0));
    assert!(!is_modifier(65535));
}

#[test]
fn names_identify_keys_up_to_modifier_sides() {
    let names: Vec<String> = (0u16..=300).map(keycode_to_name).collect();
    for a in 0..names.len() {
        for b in 0..names.len() {
            if a != b && names[a] == names[b] {
                let pair = (a.min(b), a.max(b));
                assert!(
                    pair == (54, 55) || pair == (56, 60) || pair == (59, 62) || pair == (58, 61),
                    "codes {} and {} share a name",
                    a,
                    b
                );
            }
        }
    }
}

#[test]
fn modifier_names_belong_to_modifier_codes() {
    let modifier_names = ["Meta", "Shift", "Control", "Alt", "CapsLock", "Fn"];
    for code in 0u16..=300 {
        let name = keycode_to_name(code);
        assert_eq!(is_modifier(code), modifier_names.contains(&name.as_str()), "code {}", code);
    }
}
