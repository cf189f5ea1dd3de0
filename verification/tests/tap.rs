use keyglance::tap::{KeyEvent, KeyTracker, FLAGS_CHANGED, KEY_DOWN, KEY_UP};

fn press(s: &str) -> Option<KeyEvent> {
    Some(KeyEvent::Press(s.to_string()))
}

fn release(s: &str) -> Option<KeyEvent> {
    Some(KeyEvent::Release(s.to_string()))
}

#[test]
fn key_down_and_up_report_press_and_release() {
    let mut t = KeyTracker::new();
    assert_eq!(t.tap_callback(KEY_DOWN, 0, 0), press("A"));
    assert_eq!(t.tap_callback(KEY_UP, 0, 0), release("A"));
    assert_eq!(t.tap_callback(KEY_DOWN, 300, 77), press("Unknown(300)"));
    assert_eq!(t.last_flags(), 0);
}

#[test]
fn modifier_flags_rising_is_a_press_and_falling_a_release() {
    let mut t = KeyTracker::new();
    assert_eq!(t.tap_callback(FLAGS_CHANGED, 56, 0x20102), press("Shift"));
    assert_eq!(t.last_flags(), 0x20102);
    assert_eq!(t.tap_callback(FLAGS_CHANGED, 55, 0x120102), press("Meta"));
    assert_eq!(t.tap_callback(FLAGS_CHANGED, 55, 0x20102), release("Meta"));
    assert_eq!(t.tap_callback(FLAGS_CHANGED, 56, 0x100), release("Shift"));
    assert_eq!(t.last_flags(), 0x100);
}

#[test]
fn same_flags_event_twice_is_a_release() {
    let mut t = KeyTracker::new();
    assert_eq!(t.tap_callback(FLAGS_CHANGED, 58, 0x80120), press("Alt"));
    assert_eq!(t.tap_callback(FLAGS_CHANGED, 58, 0x80120), release("Alt"));
}

#[test]
fn flags_of_non_modifier_keys_are_ignored() {
    let mut t = KeyTracker::new();
    assert_eq!(t.tap_callback(FLAGS_CHANGED, 0, 500), None);
    assert_eq!(t.tap_callback(FLAGS_CHANGED, 64, 500), None);
    assert_eq!(t.last_flags(), 0);
}

#[test]
fn other_event_types_are_ignored() {
    let mut t = KeyTracker::new();
    assert_eq!(t.tap_callback(1, 0, 9), None);
    assert_eq!(t.tap_callback(22, 56, 9), None);
    assert_eq!(t.tap_callback(0xFFFF_FFFE, 56, 9), None);
    assert_eq!(t.last_flags(), 0);
}

#[test]
fn key_events_leave_the_flags_alone() {
    let mut t = KeyTracker::new();
    t.tap_callback(FLAGS_CHANGED, 59, 40);
    t.tap_callback(KEY_DOWN, 59, 1000);
    t.tap_callback(KEY_UP, 59, 1000);
    assert_eq!(t.last_flags(), 40);
    assert_eq!(t.tap_callback(FLAGS_CHANGED, 62, 41), press("Control"));
}

#[test]
fn key_code_field_is_truncated_to_16_bits() {
    let mut t = KeyTracker::new();
    assert_eq!(t.tap_callback(KEY_DOWN, 65536 + 12, 0), press("Q"));
    assert_eq!(t.tap_callback(FLAGS_CHANGED, 0x10000 + 57, 1), press("CapsLock"));
    assert_eq!(t.tap_callback(KEY_DOWN, -1, 0), press("Unknown(65535)"));
}

use keyglance::tap::{reads_flags, reads_key_code};

#[test]
fn only_used_fields_are_read() {
    assert!(reads_key_code(KEY_DOWN));
    assert!(reads_key_code(KEY_UP));
    assert!(reads_key_code(FLAGS_CHANGED));
    assert!(!reads_key_code(0xFFFF_FFFE));
    assert!(!reads_key_code(1));
    assert!(reads_flags(FLAGS_CHANGED, 56));
    assert!(!reads_flags(FLAGS_CHANGED, 0));
    assert!(!reads_flags(KEY_DOWN, 56));
    assert!(reads_flags(FLAGS_CHANGED, 0x10000 + 63));
}

#[test]
fn remembered_flags_are_those_of_the_last_modifier_event() {
    let events: Vec<(u32, i64, u64)> = vec![
        (KEY_DOWN, 0, 7),
        (FLAGS_CHANGED, 56, 0x20102),
        (KEY_UP, 0, 9),
        (FLAGS_CHANGED, 0, 11),
        (FLAGS_CHANGED, 59, 0x40101),
        (1, 59, 13),
        (FLAGS_CHANGED, 200, 15),
    ];
    let mut t = KeyTracker::new();
    let mut expected = 0u64;
    for (event_type, field, flags) in events {
        t.tap_callback(event_type, field, flags);
        if event_type == FLAGS_CHANGED && (54..=63).contains(&(field as u16)) {
            expected = flags;
        }
        assert_eq!(t.last_flags(), expected);
    }
    assert_eq!(t.last_flags(), 0x40101);
}
