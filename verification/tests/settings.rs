use keyglance::settings::{
    load_follow_input, load_hide_dock_icon, load_layout, load_matrix_layout, load_settings, load_show_numbers,
    save_setting, save_setting_str, setting_bool, setting_str, settings_from_parse, settings_writable,
};

#[test]
fn missing_or_invalid_file_gives_defaults() {
    for text in [None, Some("not json"), Some(""), Some("{\"layout\": ")] {
        let doc = load_settings(text);
        assert!(doc.is_object());
        assert!(!load_follow_input(&doc));
        assert!(!load_hide_dock_icon(&doc));
        assert_eq!(load_layout(&doc), "colemak-dh");
        assert!(load_matrix_layout(&doc));
        assert!(!load_show_numbers(&doc));
        assert!(settings_writable(&doc));
    }
}

#[test]
fn stored_values_are_read() {
    let doc = load_settings(Some(
        r#"{"follow_input": true, "hide_dock_icon": true, "layout": "dvorak", "matrix_layout": false, "show_numbers": true}"#,
    ));
    assert!(load_follow_input(&doc));
    assert!(load_hide_dock_icon(&doc));
    assert_eq!(load_layout(&doc), "dvorak");
    assert!(!load_matrix_layout(&doc));
    assert!(load_show_numbers(&doc));
}

#[test]
fn values_of_the_wrong_kind_read_as_defaults() {
    let doc = load_settings(Some(r#"{"follow_input": "true", "layout": 3, "matrix_layout": null}"#));
    assert!(!load_follow_input(&doc));
    assert_eq!(load_layout(&doc), "colemak-dh");
    assert!(load_matrix_layout(&doc));
}

#[test]
fn non_object_documents_read_as_defaults() {
    for text in ["[true]", "7", "\"follow_input\"", "true"] {
        let doc = load_settings(Some(text));
        assert!(!load_follow_input(&doc));
        assert!(load_matrix_layout(&doc));
        assert_eq!(load_layout(&doc), "colemak-dh");
        assert!(!settings_writable(&doc));
    }
    let null = load_settings(Some("null"));
    assert!(null.is_null());
    assert!(settings_writable(&null));
    assert!(load_matrix_layout(&null));
}

#[test]
fn saved_bool_is_read_back_and_others_kept() {
    let mut doc = load_settings(Some(r#"{"layout": "qwerty", "show_numbers": true, "extra": [1, 2]}"#));
    let text = save_setting(&mut doc, "follow_input", true);
    assert!(load_follow_input(&doc));
    assert_eq!(load_layout(&doc), "qwerty");
    assert!(load_show_numbers(&doc));
    let reread = load_settings(Some(&text));
    assert!(load_follow_input(&reread));
    assert_eq!(load_layout(&reread), "qwerty");
    assert!(load_show_numbers(&reread));
    assert_eq!(reread["extra"].to_string(), "[1,2]");
    let text = save_setting(&mut doc, "follow_input", false);
    assert!(!load_follow_input(&doc));
    assert!(!load_follow_input(&load_settings(Some(&text))));
}

#[test]
fn saved_string_is_read_back() {
    let mut doc = load_settings(None);
    let text = save_setting_str(&mut doc, "layout", "azerty");
    assert_eq!(load_layout(&doc), "azerty");
    assert_eq!(text, r#"{"layout":"azerty"}"#);
    let text = save_setting_str(&mut doc, "layout", "we\"ird\\");
    assert_eq!(load_layout(&load_settings(Some(&text))), "we\"ird\\");
}

#[test]
fn saving_into_null_makes_an_object() {
    let mut doc = load_settings(Some("null"));
    let text = save_setting(&mut doc, "matrix_layout", false);
    assert!(doc.is_object());
    assert_eq!(text, r#"{"matrix_layout":false}"#);
    assert!(!load_matrix_layout(&doc));
}

#[test]
fn generic_readers_use_the_given_default() {
    let doc = load_settings(Some(r#"{"a": false, "b": "x"}"#));
    assert!(!setting_bool(&doc, "a", true));
    assert!(setting_bool(&doc, "b", true));
    assert!(setting_bool(&doc, "c", true));
    assert_eq!(setting_str(&doc, "b", "d"), "x");
    assert_eq!(setting_str(&doc, "a", "d"), "d");
    assert_eq!(setting_str(&doc, "c", "d"), "d");
}

#[test]
fn saving_keeps_other_members_exactly() {
    let text = r#"{"nested":{"a":[1,2.5,{"b":null}]},"n":-3,"s":"x"}"#;
    let mut doc = load_settings(Some(text));
    let before = doc.clone();
    let saved = save_setting(&mut doc, "show_numbers", true);
    assert_eq!(doc["nested"], before["nested"]);
    assert_eq!(doc["n"], before["n"]);
    assert_eq!(doc["s"], before["s"]);
    let reread = load_settings(Some(&saved));
    assert_eq!(reread, doc);
    assert!(load_show_numbers(&reread));
}

#[test]
fn load_save_save_reload_reads_both_settings() {
    let mut doc = load_settings(None);
    save_setting(&mut doc, "follow_input", true);
    let text = save_setting_str(&mut doc, "layout", "qwerty");
    let reread = load_settings(Some(&text));
    assert!(load_follow_input(&reread));
    assert_eq!(load_layout(&reread), "qwerty");
}

#[test]
fn settings_from_parse_falls_back_to_an_empty_object() {
    let empty = settings_from_parse(None);
    assert_eq!(empty.to_string(), "{}");
    let parsed: serde_json::Value = serde_json::from_str("[1]").unwrap();
    assert_eq!(settings_from_parse(Some(parsed.clone())), parsed);
}
