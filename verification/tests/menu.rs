use keyglance::menu::{
    checked_setting, layout_checks, layout_choices, layout_menu_id, parse_menu_id, toggle_launch_at_login,
    LaunchAction, MenuCommand,
};

#[test]
fn layout_choices_in_menu_order() {
    assert_eq!(
        layout_choices(),
        vec![
            ("qwerty", "QWERTY"),
            ("azerty", "AZERTY"),
            ("qwertz", "QWERTZ"),
            ("dvorak", "Dvorak"),
            ("colemak", "Colemak"),
            ("colemak-dh", "Colemak-DH"),
        ]
    );
}

#[test]
fn layout_item_ids_read_back_as_their_layout() {
    for (id, _) in layout_choices() {
        let menu_id = layout_menu_id(id);
        assert_eq!(menu_id, format!("layout-{}", id));
        assert_eq!(parse_menu_id(&menu_id), MenuCommand::SelectLayout(id.to_string()));
    }
    assert_eq!(parse_menu_id("layout-"), MenuCommand::SelectLayout(String::new()));
    assert_eq!(parse_menu_id("layout-quit"), MenuCommand::SelectLayout("quit".to_string()));
}

#[test]
fn fixed_item_ids() {
    assert_eq!(parse_menu_id("matrix-layout"), MenuCommand::ToggleMatrixLayout);
    assert_eq!(parse_menu_id("show-numbers"), MenuCommand::ToggleShowNumbers);
    assert_eq!(parse_menu_id("thumb-keys"), MenuCommand::ShowThumbKeys);
    assert_eq!(parse_menu_id("follow-input"), MenuCommand::ToggleFollowInput);
    assert_eq!(parse_menu_id("hide-dock-icon"), MenuCommand::ToggleHideDockIcon);
    assert_eq!(parse_menu_id("dismiss"), MenuCommand::Dismiss);
    assert_eq!(parse_menu_id("launch-at-login"), MenuCommand::ToggleLaunchAtLogin);
    assert_eq!(parse_menu_id("quit"), MenuCommand::Quit);
}

#[test]
fn unknown_item_ids_are_ignored() {
    assert_eq!(parse_menu_id(""), MenuCommand::Ignore);
    assert_eq!(parse_menu_id("layout"), MenuCommand::Ignore);
    assert_eq!(parse_menu_id("Quit"), MenuCommand::Ignore);
    assert_eq!(parse_menu_id("quit "), MenuCommand::Ignore);
}

#[test]
fn exactly_the_selected_layout_is_checked() {
    assert_eq!(layout_checks("dvorak"), vec![false, false, false, true, false, false]);
    assert_eq!(layout_checks("colemak"), vec![false, false, false, false, true, false]);
    assert_eq!(layout_checks("colemak-dh"), vec![false, false, false, false, false, true]);
    assert_eq!(layout_checks("workman"), vec![false; 6]);
}

#[test]
fn launch_at_login_flips() {
    assert_eq!(toggle_launch_at_login(Some(true)), LaunchAction::Disable);
    assert_eq!(toggle_launch_at_login(Some(false)), LaunchAction::Enable);
    assert_eq!(toggle_launch_at_login(None), LaunchAction::Enable);
}

#[test]
fn checkable_items_save_their_setting() {
    assert_eq!(checked_setting(&MenuCommand::ToggleMatrixLayout, Some(false)), Some(("matrix_layout", false)));
    assert_eq!(checked_setting(&MenuCommand::ToggleMatrixLayout, None), Some(("matrix_layout", true)));
    assert_eq!(checked_setting(&MenuCommand::ToggleShowNumbers, Some(true)), Some(("show_numbers", true)));
    assert_eq!(checked_setting(&MenuCommand::ToggleShowNumbers, None), Some(("show_numbers", false)));
    assert_eq!(checked_setting(&MenuCommand::Quit, Some(true)), None);
}
