use keyglance::text_input::{
    text_input_role_step, text_input_selected_text_step, text_input_value_step, TextInputStep, AX_SUCCESS,
};

#[test]
fn terminals_are_rejected() {
    assert_eq!(text_input_role_step("AXTextArea", "AXTerminalArea"), TextInputStep::Done(false));
    assert_eq!(text_input_role_step("AXTerminalArea", ""), TextInputStep::Done(false));
}

#[test]
fn text_roles_are_accepted() {
    for role in ["AXTextField", "AXTextArea", "AXComboBox", "AXSearchField"] {
        assert_eq!(text_input_role_step(role, ""), TextInputStep::Done(true));
        assert_eq!(text_input_role_step(role, "AXSecureTextField"), TextInputStep::Done(true));
    }
}

#[test]
fn structural_roles_are_rejected() {
    for role in [
        "AXScrollArea", "AXTable", "AXList", "AXOutline", "AXSplitGroup", "AXTabGroup", "AXToolbar",
        "AXMenuBar", "AXMenu", "AXMenuItem", "AXWindow", "AXApplication", "AXImage", "AXButton",
        "AXRadioButton", "AXCheckBox", "AXSlider", "AXProgressIndicator", "AXBrowser", "AXSplitter",
    ] {
        assert_eq!(text_input_role_step(role, ""), TextInputStep::Done(false), "{}", role);
    }
}

#[test]
fn other_roles_are_probed() {
    assert_eq!(text_input_role_step("AXGroup", ""), TextInputStep::ProbeValueSettable);
    assert_eq!(text_input_role_step("AXWebArea", "AXContentEditable"), TextInputStep::ProbeValueSettable);
    assert_eq!(text_input_role_step("", ""), TextInputStep::ProbeValueSettable);
    assert_eq!(text_input_role_step("AXTextFieldX", ""), TextInputStep::ProbeValueSettable);
}

#[test]
fn settable_value_accepts() {
    assert_eq!(text_input_value_step(AX_SUCCESS, true), TextInputStep::Done(true));
    assert_eq!(text_input_value_step(AX_SUCCESS, false), TextInputStep::ProbeSelectedText);
    assert_eq!(text_input_value_step(-25205, true), TextInputStep::ProbeSelectedText);
}

#[test]
fn readable_selected_text_accepts_non_containers() {
    assert!(text_input_selected_text_step("AXUnknown", AX_SUCCESS));
    assert!(text_input_selected_text_step("", AX_SUCCESS));
    assert!(!text_input_selected_text_step("AXGroup", AX_SUCCESS));
    assert!(!text_input_selected_text_step("AXWebArea", AX_SUCCESS));
    assert!(!text_input_selected_text_step("AXStaticText", AX_SUCCESS));
    assert!(!text_input_selected_text_step("AXUnknown", -25212));
}
