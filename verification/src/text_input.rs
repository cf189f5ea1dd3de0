//! Deciding whether a focused accessibility element is an editable text
//! input.
//!
//! The role and subrole decide most elements at once. For other roles
//! (typically web content) two probes follow, each only when the previous
//! step left the question open: whether the element's value is settable,
//! then whether its selected text can be read.
use vstd::prelude::*;
use crate::text::str_eq;

verus! {

/// The accessibility API's success code.
pub const AX_SUCCESS: i32 = 0;

/// Roles that are text inputs.
pub open spec fn is_text_role(role: Seq<char>) -> bool {
    ||| role == "AXTextField"@
    ||| role == "AXTextArea"@
    ||| role == "AXComboBox"@
    ||| role == "AXSearchField"@
}

/// Structural and non-editable roles (containers, window chrome, controls).
pub open spec fn is_structural_role(role: Seq<char>) -> bool {
    ||| role == "AXScrollArea"@
    ||| role == "AXTable"@
    ||| role == "AXList"@
    ||| role == "AXOutline"@
    ||| role == "AXSplitGroup"@
    ||| role == "AXTabGroup"@
    ||| role == "AXToolbar"@
    ||| role == "AXMenuBar"@
    ||| role == "AXMenu"@
    ||| role == "AXMenuItem"@
    ||| role == "AXWindow"@
    ||| role == "AXApplication"@
    ||| role == "AXImage"@
    ||| role == "AXButton"@
    ||| role == "AXRadioButton"@
    ||| role == "AXCheckBox"@
    ||| role == "AXSlider"@
    ||| role == "AXProgressIndicator"@
    ||| role == "AXBrowser"@
    ||| role == "AXSplitter"@
}

/// Container roles whose readable selected text does not make them inputs.
pub open spec fn is_container_role(role: Seq<char>) -> bool {
    ||| role == "AXGroup"@
    ||| role == "AXWebArea"@
    ||| role == "AXStaticText"@
}

/// Terminals are never treated as text inputs.
pub open spec fn is_terminal(role: Seq<char>, subrole: Seq<char>) -> bool {
    subrole == "AXTerminalArea"@ || role == "AXTerminalArea"@
}

/// The next step of the check.
#[derive(Debug, Clone, Copy, PartialEq, Eq)]
pub enum TextInputStep {
    /// The check is over with this answer.
    Done(bool),
    /// Ask whether the element's value attribute is settable.
    ProbeValueSettable,
    /// Ask whether the element's selected text can be read.
    ProbeSelectedText,
}

/// The whole decision, given the role, the subrole, the outcome of the
/// settable-value probe and that of the selected-text probe.
pub open spec fn text_input_decision(role: Seq<char>, subrole: Seq<char>, value_settable: bool, selected_text_readable: bool) -> bool {
    if is_terminal(role, subrole) {
        false
    } else if is_text_role(role) {
        true
    } else if is_structural_role(role) {
        false
    } else if value_settable {
        true
    } else {
        selected_text_readable && !is_container_role(role)
    }
}

/// The first step, decided by the role and subrole (missing attributes are
/// empty strings): terminals are rejected, text roles accepted, structural
/// roles rejected; any other role goes on to the settable-value probe.
pub fn text_input_role_step(role: &str, subrole: &str) -> (step: TextInputStep)
    ensures
        step == (if is_terminal(role@, subrole@) {
            TextInputStep::Done(false)
        } else if is_text_role(role@) {
            TextInputStep::Done(true)
        } else if is_structural_role(role@) {
            TextInputStep::Done(false)
        } else {
            TextInputStep::ProbeValueSettable
        }),
{
    if str_eq(subrole, "AXTerminalArea") || str_eq(role, "AXTerminalArea") {
        return TextInputStep::Done(false);
    }
    if str_eq(role, "AXTextField") || str_eq(role, "AXTextArea") || str_eq(role, "AXComboBox")
        || str_eq(role, "AXSearchField") {
        return TextInputStep::Done(true);
    }
    if str_eq(role, "AXScrollArea") || str_eq(role, "AXTable") || str_eq(role, "AXList")
        || str_eq(role, "AXOutline") || str_eq(role, "AXSplitGroup") || str_eq(role, "AXTabGroup")
        || str_eq(role, "AXToolbar") || str_eq(role, "AXMenuBar") || str_eq(role, "AXMenu")
        || str_eq(role, "AXMenuItem") || str_eq(role, "AXWindow") || str_eq(role, "AXApplication")
        || str_eq(role, "AXImage") || str_eq(role, "AXButton") || str_eq(role, "AXRadioButton")
        || str_eq(role, "AXCheckBox") || str_eq(role, "AXSlider")
        || str_eq(role, "AXProgressIndicator") || str_eq(role, "AXBrowser")
        || str_eq(role, "AXSplitter") {
        return TextInputStep::Done(false);
    }
    TextInputStep::ProbeValueSettable
}

/// The step after the settable-value probe, given the error code the probe
/// returned and the flag it wrote: a successful probe that found the value
/// settable accepts the element; otherwise the selected-text probe follows.
pub fn text_input_value_step(error: i32, settable: bool) -> (step: TextInputStep)
    ensures
        step == (if error == AX_SUCCESS && settable {
            TextInputStep::Done(true)
        } else {
            TextInputStep::ProbeSelectedText
        }),
{
    if error == AX_SUCCESS && settable {
        TextInputStep::Done(true)
    } else {
        TextInputStep::ProbeSelectedText
    }
}

/// The answer after the selected-text probe, given the role and the probe's
/// error code: the selected text being readable accepts every role but the
/// container roles.
pub fn text_input_selected_text_step(role: &str, error: i32) -> (accept: bool)
    ensures
        accept == (error == AX_SUCCESS && !is_container_role(role@)),
{
    if error == AX_SUCCESS {
        if !str_eq(role, "AXGroup") && !str_eq(role, "AXWebArea") && !str_eq(role, "AXStaticText") {
            return true;
        }
    }
    false
}

/// The three steps, run in order with the probe outcomes, give the whole
/// decision; a probe is asked for only when the previous step left the
/// question open.
pub proof fn lemma_steps_compose(role: Seq<char>, subrole: Seq<char>, value_error: i32, settable: bool, selected_error: i32)
    ensures
        ({
            let first = if is_terminal(role, subrole) {
                TextInputStep::Done(false)
            } else if is_text_role(role) {
                TextInputStep::Done(true)
            } else if is_structural_role(role) {
                TextInputStep::Done(false)
            } else {
                TextInputStep::ProbeValueSettable
            };
            let second = if value_error == AX_SUCCESS && settable {
                TextInputStep::Done(true)
            } else {
                TextInputStep::ProbeSelectedText
            };
            let third = selected_error == AX_SUCCESS && !is_container_role(role);
            let answer = match first {
                TextInputStep::Done(b) => b,
                _ => match second {
                    TextInputStep::Done(b) => b,
                    _ => third,
                },
            };
            answer == text_input_decision(role, subrole, value_error == AX_SUCCESS && settable, selected_error == AX_SUCCESS)
        }),
{
}

/// Terminals are never text inputs, whatever the probes say; the text roles
/// always are (unless the subrole marks a terminal).
pub proof fn lemma_role_overrides_probes(role: Seq<char>, subrole: Seq<char>, value_settable: bool, selected_text_readable: bool)
    ensures
        is_terminal(role, subrole) ==> !text_input_decision(role, subrole, value_settable, selected_text_readable),
        !is_terminal(role, subrole) && is_text_role(role) ==> text_input_decision(role, subrole, value_settable, selected_text_readable),
        !is_terminal(role, subrole) && is_structural_role(role) && !is_text_role(role)
            ==> !text_input_decision(role, subrole, value_settable, selected_text_readable),
{
}

/// The roles accepted by their role alone are exactly AXTextField,
/// AXTextArea, AXComboBox and AXSearchField.
pub proof fn lemma_text_roles_are_the_four(role: Seq<char>)
    ensures
        is_text_role(role) <==> (role == "AXTextField"@ || role == "AXTextArea"@ || role == "AXComboBox"@ || role
            == "AXSearchField"@),
{
}

/// A container (AXGroup, AXWebArea, AXStaticText) whose value is not
/// settable is never judged a text input, whatever its selected text, and
/// the role step leaves it to the probes.
pub proof fn lemma_containers_need_settable_value(role: Seq<char>, subrole: Seq<char>, selected_text_readable: bool)
    ensures
        (role == "AXGroup"@ || role == "AXWebArea"@ || role == "AXStaticText"@) ==> !text_input_decision(
            role,
            subrole,
            false,
            selected_text_readable,
        ),
        (role == "AXGroup"@ || role == "AXWebArea"@ || role == "AXStaticText"@) && !is_terminal(role, subrole)
            ==> !is_text_role(role) && !is_structural_role(role),
{
    reveal_strlit("AXGroup");
    reveal_strlit("AXWebArea");
    reveal_strlit("AXStaticText");
    reveal_strlit("AXTextField");
    reveal_strlit("AXTextArea");
    reveal_strlit("AXComboBox");
    reveal_strlit("AXSearchField");
    reveal_strlit("AXTerminalArea");
    reveal_strlit("AXScrollArea");
    reveal_strlit("AXTable");
    reveal_strlit("AXList");
    reveal_strlit("AXOutline");
    reveal_strlit("AXSplitGroup");
    reveal_strlit("AXTabGroup");
    reveal_strlit("AXToolbar");
    reveal_strlit("AXMenuBar");
    reveal_strlit("AXMenu");
    reveal_strlit("AXMenuItem");
    reveal_strlit("AXWindow");
    reveal_strlit("AXApplication");
    reveal_strlit("AXImage");
    reveal_strlit("AXButton");
    reveal_strlit("AXRadioButton");
    reveal_strlit("AXCheckBox");
    reveal_strlit("AXSlider");
    reveal_strlit("AXProgressIndicator");
    reveal_strlit("AXBrowser");
    reveal_strlit("AXSplitter");
    assert("AXGroup"@.len() != "AXTextField"@.len());
    assert("AXGroup"@.len() != "AXTextArea"@.len());
    assert("AXGroup"@.len() != "AXComboBox"@.len());
    assert("AXGroup"@.len() != "AXSearchField"@.len());
    assert("AXGroup"@.len() != "AXScrollArea"@.len());
    assert("AXGroup"@[2] != "AXTable"@[2]);
    assert("AXGroup"@.len() != "AXList"@.len());
    assert("AXGroup"@.len() != "AXOutline"@.len());
    assert("AXGroup"@.len() != "AXSplitGroup"@.len());
    assert("AXGroup"@.len() != "AXTabGroup"@.len());
    assert("AXGroup"@.len() != "AXToolbar"@.len());
    assert("AXGroup"@.len() != "AXMenuBar"@.len());
    assert("AXGroup"@.len() != "AXMenu"@.len());
    assert("AXGroup"@.len() != "AXMenuItem"@.len());
    assert("AXGroup"@.len() != "AXWindow"@.len());
    assert("AXGroup"@.len() != "AXApplication"@.len());
    assert("AXGroup"@[2] != "AXImage"@[2]);
    assert("AXGroup"@.len() != "AXButton"@.len());
    assert("AXGroup"@.len() != "AXRadioButton"@.len());
    assert("AXGroup"@.len() != "AXCheckBox"@.len());
    assert("AXGroup"@.len() != "AXSlider"@.len());
    assert("AXGroup"@.len() != "AXProgressIndicator"@.len());
    assert("AXGroup"@.len() != "AXBrowser"@.len());
    assert("AXGroup"@.len() != "AXSplitter"@.len());
    assert("AXWebArea"@.len() != "AXTextField"@.len());
    assert("AXWebArea"@.len() != "AXTextArea"@.len());
    assert("AXWebArea"@.len() != "AXComboBox"@.len());
    assert("AXWebArea"@.len() != "AXSearchField"@.len());
    assert("AXWebArea"@.len() != "AXScrollArea"@.len());
    assert("AXWebArea"@.len() != "AXTable"@.len());
    assert("AXWebArea"@.len() != "AXList"@.len());
    assert("AXWebArea"@[2] != "AXOutline"@[2]);
    assert("AXWebArea"@.len() != "AXSplitGroup"@.len());
    assert("AXWebArea"@.len() != "AXTabGroup"@.len());
    assert("AXWebArea"@[2] != "AXToolbar"@[2]);
    assert("AXWebArea"@[2] != "AXMenuBar"@[2]);
    assert("AXWebArea"@.len() != "AXMenu"@.len());
    assert("AXWebArea"@.len() != "AXMenuItem"@.len());
    assert("AXWebArea"@.len() != "AXWindow"@.len());
    assert("AXWebArea"@.len() != "AXApplication"@.len());
    assert("AXWebArea"@.len() != "AXImage"@.len());
    assert("AXWebArea"@.len() != "AXButton"@.len());
    assert("AXWebArea"@.len() != "AXRadioButton"@.len());
    assert("AXWebArea"@.len() != "AXCheckBox"@.len());
    assert("AXWebArea"@.len() != "AXSlider"@.len());
    assert("AXWebArea"@.len() != "AXProgressIndicator"@.len());
    assert("AXWebArea"@[2] != "AXBrowser"@[2]);
    assert("AXWebArea"@.len() != "AXSplitter"@.len());
    assert("AXStaticText"@.len() != "AXTextField"@.len());
    assert("AXStaticText"@.len() != "AXTextArea"@.len());
    assert("AXStaticText"@.len() != "AXComboBox"@.len());
    assert("AXStaticText"@.len() != "AXSearchField"@.len());
    assert("AXStaticText"@[3] != "AXScrollArea"@[3]);
    assert("AXStaticText"@.len() != "AXTable"@.len());
    assert("AXStaticText"@.len() != "AXList"@.len());
    assert("AXStaticText"@.len() != "AXOutline"@.len());
    assert("AXStaticText"@[3] != "AXSplitGroup"@[3]);
    assert("AXStaticText"@.len() != "AXTabGroup"@.len());
    assert("AXStaticText"@.len() != "AXToolbar"@.len());
    assert("AXStaticText"@.len() != "AXMenuBar"@.len());
    assert("AXStaticText"@.len() != "AXMenu"@.len());
    assert("AXStaticText"@.len() != "AXMenuItem"@.len());
    assert("AXStaticText"@.len() != "AXWindow"@.len());
    assert("AXStaticText"@.len() != "AXApplication"@.len());
    assert("AXStaticText"@.len() != "AXImage"@.len());
    assert("AXStaticText"@.len() != "AXButton"@.len());
    assert("AXStaticText"@.len() != "AXRadioButton"@.len());
    assert("AXStaticText"@.len() != "AXCheckBox"@.len());
    assert("AXStaticText"@.len() != "AXSlider"@.len());
    assert("AXStaticText"@.len() != "AXProgressIndicator"@.len());
    assert("AXStaticText"@.len() != "AXBrowser"@.len());
    assert("AXStaticText"@.len() != "AXSplitter"@.len());
}

/// The roles rejected by their role alone are exactly the twenty
/// structural and non-editable ones; the terminal role or subrole is
/// AXTerminalArea.
pub proof fn lemma_structural_roles_are_the_twenty(role: Seq<char>, subrole: Seq<char>)
    ensures
        is_structural_role(role) <==> (role == "AXScrollArea"@ || role == "AXTable"@ || role == "AXList"@ || role == "AXOutline"@ || role == "AXSplitGroup"@ || role == "AXTabGroup"@ || role == "AXToolbar"@ || role == "AXMenuBar"@ || role == "AXMenu"@ || role == "AXMenuItem"@ || role == "AXWindow"@ || role == "AXApplication"@ || role == "AXImage"@ || role == "AXButton"@ || role == "AXRadioButton"@ || role == "AXCheckBox"@ || role == "AXSlider"@ || role == "AXProgressIndicator"@ || role == "AXBrowser"@ || role == "AXSplitter"@),
        is_container_role(role) <==> (role == "AXGroup"@ || role == "AXWebArea"@ || role == "AXStaticText"@),
        is_terminal(role, subrole) <==> (role == "AXTerminalArea"@ || subrole == "AXTerminalArea"@),
{
}

} // verus!
