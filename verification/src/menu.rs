//! The tray menu: its layout choices, the ids of its items and the command
//! each clicked item stands for.
use vstd::prelude::*;
use crate::text::{has_prefix, str_eq, strip_prefix};

verus! {

/// The ids of the selectable keyboard layouts, in menu order.
pub open spec fn layout_ids() -> Seq<Seq<char>> {
    seq!["qwerty"@, "azerty"@, "qwertz"@, "dvorak"@, "colemak"@, "colemak-dh"@]
}

/// The labels of the selectable keyboard layouts, in menu order.
pub open spec fn layout_labels() -> Seq<Seq<char>> {
    seq!["QWERTY"@, "AZERTY"@, "QWERTZ"@, "Dvorak"@, "Colemak"@, "Colemak-DH"@]
}

/// The prefix of the menu ids of layout items.
pub open spec fn layout_prefix() -> Seq<char> {
    "layout-"@
}

/// The command a menu item stands for.
#[derive(Debug, PartialEq)]
pub enum MenuCommand {
    /// Show the layout with this id.
    SelectLayout(String),
    ToggleMatrixLayout,
    ToggleShowNumbers,
    ShowThumbKeys,
    ToggleFollowInput,
    ToggleHideDockIcon,
    Dismiss,
    ToggleLaunchAtLogin,
    Quit,
    /// An id the menu does not know.
    Ignore,
}

/// The command of a menu id that does not start with the layout prefix.
pub open spec fn plain_command(id: Seq<char>) -> MenuCommand {
    if id == "matrix-layout"@ {
        MenuCommand::ToggleMatrixLayout
    } else if id == "show-numbers"@ {
        MenuCommand::ToggleShowNumbers
    } else if id == "thumb-keys"@ {
        MenuCommand::ShowThumbKeys
    } else if id == "follow-input"@ {
        MenuCommand::ToggleFollowInput
    } else if id == "hide-dock-icon"@ {
        MenuCommand::ToggleHideDockIcon
    } else if id == "dismiss"@ {
        MenuCommand::Dismiss
    } else if id == "launch-at-login"@ {
        MenuCommand::ToggleLaunchAtLogin
    } else if id == "quit"@ {
        MenuCommand::Quit
    } else {
        MenuCommand::Ignore
    }
}

/// Whether `r` is the command of menu id `id`: an id starting with the
/// layout prefix selects the layout named by the rest of the id; any other
/// id is looked up among the fixed item ids.
pub open spec fn is_command_of(id: Seq<char>, r: MenuCommand) -> bool {
    if has_prefix(id, layout_prefix()) {
        r matches MenuCommand::SelectLayout(l) && l@ == id.subrange(layout_prefix().len() as int, id.len() as int)
    } else {
        r == plain_command(id)
    }
}

/// The selectable layouts as (id, label) pairs, in menu order.
pub fn layout_choices() -> (v: Vec<(&'static str, &'static str)>)
    ensures
        v@.len() == layout_ids().len(),
        forall|i: int| 0 <= i < v@.len() ==> (#[trigger] v@[i]).0@ == layout_ids()[i] && v@[i].1@ == layout_labels()[i],
{
    let v = vec![
        ("qwerty", "QWERTY"),
        ("azerty", "AZERTY"),
        ("qwertz", "QWERTZ"),
        ("dvorak", "Dvorak"),
        ("colemak", "Colemak"),
        ("colemak-dh", "Colemak-DH"),
    ];
    assert(v@.len() == 6);
    v
}

/// The menu id of the item of layout `id`.
pub fn layout_menu_id(id: &str) -> (r: String)
    ensures
        r@ == layout_prefix() + id@,
{
    let mut r = String::from_str("layout-");
    r.append(id);
    r
}

/// The checked state of each layout item, in menu order, when layout
/// `selected` is shown: an item is checked exactly when its id is
/// `selected`.
pub fn layout_checks(selected: &str) -> (v: Vec<bool>)
    ensures
        v@.len() == layout_ids().len(),
        forall|i: int| 0 <= i < v@.len() ==> v@[i] == (layout_ids()[i] == selected@),
{
    let choices = layout_choices();
    let mut v: Vec<bool> = Vec::new();
    let mut i: usize = 0;
    while i < choices.len()
        invariant
            choices@.len() == layout_ids().len(),
            forall|k: int| 0 <= k < choices@.len() ==> (#[trigger] choices@[k]).0@ == layout_ids()[k],
            i <= choices@.len(),
            v@.len() == i,
            forall|k: int| 0 <= k < i ==> v@[k] == (layout_ids()[k] == selected@),
        decreases choices@.len() - i,
    {
        let (id, _label) = choices[i];
        assert(id@ == layout_ids()[i as int]);
        v.push(str_eq(id, selected));
        i = i + 1;
    }
    v
}

/// The command of a clicked menu item, from its id.
pub fn parse_menu_id(id: &str) -> (r: MenuCommand)
    ensures
        is_command_of(id@, r),
{
    if let Some(layout) = strip_prefix(id, "layout-") {
        return MenuCommand::SelectLayout(layout.to_owned());
    }
    if str_eq(id, "matrix-layout") {
        MenuCommand::ToggleMatrixLayout
    } else if str_eq(id, "show-numbers") {
        MenuCommand::ToggleShowNumbers
    } else if str_eq(id, "thumb-keys") {
        MenuCommand::ShowThumbKeys
    } else if str_eq(id, "follow-input") {
        MenuCommand::ToggleFollowInput
    } else if str_eq(id, "hide-dock-icon") {
        MenuCommand::ToggleHideDockIcon
    } else if str_eq(id, "dismiss") {
        MenuCommand::Dismiss
    } else if str_eq(id, "launch-at-login") {
        MenuCommand::ToggleLaunchAtLogin
    } else if str_eq(id, "quit") {
        MenuCommand::Quit
    } else {
        MenuCommand::Ignore
    }
}

/// What the "Launch at Login" item does.
#[derive(Debug, Clone, Copy, PartialEq, Eq)]
pub enum LaunchAction {
    Enable,
    Disable,
}

/// The "Launch at Login" item, given whether launching at login is enabled
/// now (`None` when that could not be found out, which counts as not
/// enabled): it disables an enabled launch and enables it otherwise.
pub fn toggle_launch_at_login(enabled: Option<bool>) -> (a: LaunchAction)
    ensures
        a == (if enabled == Some(true) { LaunchAction::Disable } else { LaunchAction::Enable }),
{
    match enabled {
        Some(true) => LaunchAction::Disable,
        _ => LaunchAction::Enable,
    }
}

/// The setting that a checkable item saves when clicked, given the item's
/// checked state as the menu reports it after the click (`None` when it
/// could not be read): the matrix item saves `matrix_layout` (unknown
/// counts as checked), the number-row item saves `show_numbers` (unknown
/// counts as unchecked); other commands save nothing here.
pub fn checked_setting(cmd: &MenuCommand, checked: Option<bool>) -> (r: Option<(&'static str, bool)>)
    ensures
        match *cmd {
            MenuCommand::ToggleMatrixLayout => r matches Some((key, value)) && key@ == "matrix_layout"@
                && value == (match checked { Some(c) => c, None => true }),
            MenuCommand::ToggleShowNumbers => r matches Some((key, value)) && key@ == "show_numbers"@
                && value == (match checked { Some(c) => c, None => false }),
            _ => r is None,
        },
{
    match cmd {
        MenuCommand::ToggleMatrixLayout => Some((
            "matrix_layout",
            match checked {
                Some(c) => c,
                None => true,
            },
        )),
        MenuCommand::ToggleShowNumbers => Some((
            "show_numbers",
            match checked {
                Some(c) => c,
                None => false,
            },
        )),
        _ => None,
    }
}

/// The id given to a layout's menu item is read back as the command that
/// selects that very layout, and as no other command.
pub proof fn lemma_layout_menu_id_round_trip(layout: Seq<char>)
    ensures
        forall|r: MenuCommand| #[trigger] is_command_of(layout_prefix() + layout, r)
            <==> (r matches MenuCommand::SelectLayout(l) && l@ == layout),
{
    let id = layout_prefix() + layout;
    assert(id.subrange(0, layout_prefix().len() as int) =~= layout_prefix());
    assert(id.subrange(layout_prefix().len() as int, id.len() as int) =~= layout);
}

/// The layout ids are distinct, so at most one layout item is checked at a
/// time, and exactly one when the shown layout is one of the menu's.
pub proof fn lemma_one_layout_checked(selected: Seq<char>)
    ensures
        forall|i: int, j: int|
            0 <= i < layout_ids().len() && 0 <= j < layout_ids().len() && #[trigger] layout_ids()[i] == selected
                && #[trigger] layout_ids()[j] == selected ==> i == j,
        layout_ids().contains(selected) <==> exists|i: int| 0 <= i < layout_ids().len() && #[trigger] layout_ids()[i] == selected,
{
    reveal_strlit("qwerty");
    reveal_strlit("azerty");
    reveal_strlit("qwertz");
    reveal_strlit("dvorak");
    reveal_strlit("colemak");
    reveal_strlit("colemak-dh");
    assert("qwerty"@[0] != "azerty"@[0]);
    assert("qwerty"@[5] != "qwertz"@[5]);
    assert("qwerty"@[0] != "dvorak"@[0]);
    assert("qwerty"@.len() != "colemak"@.len());
    assert("qwerty"@.len() != "colemak-dh"@.len());
    assert("azerty"@[0] != "qwertz"@[0]);
    assert("azerty"@[0] != "dvorak"@[0]);
    assert("azerty"@.len() != "colemak"@.len());
    assert("azerty"@.len() != "colemak-dh"@.len());
    assert("qwertz"@[0] != "dvorak"@[0]);
    assert("qwertz"@.len() != "colemak"@.len());
    assert("qwertz"@.len() != "colemak-dh"@.len());
    assert("dvorak"@.len() != "colemak"@.len());
    assert("dvorak"@.len() != "colemak-dh"@.len());
    assert("colemak"@.len() != "colemak-dh"@.len());
    let ids = layout_ids();
    assert forall|i: int, j: int| 0 <= i < ids.len() && 0 <= j < ids.len() && i != j implies ids[i] != ids[j] by {
        if i != j {
            if ids[i] == ids[j] {
                assert(ids[i].len() == ids[j].len());
            }
        }
    }
}

/// The fixed menu ids and their commands; every other id without the
/// layout prefix is ignored.
pub proof fn lemma_fixed_menu_ids(id: Seq<char>)
    ensures
        plain_command("matrix-layout"@) == MenuCommand::ToggleMatrixLayout,
        plain_command("show-numbers"@) == MenuCommand::ToggleShowNumbers,
        plain_command("thumb-keys"@) == MenuCommand::ShowThumbKeys,
        plain_command("follow-input"@) == MenuCommand::ToggleFollowInput,
        plain_command("hide-dock-icon"@) == MenuCommand::ToggleHideDockIcon,
        plain_command("dismiss"@) == MenuCommand::Dismiss,
        plain_command("launch-at-login"@) == MenuCommand::ToggleLaunchAtLogin,
        plain_command("quit"@) == MenuCommand::Quit,
        !(id == "matrix-layout"@ || id == "show-numbers"@ || id == "thumb-keys"@ || id == "follow-input"@ || id
            == "hide-dock-icon"@ || id == "dismiss"@ || id == "launch-at-login"@ || id == "quit"@)
            ==> plain_command(id) == MenuCommand::Ignore,
        layout_prefix() == "layout-"@,
        layout_ids() == seq!["qwerty"@, "azerty"@, "qwertz"@, "dvorak"@, "colemak"@, "colemak-dh"@],
        layout_labels() == seq!["QWERTY"@, "AZERTY"@, "QWERTZ"@, "Dvorak"@, "Colemak"@, "Colemak-DH"@],
{    reveal_strlit("matrix-layout");
    reveal_strlit("show-numbers");
    reveal_strlit("thumb-keys");
    reveal_strlit("follow-input");
    reveal_strlit("hide-dock-icon");
    reveal_strlit("dismiss");
    reveal_strlit("launch-at-login");
    reveal_strlit("quit");
    assert("matrix-layout"@.len() != "show-numbers"@.len());
    assert("matrix-layout"@.len() != "thumb-keys"@.len());
    assert("matrix-layout"@.len() != "follow-input"@.len());
    assert("matrix-layout"@.len() != "hide-dock-icon"@.len());
    assert("matrix-layout"@.len() != "dismiss"@.len());
    assert("matrix-layout"@.len() != "launch-at-login"@.len());
    assert("matrix-layout"@.len() != "quit"@.len());
    assert("show-numbers"@.len() != "thumb-keys"@.len());
    assert("show-numbers"@[0] != "follow-input"@[0]);
    assert("show-numbers"@.len() != "hide-dock-icon"@.len());
    assert("show-numbers"@.len() != "dismiss"@.len());
    assert("show-numbers"@.len() != "launch-at-login"@.len());
    assert("show-numbers"@.len() != "quit"@.len());
    assert("thumb-keys"@.len() != "follow-input"@.len());
    assert("thumb-keys"@.len() != "hide-dock-icon"@.len());
    assert("thumb-keys"@.len() != "dismiss"@.len());
    assert("thumb-keys"@.len() != "launch-at-login"@.len());
    assert("thumb-keys"@.len() != "quit"@.len());
    assert("follow-input"@.len() != "hide-dock-icon"@.len());
    assert("follow-input"@.len() != "dismiss"@.len());
    assert("follow-input"@.len() != "launch-at-login"@.len());
    assert("follow-input"@.len() != "quit"@.len());
    assert("hide-dock-icon"@.len() != "dismiss"@.len());
    assert("hide-dock-icon"@.len() != "launch-at-login"@.len());
    assert("hide-dock-icon"@.len() != "quit"@.len());
    assert("dismiss"@.len() != "launch-at-login"@.len());
    assert("dismiss"@.len() != "quit"@.len());
    assert("launch-at-login"@.len() != "quit"@.len());
}

} // verus!
