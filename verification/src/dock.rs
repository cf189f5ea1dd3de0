//! Showing and hiding the application's dock icon.
use vstd::prelude::*;

verus! {

/// Activation policy of an ordinary application (dock icon shown).
pub const ACTIVATION_POLICY_REGULAR: i64 = 0;

/// Activation policy of an accessory application (dock icon hidden).
pub const ACTIVATION_POLICY_ACCESSORY: i64 = 1;

/// How to make the dock icon visible or hidden.
#[derive(Debug, Clone, Copy, PartialEq, Eq)]
pub struct DockPlan {
    /// The activation policy to set.
    pub activation_policy: i64,
    /// Whether to set the application icon again afterwards (the system
    /// drops it when the policy switches back to regular).
    pub restore_icon: bool,
}

/// The plan that shows (`visible`) or hides the dock icon.
pub open spec fn dock_plan(visible: bool) -> DockPlan {
    DockPlan {
        activation_policy: if visible { ACTIVATION_POLICY_REGULAR } else { ACTIVATION_POLICY_ACCESSORY },
        restore_icon: visible,
    }
}

/// How to show (`visible`) or hide the dock icon.
pub fn dock_icon_plan(visible: bool) -> (plan: DockPlan)
    ensures
        plan == dock_plan(visible),
{
    let activation_policy: i64 = if visible { ACTIVATION_POLICY_REGULAR } else { ACTIVATION_POLICY_ACCESSORY };
    DockPlan { activation_policy, restore_icon: visible }
}

/// The "Hide Dock Icon" menu item, given whether the saved setting hides
/// the icon now: the value to save (the opposite) and the plan that makes
/// the dock agree with it.
pub fn toggle_hide_dock_icon(currently_hidden: bool) -> (r: (bool, DockPlan))
    ensures
        r.0 == !currently_hidden,
        r.1 == dock_plan(!r.0),
{
    let new_hidden = !currently_hidden;
    (new_hidden, dock_icon_plan(!new_hidden))
}

/// What to do with the dock once the application is ready, given the saved
/// "hide dock icon" setting: hide it when asked, leave it otherwise.
pub fn startup_dock_plan(hide_requested: bool) -> (r: Option<DockPlan>)
    ensures
        r == (if hide_requested { Some(dock_plan(false)) } else { None }),
{
    if hide_requested {
        Some(dock_icon_plan(false))
    } else {
        None
    }
}

/// Showing the dock icon uses the regular policy (0) and restores the
/// icon; hiding it uses the accessory policy (1) and restores nothing.
pub proof fn lemma_dock_plans(visible: bool)
    ensures
        dock_plan(visible).activation_policy == (if visible { 0i64 } else { 1i64 }),
        dock_plan(visible).restore_icon == visible,
{
}

} // verus!
