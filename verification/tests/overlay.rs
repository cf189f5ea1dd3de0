use keyglance::dock::{dock_icon_plan, startup_dock_plan, toggle_hide_dock_icon, DockPlan};
use keyglance::overlay::{Overlay, PollAction};

#[test]
fn probing_only_while_following_or_dismissed() {
    let mut o = Overlay::new(false);
    assert!(!o.should_probe());
    assert!(!o.dismissed());
    o.dismiss();
    assert!(o.should_probe());
    let mut f = Overlay::new(true);
    assert!(f.should_probe());
    assert!(!f.toggle_follow_input());
    assert!(!f.should_probe());
    assert!(f.toggle_follow_input());
    assert!(f.follow_input());
}

#[test]
fn dismissal_ends_when_an_input_appears() {
    let mut o = Overlay::new(false);
    o.dismiss();
    assert_eq!(o.on_poll(false, false), PollAction::Nothing);
    assert!(o.dismissed());
    assert_eq!(o.on_poll(false, true), PollAction::ReportLost);
    assert!(o.dismissed());
    assert_eq!(o.on_poll(true, true), PollAction::ReportInput { show_window: true });
    assert!(!o.dismissed());
    assert_eq!(o.on_poll(true, true), PollAction::ReportInput { show_window: false });
    assert!(!o.should_probe());
}

#[test]
fn polls_leave_following_alone() {
    let mut o = Overlay::new(true);
    o.on_poll(true, true);
    o.on_poll(false, true);
    assert!(o.follow_input());
    assert_eq!(o.on_poll(true, false), PollAction::Nothing);
}

#[test]
fn dock_plans() {
    assert_eq!(dock_icon_plan(true), DockPlan { activation_policy: 0, restore_icon: true });
    assert_eq!(dock_icon_plan(false), DockPlan { activation_policy: 1, restore_icon: false });
    assert_eq!(toggle_hide_dock_icon(false), (true, DockPlan { activation_policy: 1, restore_icon: false }));
    assert_eq!(toggle_hide_dock_icon(true), (false, DockPlan { activation_policy: 0, restore_icon: true }));
    assert_eq!(startup_dock_plan(true), Some(DockPlan { activation_policy: 1, restore_icon: false }));
    assert_eq!(startup_dock_plan(false), None);
}

use keyglance::permission::{PermissionStep, PermissionWait};

#[test]
fn permission_missing_is_announced_once() {
    let mut w = PermissionWait::new();
    assert_eq!(w.on_check(false), PermissionStep::AnnounceMissingAndWait);
    assert_eq!(w.on_check(false), PermissionStep::Wait);
    assert_eq!(w.on_check(false), PermissionStep::Wait);
    assert_eq!(w.on_check(true), PermissionStep::AnnounceGrantedAndListen);
}

#[test]
fn permission_already_granted_listens_at_once() {
    let mut w = PermissionWait::new();
    assert_eq!(w.on_check(true), PermissionStep::Listen);
}
