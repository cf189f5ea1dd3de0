//! Waiting for the accessibility permission before listening to keys.
//!
//! An event tap created without the permission silently receives nothing,
//! so the listener first waits, checking the permission once a second. The
//! user is told once that the permission is missing and, if they were
//! told, once that it has been granted.
use vstd::prelude::*;

verus! {

/// What to do after checking the permission.
#[derive(Debug, Clone, Copy, PartialEq, Eq)]
pub enum PermissionStep {
    /// Announce that the permission is missing, then wait and check again.
    AnnounceMissingAndWait,
    /// Wait and check again.
    Wait,
    /// Announce that the permission was granted, then start listening.
    AnnounceGrantedAndListen,
    /// Start listening.
    Listen,
}

/// The state of the wait: whether the missing permission was announced.
pub struct PermissionWait {
    announced: bool,
}

/// The step after a check, from whether the missing permission was already
/// announced and whether the application is now trusted.
pub open spec fn permission_step(announced: bool, trusted: bool) -> PermissionStep {
    if trusted {
        if announced { PermissionStep::AnnounceGrantedAndListen } else { PermissionStep::Listen }
    } else {
        if announced { PermissionStep::Wait } else { PermissionStep::AnnounceMissingAndWait }
    }
}

impl PermissionWait {
    /// Whether the missing permission was announced.
    pub closed spec fn was_announced(&self) -> bool {
        self.announced
    }

    /// A wait that has announced nothing.
    pub fn new() -> (w: PermissionWait)
        ensures
            !w.was_announced(),
    {
        PermissionWait { announced: false }
    }

    /// Handles one check of the permission.
    pub fn on_check(&mut self, trusted: bool) -> (step: PermissionStep)
        ensures
            step == permission_step(old(self).was_announced(), trusted),
            final(self).was_announced() == (old(self).was_announced() || !trusted),
    {
        if trusted {
            if self.announced {
                PermissionStep::AnnounceGrantedAndListen
            } else {
                PermissionStep::Listen
            }
        } else if self.announced {
            PermissionStep::Wait
        } else {
            self.announced = true;
            PermissionStep::AnnounceMissingAndWait
        }
    }
}

/// The missing permission is announced at most once: once a check has
/// found it missing, every later check that finds it missing only waits.
/// The grant is announced exactly when the missing permission was, and
/// listening starts exactly when the application is trusted.
pub proof fn lemma_announcements_once(announced: bool, trusted: bool)
    ensures
        !trusted ==> permission_step(announced || !trusted, false) == PermissionStep::Wait,
        permission_step(announced, true) == PermissionStep::AnnounceGrantedAndListen <==> announced,
        (permission_step(announced, trusted) is AnnounceGrantedAndListen
            || permission_step(announced, trusted) is Listen) <==> trusted,
{
}

/// Without the permission the listener never starts; with it, it always
/// does.
pub proof fn lemma_listening_needs_permission(announced: bool)
    ensures
        permission_step(announced, false) == PermissionStep::AnnounceMissingAndWait || permission_step(announced, false)
            == PermissionStep::Wait,
        permission_step(announced, true) == PermissionStep::AnnounceGrantedAndListen || permission_step(announced, true)
            == PermissionStep::Listen,
        permission_step(false, false) == PermissionStep::AnnounceMissingAndWait,
{
}

} // verus!
