//! Following the focused text input, and dismissing the overlay until the
//! next input gets focus.
//!
//! A poller asks, at a fixed period, where the focused text input is. It
//! only asks while following is on or the overlay is dismissed; otherwise
//! it treats the input as absent. When the answer changes it reports the
//! new position (showing the overlay again first if it was dismissed) or
//! that the input was lost.
use vstd::prelude::*;

verus! {

/// The shared switches of the overlay.
pub struct Overlay {
    follow_input: bool,
    dismissed: bool,
}

/// What to do after a poll.
#[derive(Debug, Clone, Copy, PartialEq, Eq)]
pub enum PollAction {
    /// The answer did not change: nothing to report.
    Nothing,
    /// Report the new input position, showing the overlay window first when
    /// `show_window` holds.
    ReportInput { show_window: bool },
    /// Report that no text input is focused any more.
    ReportLost,
}

/// The action of a poll, from the dismissed switch, whether an input was
/// found and whether the answer changed since the last poll.
pub open spec fn poll_action(dismissed: bool, found: bool, changed: bool) -> PollAction {
    if !changed {
        PollAction::Nothing
    } else if found {
        PollAction::ReportInput { show_window: dismissed }
    } else {
        PollAction::ReportLost
    }
}

/// The dismissed switch after a poll: a newly found input ends the
/// dismissal.
pub open spec fn poll_dismissed(dismissed: bool, found: bool, changed: bool) -> bool {
    if changed && found {
        false
    } else {
        dismissed
    }
}

impl Overlay {
    /// Whether the overlay follows the focused text input.
    pub closed spec fn following(&self) -> bool {
        self.follow_input
    }

    /// Whether the overlay is hidden until a text input gets focus.
    pub closed spec fn is_dismissed(&self) -> bool {
        self.dismissed
    }

    /// The switches at start: following as saved, not dismissed.
    pub fn new(follow_input: bool) -> (o: Overlay)
        ensures
            o.following() == follow_input,
            !o.is_dismissed(),
    {
        Overlay { follow_input, dismissed: false }
    }

    /// Whether the overlay follows the focused text input.
    pub fn follow_input(&self) -> (r: bool)
        ensures
            r == self.following(),
    {
        self.follow_input
    }

    /// Whether the overlay is dismissed.
    pub fn dismissed(&self) -> (r: bool)
        ensures
            r == self.is_dismissed(),
    {
        self.dismissed
    }

    /// The "Follow Text Input" menu item: flips following and returns the
    /// new value (to be saved and announced).
    pub fn toggle_follow_input(&mut self) -> (now: bool)
        ensures
            now == !old(self).following(),
            final(self).following() == now,
            final(self).is_dismissed() == old(self).is_dismissed(),
    {
        self.follow_input = !self.follow_input;
        self.follow_input
    }

    /// The "Dismiss Until Input" menu item: hides the overlay until a text
    /// input gets focus.
    pub fn dismiss(&mut self)
        ensures
            final(self).is_dismissed(),
            final(self).following() == old(self).following(),
    {
        self.dismissed = true;
    }

    /// Whether the poller asks for the focused text input: while following
    /// or while dismissed.
    pub fn should_probe(&self) -> (r: bool)
        ensures
            r == (self.following() || self.is_dismissed()),
    {
        self.follow_input || self.dismissed
    }

    /// Handles a poll's answer: whether an input was found and whether the
    /// answer differs from the previous one.
    pub fn on_poll(&mut self, found: bool, changed: bool) -> (action: PollAction)
        ensures
            action == poll_action(old(self).is_dismissed(), found, changed),
            final(self).is_dismissed() == poll_dismissed(old(self).is_dismissed(), found, changed),
            final(self).following() == old(self).following(),
    {
        if !changed {
            PollAction::Nothing
        } else if found {
            let show_window = self.dismissed;
            if self.dismissed {
                self.dismissed = false;
            }
            PollAction::ReportInput { show_window }
        } else {
            PollAction::ReportLost
        }
    }
}

/// A dismissal lasts exactly until a poll finds a newly focused input; the
/// report of that input comes with the window shown again, and no later
/// report shows it again until the next dismissal.
pub proof fn lemma_dismissal_ends_on_input(found1: bool, changed1: bool, found2: bool, changed2: bool)
    ensures
        poll_dismissed(true, found1, changed1) == !(found1 && changed1),
        poll_action(true, found1, changed1) is ReportInput ==> poll_action(true, found1, changed1)
            == (PollAction::ReportInput { show_window: true }),
        poll_action(true, found1, changed1) is ReportInput ==> poll_action(
            poll_dismissed(true, found1, changed1),
            found2,
            changed2,
        ) != (PollAction::ReportInput { show_window: true }),
{
}

/// A poll never shows the window unless the overlay was dismissed, and
/// never reports anything when the answer did not change.
pub proof fn lemma_window_shown_only_when_dismissed(dismissed: bool, found: bool, changed: bool)
    ensures
        poll_action(dismissed, found, changed) == (PollAction::ReportInput { show_window: true }) ==> dismissed,
        !changed ==> poll_action(dismissed, found, changed) == PollAction::Nothing
            && poll_dismissed(dismissed, found, changed) == dismissed,
{
}

/// Every change of the answer is reported, whatever the dismissed switch:
/// a newly found input as an input (showing the window exactly when the
/// overlay was dismissed), a lost input as lost.
pub proof fn lemma_changes_always_reported(dismissed: bool, found: bool)
    ensures
        !found ==> poll_action(dismissed, found, true) == PollAction::ReportLost,
        found ==> poll_action(dismissed, found, true) == (PollAction::ReportInput { show_window: dismissed }),
        poll_action(dismissed, found, true) != PollAction::Nothing,
{
}

/// A poll that finds nothing new never ends a dismissal, and following is
/// asked for exactly while following or dismissed (see `should_probe`):
/// only a newly found input clears the dismissed switch.
pub proof fn lemma_only_new_inputs_end_dismissal(dismissed: bool, found: bool, changed: bool)
    ensures
        poll_dismissed(dismissed, found, changed) == (dismissed && !(found && changed)),
{
}

} // verus!
