//! Turning raw key-event-tap events into press/release reports.
//!
//! Ordinary keys arrive as key-down and key-up events; modifier keys only
//! report that the modifier flags changed, so whether such an event is a
//! press or a release is decided by comparing the new flags with the flags
//! of the previous modifier event.
use vstd::prelude::*;
use crate::keys::{
    is_modifier, is_modifier_code, is_modifier_name, key_name, keycode_to_name,
    lemma_modifier_codes_have_modifier_names,
};

verus! {

/// Event type of a key press.
pub const KEY_DOWN: u32 = 10;

/// Event type of a key release.
pub const KEY_UP: u32 = 11;

/// Event type of a change of the modifier flags.
pub const FLAGS_CHANGED: u32 = 12;

/// A key event forwarded to the overlay, carrying the key's name.
#[derive(Debug, PartialEq)]
pub enum KeyEvent {
    Press(String),
    Release(String),
}

/// The key code carried by an event's integer key-code field (truncated to
/// 16 bits, as the field is read).
pub open spec fn event_key_code(keycode_field: i64) -> u16 {
    keycode_field as u16
}

/// What an event reports: `Some((true, code))` for a press,
/// `Some((false, code))` for a release, `None` for nothing.
pub open spec fn tap_report(last_flags: u64, event_type: u32, keycode_field: i64, flags: u64) -> Option<(bool, u16)> {
    let code = event_key_code(keycode_field);
    if event_type == KEY_DOWN {
        Some((true, code))
    } else if event_type == KEY_UP {
        Some((false, code))
    } else if event_type == FLAGS_CHANGED && is_modifier_code(code) {
        Some((flags > last_flags, code))
    } else {
        None
    }
}

/// The modifier flags remembered after an event.
pub open spec fn tap_next_flags(last_flags: u64, event_type: u32, keycode_field: i64, flags: u64) -> u64 {
    if event_type == FLAGS_CHANGED && is_modifier_code(event_key_code(keycode_field)) {
        flags
    } else {
        last_flags
    }
}

/// Whether a forwarded event is the report `rep`.
pub open spec fn event_matches(r: Option<KeyEvent>, rep: Option<(bool, u16)>) -> bool {
    match rep {
        Some((true, code)) => r matches Some(KeyEvent::Press(name)) && name@ == key_name(code),
        Some((false, code)) => r matches Some(KeyEvent::Release(name)) && name@ == key_name(code),
        None => r is None,
    }
}

/// The state kept between events: the modifier flags of the last modifier
/// event.
pub struct KeyTracker {
    last_flags: u64,
}

impl KeyTracker {
    /// The flags of the last modifier event (0 before any).
    pub closed spec fn flags(&self) -> u64 {
        self.last_flags
    }

    /// A tracker that has seen no event.
    pub fn new() -> (t: KeyTracker)
        ensures
            t.flags() == 0,
    {
        KeyTracker { last_flags: 0 }
    }

    /// The flags of the last modifier event.
    pub fn last_flags(&self) -> (f: u64)
        ensures
            f == self.flags(),
    {
        self.last_flags
    }

    /// Handles one tapped event: its type, its integer key-code field and
    /// the modifier flags it carries. Key-down and key-up events report a
    /// press and a release of the named key; a flags change on a modifier
    /// key reports a press when the flags rose above those of the previous
    /// modifier event and a release otherwise, and remembers the new flags;
    /// every other event reports nothing.
    pub fn tap_callback(&mut self, event_type: u32, keycode_field: i64, flags: u64) -> (r: Option<KeyEvent>)
        ensures
            event_matches(r, tap_report(old(self).flags(), event_type, keycode_field, flags)),
            final(self).flags() == tap_next_flags(old(self).flags(), event_type, keycode_field, flags),
    {
        let code: u16 = keycode_field as u16;
        if event_type == KEY_DOWN {
            Some(KeyEvent::Press(keycode_to_name(code)))
        } else if event_type == KEY_UP {
            Some(KeyEvent::Release(keycode_to_name(code)))
        } else if event_type == FLAGS_CHANGED && is_modifier(code) {
            let pressed = flags > self.last_flags;
            self.last_flags = flags;
            if pressed {
                Some(KeyEvent::Press(keycode_to_name(code)))
            } else {
                Some(KeyEvent::Release(keycode_to_name(code)))
            }
        } else {
            None
        }
    }
}

/// Whether the tracker uses an event's key-code field: only for key-down,
/// key-up and flag events.
pub fn reads_key_code(event_type: u32) -> (r: bool)
    ensures
        r == (event_type == KEY_DOWN || event_type == KEY_UP || event_type == FLAGS_CHANGED),
{
    event_type == KEY_DOWN || event_type == KEY_UP || event_type == FLAGS_CHANGED
}

/// Whether the tracker uses an event's modifier flags: only for flag
/// events of modifier keys.
pub fn reads_flags(event_type: u32, keycode_field: i64) -> (r: bool)
    ensures
        r == (event_type == FLAGS_CHANGED && is_modifier_code(event_key_code(keycode_field))),
{
    event_type == FLAGS_CHANGED && is_modifier(keycode_field as u16)
}

/// What an event reports and leaves behind does not depend on its key-code
/// field when `reads_key_code` is false, nor on its flags when
/// `reads_flags` is false; so those need not be read then.
pub proof fn lemma_unread_fields_do_not_matter(
    last_flags: u64,
    event_type: u32,
    field1: i64,
    field2: i64,
    flags1: u64,
    flags2: u64,
)
    ensures
        !(event_type == KEY_DOWN || event_type == KEY_UP || event_type == FLAGS_CHANGED) ==> {
            &&& tap_report(last_flags, event_type, field1, flags1) == tap_report(last_flags, event_type, field2, flags2)
            &&& tap_next_flags(last_flags, event_type, field1, flags1) == tap_next_flags(last_flags, event_type, field2, flags2)
        },
        !(event_type == FLAGS_CHANGED && is_modifier_code(event_key_code(field1))) ==> {
            &&& tap_report(last_flags, event_type, field1, flags1) == tap_report(last_flags, event_type, field1, flags2)
            &&& tap_next_flags(last_flags, event_type, field1, flags1) == tap_next_flags(last_flags, event_type, field1, flags2)
        },
{
}

/// Only modifier flag events change what the tracker remembers: key-down,
/// key-up, other event types and flag events of non-modifier keys leave it
/// as it was.
pub proof fn lemma_only_modifier_events_change_flags(last_flags: u64, event_type: u32, keycode_field: i64, flags: u64)
    ensures
        !(event_type == FLAGS_CHANGED && is_modifier_code(event_key_code(keycode_field)))
            ==> tap_next_flags(last_flags, event_type, keycode_field, flags) == last_flags,
{
}

/// Flag events of keys that are not modifiers are ignored.
pub proof fn lemma_non_modifier_flag_events_ignored(last_flags: u64, keycode_field: i64, flags: u64)
    requires
        !is_modifier_code(event_key_code(keycode_field)),
    ensures
        tap_report(last_flags, FLAGS_CHANGED, keycode_field, flags) is None,
        tap_next_flags(last_flags, FLAGS_CHANGED, keycode_field, flags) == last_flags,
{
}

/// After a modifier event with flags `f`, a following modifier event whose
/// flags do not exceed `f` is a release; one whose flags exceed `f` is a
/// press. In particular the same flags event delivered twice reports a
/// release the second time.
pub proof fn lemma_modifier_press_then_release(
    last_flags: u64,
    field1: i64,
    flags1: u64,
    field2: i64,
    flags2: u64,
)
    requires
        is_modifier_code(event_key_code(field1)),
        is_modifier_code(event_key_code(field2)),
    ensures
        ({
            let mid = tap_next_flags(last_flags, FLAGS_CHANGED, field1, flags1);
            tap_report(mid, FLAGS_CHANGED, field2, flags2) == Some((flags2 > flags1, event_key_code(field2)))
        }),
        ({
            let mid = tap_next_flags(last_flags, FLAGS_CHANGED, field1, flags1);
            tap_report(mid, FLAGS_CHANGED, field1, flags1) == Some((false, event_key_code(field1)))
        }),
{
}

/// Whatever a flag-change event reports names a modifier key (Meta, Shift,
/// Control, Alt, CapsLock or Fn).
pub proof fn lemma_flag_reports_name_modifiers(last_flags: u64, keycode_field: i64, flags: u64)
    ensures
        tap_report(last_flags, FLAGS_CHANGED, keycode_field, flags) matches Some((_, code))
            ==> is_modifier_name(key_name(code)),
{
    lemma_modifier_codes_have_modifier_names(event_key_code(keycode_field));
}

/// The flags a tracker remembers after handling a sequence of events, each
/// given as (event type, key-code field, flags), starting from a new
/// tracker: each event updates them as `tap_callback` does.
pub open spec fn flags_after(events: Seq<(u32, i64, u64)>) -> u64
    decreases events.len(),
{
    if events.len() == 0 {
        0
    } else {
        let e = events.last();
        tap_next_flags(flags_after(events.drop_last()), e.0, e.1, e.2)
    }
}

/// The flags of the last flag event of a modifier key in a sequence of
/// events, 0 when there is none.
pub open spec fn last_modifier_flags(events: Seq<(u32, i64, u64)>) -> u64
    decreases events.len(),
{
    if events.len() == 0 {
        0
    } else {
        let e = events.last();
        if e.0 == FLAGS_CHANGED && is_modifier_code(event_key_code(e.1)) {
            e.2
        } else {
            last_modifier_flags(events.drop_last())
        }
    }
}

/// Over any sequence of events handled from a new tracker, the remembered
/// flags are those of the most recent flag event of a modifier key (0 if
/// there is none yet); no other event changes them.
pub proof fn lemma_flags_are_last_modifier_flags(events: Seq<(u32, i64, u64)>)
    ensures
        flags_after(events) == last_modifier_flags(events),
    decreases events.len(),
{
    if events.len() > 0 {
        lemma_flags_are_last_modifier_flags(events.drop_last());
    }
}

/// Key-down events report a press and key-up events a release of the key
/// whose code is the key-code field (its low 16 bits); event types other
/// than key-down, key-up and flag changes report nothing and change
/// nothing; a key-code field within 0..65536 is the code itself.
pub proof fn lemma_event_types(last_flags: u64, event_type: u32, keycode_field: i64, flags: u64)
    ensures
        event_type == 10 ==> tap_report(last_flags, event_type, keycode_field, flags) == Some((true, keycode_field as u16)),
        event_type == 11 ==> tap_report(last_flags, event_type, keycode_field, flags) == Some((false, keycode_field as u16)),
        event_type != 10 && event_type != 11 && event_type != 12 ==> tap_report(last_flags, event_type, keycode_field, flags) is None
            && tap_next_flags(last_flags, event_type, keycode_field, flags) == last_flags,
        0 <= keycode_field < 65536 ==> event_key_code(keycode_field) == keycode_field,
{
}

} // verus!
