//! The hotkey modifier tracker.
//!
//! A designated "modifier" button selects between the chorded and the
//! unchorded binding table.  The tracker holds a single boolean, "modifier
//! held", which only events carrying the configured hotkey code may
//! change: such an event sets it exactly when its value is `1`.  Every
//! other event leaves it alone.

use vstd::prelude::*;
use crate::event::{ButtonCode, RawEvent};

verus! {

/// The modifier state after one event: an event with the hotkey code
/// makes the state `value == 1`, any other event keeps the old state.
pub open spec fn spec_modifier_after(held: bool, hotkey_code: ButtonCode, e: RawEvent) -> bool {
    if e.code == hotkey_code {
        e.value == 1
    } else {
        held
    }
}

/// The modifier state after a whole sequence of events, applied in order,
/// starting from `init`.
pub open spec fn spec_modifier_after_seq(init: bool, hotkey_code: ButtonCode, events: Seq<RawEvent>) -> bool
    decreases events.len(),
{
    if events.len() == 0 {
        init
    } else {
        spec_modifier_after(
            spec_modifier_after_seq(init, hotkey_code, events.drop_last()),
            hotkey_code,
            events.last(),
        )
    }
}

/// The most recent event of a sequence that carries the hotkey code, if
/// any event does.
pub open spec fn spec_last_hotkey_event(hotkey_code: ButtonCode, events: Seq<RawEvent>) -> Option<RawEvent>
    decreases events.len(),
{
    if events.len() == 0 {
        None
    } else if events.last().code == hotkey_code {
        Some(events.last())
    } else {
        spec_last_hotkey_event(hotkey_code, events.drop_last())
    }
}

/// The modifier state is history-independent: after any event sequence it
/// is decided by the most recent event carrying the hotkey code alone —
/// `value == 1` of that event — and is the initial state when no such
/// event occurred.  Events with other codes have no influence.
pub proof fn lemma_modifier_history_independence(
    init: bool,
    hotkey_code: ButtonCode,
    events: Seq<RawEvent>,
)
    ensures
        spec_modifier_after_seq(init, hotkey_code, events) == match spec_last_hotkey_event(
            hotkey_code,
            events,
        ) {
            Some(e) => e.value == 1,
            None => init,
        },
    decreases events.len(),
{
    if events.len() > 0 {
        lemma_modifier_history_independence(init, hotkey_code, events.drop_last());
    }
}

/// Holds whether the designated modifier button is currently held.
pub struct ModifierTracker {
    hotkey_code: ButtonCode,
    held: bool,
}

impl ModifierTracker {
    /// The configured hotkey code.
    pub closed spec fn spec_hotkey_code(&self) -> ButtonCode {
        self.hotkey_code
    }

    /// Whether the modifier is currently held.
    pub closed spec fn spec_held(&self) -> bool {
        self.held
    }

    /// A fresh tracker: the modifier starts out released.
    pub fn new(hotkey_code: ButtonCode) -> (t: ModifierTracker)
        ensures
            t.spec_hotkey_code() == hotkey_code,
            !t.spec_held(),
    {
        ModifierTracker { hotkey_code, held: false }
    }

    /// Feed one event through the tracker and return the state that holds
    /// from this event on.  Only an event with the hotkey code changes the
    /// state; it is then held exactly when the event's value is `1`.
    pub fn update(&mut self, e: &RawEvent) -> (held: bool)
        ensures
            final(self).spec_hotkey_code() == old(self).spec_hotkey_code(),
            final(self).spec_held() == spec_modifier_after(
                old(self).spec_held(),
                old(self).spec_hotkey_code(),
                *e,
            ),
            held == final(self).spec_held(),
    {
        if e.code == self.hotkey_code {
            self.held = e.value == 1;
        }
        self.held
    }

    /// The current state, without feeding an event.
    pub fn held(&self) -> (r: bool)
        ensures
            r == self.spec_held(),
    {
        self.held
    }
}

} // verus!
