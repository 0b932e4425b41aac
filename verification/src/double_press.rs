//! The double-press detector for the power key.
//!
//! With double-push semantics enabled, the detector is a two-state
//! machine: *armed* (no unmatched first press) and *waiting* (a first
//! qualifying press stands recorded at some time).  A second qualifying
//! press at elapsed time within `[min_interval, max_interval]` fires and
//! re-arms with no timestamp carried over; one outside that window does
//! not fire but becomes the new first-press candidate itself (a sliding
//! window, not a reset-after-timeout design).  The lower bound rejects
//! switch bounce and autorepeat; the upper bound limits how long the
//! second press may wait.  With double-push disabled every qualifying
//! press fires at once and no timing state is kept.

use vstd::prelude::*;

verus! {

/// The timing parameters of the detector, resolved at startup.
#[derive(Clone, Copy, Debug, PartialEq, Eq, Structural)]
pub struct DoublePressWindow {
    /// Whether double-push semantics are active at all.
    pub double_push: bool,
    /// Smallest elapsed time between the two presses that fires, in
    /// microseconds.
    pub min_interval: u64,
    /// Largest such elapsed time, in microseconds.
    pub max_interval: u64,
}

/// Whether a qualifying press at `now`, with `pending` the recorded first
/// press, completes a double press under window `w`.
pub open spec fn spec_double_press_fires(w: DoublePressWindow, pending: Option<u64>, now: u64) -> bool {
    if w.double_push {
        pending matches Some(t0) && w.min_interval <= now - t0 <= w.max_interval
    } else {
        true
    }
}

/// The recorded first press after a qualifying press at `now`: cleared on
/// a fire, otherwise the new press becomes the first-press candidate.
/// Without double-push semantics no timestamp is ever recorded.
pub open spec fn spec_double_press_next(w: DoublePressWindow, pending: Option<u64>, now: u64) -> Option<u64> {
    if !w.double_push {
        pending
    } else if spec_double_press_fires(w, pending, now) {
        None
    } else {
        Some(now)
    }
}

/// The detector: the window plus the pending first press, if one stands
/// recorded.
pub struct DoublePressDetector {
    window: DoublePressWindow,
    pending: Option<u64>,
}

impl DoublePressDetector {
    /// The configured window.
    pub closed spec fn spec_window(&self) -> DoublePressWindow {
        self.window
    }

    /// The recorded first press, if any.
    pub closed spec fn spec_pending(&self) -> Option<u64> {
        self.pending
    }

    /// A fresh detector: armed, nothing recorded, so the very first press
    /// of the process lifetime can never fire by timing.
    pub fn new(window: DoublePressWindow) -> (d: DoublePressDetector)
        ensures
            d.spec_window() == window,
            d.spec_pending() is None,
    {
        DoublePressDetector { window, pending: None }
    }

    /// Feed one qualifying press (the power-class code, value `1`) at
    /// time `now`; returns whether the press completes a double press —
    /// or, with double-push semantics disabled, fires by itself.
    pub fn note_press(&mut self, now: u64) -> (fires: bool)
        requires
            old(self).spec_pending() matches Some(t0) ==> t0 <= now,
        ensures
            final(self).spec_window() == old(self).spec_window(),
            fires == spec_double_press_fires(old(self).spec_window(), old(self).spec_pending(), now),
            final(self).spec_pending() == spec_double_press_next(
                old(self).spec_window(),
                old(self).spec_pending(),
                now,
            ),
    {
        if !self.window.double_push {
            return true;
        }
        match self.pending {
            Some(t0) => {
                let elapsed = now - t0;
                if self.window.min_interval <= elapsed && elapsed <= self.window.max_interval {
                    self.pending = None;
                    true
                } else {
                    self.pending = Some(now);
                    false
                }
            },
            None => {
                self.pending = Some(now);
                false
            },
        }
    }
}

} // verus!
