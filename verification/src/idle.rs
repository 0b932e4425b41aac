//! The idle/charge timer: activity bookkeeping for the auto-suspend and
//! auto-dim transitions.
//!
//! The clock records when the user last pressed a button and when the
//! device was last seen charging; both are refreshed as events are
//! processed, never by a background timer.  Each of the two sub-timers
//! carries its own policy: an enable flag, a timeout, and whether
//! charging keeps the device awake.  With stay-awake-while-charging set a
//! sub-timer triggers only once *both* timestamps are stale; without it,
//! activity alone decides.  Auto-dim is a toggle besides: while inactive
//! a trigger snapshots the brightness and dims, while active any new
//! press (or, under the stay-awake policy, renewed charging) restores the
//! snapshot at once.

use vstd::prelude::*;

verus! {

/// The resolved policy of one sub-timer.
#[derive(Clone, Copy, Debug, PartialEq, Eq, Structural)]
pub struct IdlePolicy {
    /// Whether the sub-timer acts at all.
    pub enabled: bool,
    /// How long the qualifying timestamps must be stale, in microseconds.
    pub timeout: u64,
    /// Whether charging keeps the device awake.
    pub stay_awake_while_charging: bool,
}

/// Whether a timestamp is stale at `now`: strictly more than `timeout`
/// ago.
pub open spec fn spec_timed_out(last: u64, timeout: u64, now: u64) -> bool {
    now - last > timeout
}

/// Whether a sub-timer with policy `p` triggers, given the two recorded
/// timestamps.
pub open spec fn spec_idle_trigger(p: IdlePolicy, last_activity: u64, last_charge: u64, now: u64) -> bool {
    &&& p.enabled
    &&& spec_timed_out(last_activity, p.timeout, now)
    &&& (p.stay_awake_while_charging ==> spec_timed_out(last_charge, p.timeout, now))
}

/// The mutable timer state: the two timestamps, and whether the display
/// currently stands dimmed, together with the brightness snapshotted when
/// it was dimmed.
pub struct ActivityClock {
    last_activity: u64,
    last_charge: u64,
    dim_active: bool,
    saved_brightness: Option<u32>,
}

impl ActivityClock {
    /// When the user last pressed a button.
    pub closed spec fn spec_last_activity(&self) -> u64 {
        self.last_activity
    }

    /// When the device was last seen charging.
    pub closed spec fn spec_last_charge(&self) -> u64 {
        self.last_charge
    }

    /// Whether the display stands dimmed.
    pub closed spec fn spec_dim_active(&self) -> bool {
        self.dim_active
    }

    /// The brightness snapshotted when the display was dimmed.
    pub closed spec fn spec_saved_brightness(&self) -> Option<u32> {
        self.saved_brightness
    }

    /// A brightness snapshot is held exactly while the display stands
    /// dimmed.
    pub open spec fn wf(&self) -> bool {
        self.spec_dim_active() <==> self.spec_saved_brightness() is Some
    }

    /// A fresh clock: both timestamps read `now`, nothing dimmed.
    pub fn new(now: u64) -> (c: ActivityClock)
        ensures
            c.wf(),
            c.spec_last_activity() == now,
            c.spec_last_charge() == now,
            !c.spec_dim_active(),
            c.spec_saved_brightness() is None,
    {
        ActivityClock { last_activity: now, last_charge: now, dim_active: false, saved_brightness: None }
    }

    /// Whether the display stands dimmed, at runtime.
    pub fn dim_active(&self) -> (r: bool)
        ensures
            r == self.spec_dim_active(),
    {
        self.dim_active
    }

    /// Record one processed event: a press refreshes the activity
    /// timestamp, and a charging device refreshes the charge timestamp,
    /// each to `now`.
    pub fn note(&mut self, now: u64, pressed: bool, charging: bool)
        ensures
            final(self).spec_last_activity() == if pressed {
                now
            } else {
                old(self).spec_last_activity()
            },
            final(self).spec_last_charge() == if charging {
                now
            } else {
                old(self).spec_last_charge()
            },
            final(self).spec_dim_active() == old(self).spec_dim_active(),
            final(self).spec_saved_brightness() == old(self).spec_saved_brightness(),
    {
        if pressed {
            self.last_activity = now;
        }
        if charging {
            self.last_charge = now;
        }
    }

    /// Whether the sub-timer with policy `p` triggers at `now`.
    pub fn idle_trigger(&self, p: &IdlePolicy, now: u64) -> (r: bool)
        requires
            self.spec_last_activity() <= now,
            self.spec_last_charge() <= now,
        ensures
            r == spec_idle_trigger(*p, self.spec_last_activity(), self.spec_last_charge(), now),
    {
        if !p.enabled {
            return false;
        }
        let activity_stale = now - self.last_activity > p.timeout;
        let charge_stale = now - self.last_charge > p.timeout;
        activity_stale && (!p.stay_awake_while_charging || charge_stale)
    }

    /// Reset both timestamps to `now`; the auto-suspend trigger does this
    /// as it fires, so the next trigger waits out a whole timeout again.
    pub fn reset(&mut self, now: u64)
        ensures
            final(self).spec_last_activity() == now,
            final(self).spec_last_charge() == now,
            final(self).spec_dim_active() == old(self).spec_dim_active(),
            final(self).spec_saved_brightness() == old(self).spec_saved_brightness(),
    {
        self.last_activity = now;
        self.last_charge = now;
    }

    /// Enter the dimmed state, keeping the brightness that was current so
    /// the restore can bring back the exact value.
    pub fn begin_dim(&mut self, snapshot: u32)
        requires
            !old(self).spec_dim_active(),
        ensures
            final(self).spec_last_activity() == old(self).spec_last_activity(),
            final(self).spec_last_charge() == old(self).spec_last_charge(),
            final(self).spec_dim_active(),
            final(self).spec_saved_brightness() == Some(snapshot),
    {
        self.dim_active = true;
        self.saved_brightness = Some(snapshot);
    }

    /// Leave the dimmed state, handing back the snapshotted brightness.
    pub fn end_dim(&mut self) -> (snapshot: u32)
        requires
            old(self).wf(),
            old(self).spec_dim_active(),
        ensures
            final(self).spec_last_activity() == old(self).spec_last_activity(),
            final(self).spec_last_charge() == old(self).spec_last_charge(),
            !final(self).spec_dim_active(),
            final(self).spec_saved_brightness() is None,
            Some(snapshot) == old(self).spec_saved_brightness(),
    {
        self.dim_active = false;
        let s = self.saved_brightness;
        self.saved_brightness = None;
        match s {
            Some(v) => v,
            None => 0,  // unreachable: wf ties the snapshot to the dimmed state
        }
    }
}

} // verus!
