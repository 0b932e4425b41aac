//! Stepping rules for the brightness and volume levels.
//!
//! The daemon reads the current level from the device, computes the next
//! level here, and writes it back.  The rules keep the display from going
//! fully dark — brightness bottoms out at 1 — while the volume may reach
//! 0; and a level below one whole step snaps up to a whole step rather
//! than adding to it.

use vstd::prelude::*;

verus! {

/// The brightness one step up from `current`: a level below one step
/// snaps to `step`, any other gains `step`.
pub open spec fn spec_brightness_up(current: u32, step: u32) -> int {
    if current < step {
        step as int
    } else {
        current + step
    }
}

/// The brightness one step down from `current`, never below 1.
pub open spec fn spec_brightness_down(current: u32, step: u32) -> int {
    if current <= step {
        1
    } else {
        current - step
    }
}

/// The volume one step up from `current`: a level below one step snaps
/// to `step`, any other gains `step`.
pub open spec fn spec_volume_up(current: u32, step: u32) -> int {
    if current < step {
        step as int
    } else {
        current + step
    }
}

/// The volume one step down from `current`, bottoming out at 0.
pub open spec fn spec_volume_down(current: u32, step: u32) -> int {
    if current < step {
        0
    } else {
        current - step
    }
}

/// Runtime form of [`spec_brightness_up`].
pub fn brightness_up(current: u32, step: u32) -> (r: u32)
    requires
        current + step <= u32::MAX,
    ensures
        r == spec_brightness_up(current, step),
{
    if current < step {
        step
    } else {
        current + step
    }
}

/// Runtime form of [`spec_brightness_down`].
pub fn brightness_down(current: u32, step: u32) -> (r: u32)
    ensures
        r == spec_brightness_down(current, step),
{
    if current <= step {
        1
    } else {
        current - step
    }
}

/// Runtime form of [`spec_volume_up`].
pub fn volume_up(current: u32, step: u32) -> (r: u32)
    requires
        current + step <= u32::MAX,
    ensures
        r == spec_volume_up(current, step),
{
    if current < step {
        step
    } else {
        current + step
    }
}

/// Runtime form of [`spec_volume_down`].
pub fn volume_down(current: u32, step: u32) -> (r: u32)
    ensures
        r == spec_volume_down(current, step),
{
    if current < step {
        0
    } else {
        current - step
    }
}

} // verus!
