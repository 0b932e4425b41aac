//! The battery charging state.
//!
//! The kernel exposes the charging state as one word in a status file;
//! the daemon polls it fresh on every event.  The raw file content is
//! read outside and interpreted here: the word, stripped of surrounding
//! whitespace, names one of five states, and for the idle timers a
//! battery counts as charging exactly while it is `Charging` or `Full`.

use vstd::prelude::*;
use crate::parse::{TrimSet, spec_trim, trim_bytes};

verus! {

/// The five states the kernel reports.
#[derive(Clone, Copy, Debug, PartialEq, Eq, Structural)]
pub enum BatteryStatus {
    Unknown,
    Charging,
    Discharging,
    NotCharging,
    Full,
}

/// The bytes of the word `Unknown`.
pub open spec fn spec_label_unknown() -> Seq<u8> {
    seq![85u8, 110u8, 107u8, 110u8, 111u8, 119u8, 110u8]
}

/// The bytes of the word `Charging`.
pub open spec fn spec_label_charging() -> Seq<u8> {
    seq![67u8, 104u8, 97u8, 114u8, 103u8, 105u8, 110u8, 103u8]
}

/// The bytes of the word `Discharging`.
pub open spec fn spec_label_discharging() -> Seq<u8> {
    seq![68u8, 105u8, 115u8, 99u8, 104u8, 97u8, 114u8, 103u8, 105u8, 110u8, 103u8]
}

/// The bytes of the words `Not charging`.
pub open spec fn spec_label_not_charging() -> Seq<u8> {
    seq![78u8, 111u8, 116u8, 32u8, 99u8, 104u8, 97u8, 114u8, 103u8, 105u8, 110u8, 103u8]
}

/// The bytes of the word `Full`.
pub open spec fn spec_label_full() -> Seq<u8> {
    seq![70u8, 117u8, 108u8, 108u8]
}

/// The state a raw status-file content reports: its content stripped of
/// surrounding whitespace, matched against the five words.  `None` marks
/// a word this daemon does not know — a fatal condition for the process.
pub open spec fn spec_battery_status_from(s: Seq<u8>) -> Option<BatteryStatus> {
    let t = spec_trim(TrimSet::Spaces, s);
    if t == spec_label_unknown() {
        Some(BatteryStatus::Unknown)
    } else if t == spec_label_charging() {
        Some(BatteryStatus::Charging)
    } else if t == spec_label_discharging() {
        Some(BatteryStatus::Discharging)
    } else if t == spec_label_not_charging() {
        Some(BatteryStatus::NotCharging)
    } else if t == spec_label_full() {
        Some(BatteryStatus::Full)
    } else {
        None
    }
}

/// Whether the byte slices hold the same bytes.
fn slice_eq(a: &[u8], b: &[u8]) -> (r: bool)
    ensures
        r == (a@ == b@),
{
    if a.len() != b.len() {
        return false;
    }
    let n = a.len();
    for i in 0..n
        invariant
            n == a@.len() == b@.len(),
            forall|j: int| 0 <= j < i ==> a@[j] == b@[j],
    {
        if a[i] != b[i] {
            return false;
        }
    }
    proof {
        assert(a@ =~= b@);
    }
    true
}

/// Interpret a raw status-file content exactly as
/// [`spec_battery_status_from`] reads it.
pub fn battery_status_from(s: &[u8]) -> (r: Option<BatteryStatus>)
    ensures
        r == spec_battery_status_from(s@),
{
    let t = trim_bytes(TrimSet::Spaces, s);
    let unknown: [u8; 7] = [85, 110, 107, 110, 111, 119, 110];
    let charging: [u8; 8] = [67, 104, 97, 114, 103, 105, 110, 103];
    let discharging: [u8; 11] = [68, 105, 115, 99, 104, 97, 114, 103, 105, 110, 103];
    let not_charging: [u8; 12] = [78, 111, 116, 32, 99, 104, 97, 114, 103, 105, 110, 103];
    let full: [u8; 4] = [70, 117, 108, 108];
    proof {
        assert(unknown@ =~= spec_label_unknown());
        assert(charging@ =~= spec_label_charging());
        assert(discharging@ =~= spec_label_discharging());
        assert(not_charging@ =~= spec_label_not_charging());
        assert(full@ =~= spec_label_full());
    }
    if slice_eq(t.as_slice(), unknown.as_slice()) {
        Some(BatteryStatus::Unknown)
    } else if slice_eq(t.as_slice(), charging.as_slice()) {
        Some(BatteryStatus::Charging)
    } else if slice_eq(t.as_slice(), discharging.as_slice()) {
        Some(BatteryStatus::Discharging)
    } else if slice_eq(t.as_slice(), not_charging.as_slice()) {
        Some(BatteryStatus::NotCharging)
    } else if slice_eq(t.as_slice(), full.as_slice()) {
        Some(BatteryStatus::Full)
    } else {
        None
    }
}

/// Whether a state counts as charging for the idle timers.
pub open spec fn spec_counts_as_charging(st: BatteryStatus) -> bool {
    match st {
        BatteryStatus::Charging => true,
        BatteryStatus::Full => true,
        BatteryStatus::Unknown => false,
        BatteryStatus::Discharging => false,
        BatteryStatus::NotCharging => false,
    }
}

/// Runtime form of [`spec_counts_as_charging`].
pub fn counts_as_charging(st: BatteryStatus) -> (r: bool)
    ensures
        r == spec_counts_as_charging(st),
{
    match st {
        BatteryStatus::Charging => true,
        BatteryStatus::Full => true,
        BatteryStatus::Unknown => false,
        BatteryStatus::Discharging => false,
        BatteryStatus::NotCharging => false,
    }
}

} // verus!
