//! Raw input events, press classification, and decoding of the kernel's
//! on-the-wire event records.

use vstd::prelude::*;

verus! {

/// A semantic button or switch identifier.  The kernel input protocol
/// names an event by a pair: the event type (key, switch, absolute axis,
/// ...) and a code within that type, and two events are the same button
/// only when both halves agree.
#[derive(Clone, Copy, Debug, PartialEq, Eq, Structural)]
pub struct ButtonCode {
    pub ev_type: u16,
    pub code: u16,
}

/// One raw event read from an input device: which device produced it, the
/// button or switch it names, the value reported by the kernel (`0`
/// release, `1` press, greater or negative values autorepeat or analog
/// motion), and the timestamp the kernel attached to it, in microseconds.
#[derive(Clone, Copy, Debug, PartialEq, Eq, Structural)]
pub struct RawEvent {
    pub source: usize,
    pub code: ButtonCode,
    pub value: i32,
    pub time: u64,
}

/// How the dispatch table decides that an event is a press.  Which
/// granularity applies is a property of the device family, so it is part
/// of the resolved configuration rather than hard-coded.
#[derive(Clone, Copy, Debug, PartialEq, Eq, Structural)]
pub enum PressPolicy {
    /// Only an exact press (`value == 1`) is dispatched.
    PressOnly,
    /// A press or an autorepeat (`value >= 1`) is dispatched.
    PressOrRepeat,
}

/// Whether an event value counts as a dispatchable press under `policy`.
pub open spec fn spec_is_dispatch_press(policy: PressPolicy, value: i32) -> bool {
    match policy {
        PressPolicy::PressOnly => value == 1,
        PressPolicy::PressOrRepeat => value >= 1,
    }
}

/// Runtime form of [`spec_is_dispatch_press`].
pub fn is_dispatch_press(policy: PressPolicy, value: i32) -> (r: bool)
    ensures
        r == spec_is_dispatch_press(policy, value),
{
    match policy {
        PressPolicy::PressOnly => value == 1,
        PressPolicy::PressOrRepeat => value >= 1,
    }
}

/// The little-endian value of two bytes.
pub open spec fn spec_le16(b0: u8, b1: u8) -> int {
    b0 + 0x100 * b1
}

/// The little-endian value of four bytes.
pub open spec fn spec_le32(b0: u8, b1: u8, b2: u8, b3: u8) -> int {
    spec_le16(b0, b1) + 0x1_0000 * spec_le16(b2, b3)
}

/// The little-endian value of eight bytes.
pub open spec fn spec_le64(s: Seq<u8>) -> int
    recommends
        s.len() == 8,
{
    spec_le32(s[0], s[1], s[2], s[3]) + 0x1_0000_0000 * spec_le32(s[4], s[5], s[6], s[7])
}

/// The two kernel timestamp words folded into one microsecond count,
/// wrapping modulo 2^64.
pub open spec fn spec_fold_micros(sec: u64, usec: u64) -> u64 {
    vstd::wrapping::u64_specs::wrapping_add(
        vstd::wrapping::u64_specs::wrapping_mul(sec, 1_000_000),
        usec,
    )
}

/// The length in bytes of one kernel `input_event` record on an LP64
/// machine: two 64-bit timestamp words, type, code, and a 32-bit value.
pub const INPUT_EVENT_LEN: usize = 24;

/// The event a 24-byte kernel record describes, attributed to `source`.
/// The record lays out, little-endian: seconds (8 bytes), microseconds
/// (8 bytes), event type (2), code (2), signed value (4).
pub open spec fn spec_decoded_event(source: usize, b: Seq<u8>) -> RawEvent
    recommends
        b.len() == INPUT_EVENT_LEN,
{
    RawEvent {
        source,
        code: ButtonCode {
            ev_type: spec_le16(b[16], b[17]) as u16,
            code: spec_le16(b[18], b[19]) as u16,
        },
        value: spec_le32(b[20], b[21], b[22], b[23]) as u32 as i32,
        time: spec_fold_micros(
            spec_le64(b.subrange(0, 8)) as u64,
            spec_le64(b.subrange(8, 16)) as u64,
        ),
    }
}

/// Decode one kernel `input_event` record read raw from device `source`.
/// Returns `None` exactly when the slice is not a whole record.
pub fn decode_input_event(source: usize, b: &[u8]) -> (r: Option<RawEvent>)
    ensures
        match r {
            Some(e) => b@.len() == INPUT_EVENT_LEN && e == spec_decoded_event(source, b@),
            None => b@.len() != INPUT_EVENT_LEN,
        },
{
    if b.len() != INPUT_EVENT_LEN {
        return None;
    }
    let sec = read_le64(b, 0);
    let usec = read_le64(b, 8);
    let ev_type: u16 = b[16] as u16 + 0x100 * (b[17] as u16);
    let code: u16 = b[18] as u16 + 0x100 * (b[19] as u16);
    let value32: u32 = b[20] as u32 + 0x100 * (b[21] as u32) + 0x1_0000 * (b[22] as u32)
        + 0x100_0000 * (b[23] as u32);
    let time = sec.wrapping_mul(1_000_000).wrapping_add(usec);
    Some(
        RawEvent {
            source,
            code: ButtonCode { ev_type, code },
            value: #[verifier::truncate] (value32 as i32),
            time,
        },
    )
}

/// The little-endian value of the eight bytes of `b` starting at `at`.
fn read_le64(b: &[u8], at: usize) -> (r: u64)
    requires
        at + 8 <= b@.len(),
    ensures
        r == spec_le64(b@.subrange(at as int, at + 8)),
{
    let r: u64 = b[at] as u64 + 0x100 * (b[at + 1] as u64) + 0x1_0000 * (b[at + 2] as u64)
        + 0x100_0000 * (b[at + 3] as u64) + 0x1_0000_0000 * (b[at + 4] as u64)
        + 0x100_0000_0000 * (b[at + 5] as u64) + 0x1_0000_0000_0000 * (b[at + 6] as u64)
        + 0x100_0000_0000_0000 * (b[at + 7] as u64);
    proof {
        let s = b@.subrange(at as int, at + 8);
        assert(s[0] == b@[at as int] && s[1] == b@[at + 1] && s[2] == b@[at + 2] && s[3] == b@[at
            + 3] && s[4] == b@[at + 4] && s[5] == b@[at + 5] && s[6] == b@[at + 6] && s[7] == b@[at
            + 7]);
    }
    r
}

} // verus!
