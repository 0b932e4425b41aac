//! The action dispatch table.
//!
//! A binding maps one button code to an abstract action, gated by a
//! per-feature enable flag.  Two independent tables are active, one while
//! the modifier is held (chorded) and one while it is not, each a
//! priority list: the first binding whose code matches the event and
//! whose feature is enabled wins.  A disabled binding does not shadow a
//! later enabled one.  Which concrete buttons map to which actions comes
//! from the resolved configuration; the table itself is immutable once
//! built.

use vstd::prelude::*;
use crate::event::ButtonCode;

verus! {

/// The abstract actions a binding can trigger.  Each is carried out by a
/// capability of the surrounding system; the core only decides which one
/// fires.
#[derive(Clone, Copy, Debug, PartialEq, Eq, Structural)]
pub enum Action {
    BrightnessUp,
    BrightnessDown,
    DarkOn,
    DarkOff,
    VolumeUp,
    VolumeDown,
    VolumeMute,
    VolumeNormalize,
    PerformanceMax,
    PerformanceNormal,
    WifiOn,
    WifiOff,
    BluetoothToggle,
    SpeakerToggle,
    HeadphonesInserted,
    HeadphonesRemoved,
    Suspend,
    PowerOff,
}

/// One entry of a dispatch table.
#[derive(Clone, Copy, Debug, PartialEq, Eq, Structural)]
pub struct Binding {
    pub code: ButtonCode,
    pub enabled: bool,
    pub action: Action,
}

/// The first enabled binding of `bindings` whose code is `code`, in
/// declaration order.
pub open spec fn spec_lookup(bindings: Seq<Binding>, code: ButtonCode) -> Option<Action>
    decreases bindings.len(),
{
    if bindings.len() == 0 {
        None
    } else if bindings[0].code == code && bindings[0].enabled {
        Some(bindings[0].action)
    } else {
        spec_lookup(bindings.drop_first(), code)
    }
}

/// The chorded and unchorded binding tables.
pub struct DispatchTable {
    chorded: Vec<Binding>,
    unchorded: Vec<Binding>,
}

impl DispatchTable {
    /// The bindings active for a given modifier state.
    pub closed spec fn spec_bindings(&self, modifier_held: bool) -> Seq<Binding> {
        if modifier_held {
            self.chorded@
        } else {
            self.unchorded@
        }
    }

    /// Build a table from the two priority lists.
    pub fn new(chorded: Vec<Binding>, unchorded: Vec<Binding>) -> (t: DispatchTable)
        ensures
            t.spec_bindings(true) == chorded@,
            t.spec_bindings(false) == unchorded@,
    {
        DispatchTable { chorded, unchorded }
    }

    /// The action bound to `code` under the given modifier state: the
    /// first enabled matching binding of the active table, if any.
    pub fn lookup(&self, modifier_held: bool, code: ButtonCode) -> (r: Option<Action>)
        ensures
            r == spec_lookup(self.spec_bindings(modifier_held), code),
    {
        let table: &Vec<Binding> = if modifier_held {
            &self.chorded
        } else {
            &self.unchorded
        };
        let ghost bs = table@;
        proof {
            assert(bs.skip(0) =~= bs);
        }
        let n = table.len();
        for i in 0..n
            invariant
                n == bs.len(),
                table@ == bs,
                self.spec_bindings(modifier_held) == bs,
                spec_lookup(bs, code) == spec_lookup(bs.skip(i as int), code),
        {
            let b = table[i];
            proof {
                assert(bs.skip(i as int).drop_first() =~= bs.skip(i + 1));
                assert(bs.skip(i as int)[0] == bs[i as int]);
            }
            if b.code == code && b.enabled {
                proof {
                    assert(bs.skip(i as int).len() > 0);
                    assert(spec_lookup(bs.skip(i as int), code) == Some(b.action));
                }
                return Some(b.action);
            }
        }
        proof {
            assert(bs.skip(n as int) =~= Seq::<Binding>::empty());
        }
        None
    }
}

} // verus!
