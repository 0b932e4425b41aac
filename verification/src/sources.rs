//! Liveness bookkeeping for the event source multiplexer.
//!
//! The multiplexer itself is the one blocking point of the daemon and
//! lives outside this library; what is kept here is its only state: which
//! of the registered devices are still readable.  A device that reports
//! end-of-file or a read error is marked failed and stays failed — it is
//! excluded from every later wait — while all other devices keep
//! delivering events.  A failure is never fatal to the process.

use vstd::prelude::*;

verus! {

/// The liveness of every registered device, by registration index.
pub struct SourceSet {
    alive: Vec<bool>,
}

impl View for SourceSet {
    type V = Seq<bool>;

    closed spec fn view(&self) -> Seq<bool> {
        self.alive@
    }
}

impl SourceSet {
    /// A fresh set of `n` devices, all readable.
    pub fn new(n: usize) -> (s: SourceSet)
        ensures
            s@.len() == n,
            forall|i: int| 0 <= i < n ==> s@[i],
    {
        let mut alive: Vec<bool> = Vec::new();
        let mut k: usize = 0;
        while k < n
            invariant
                k <= n,
                alive@.len() == k,
                forall|i: int| 0 <= i < k ==> alive@[i],
            decreases n - k,
        {
            alive.push(true);
            k = k + 1;
        }
        SourceSet { alive }
    }

    /// How many devices are registered.
    pub fn len(&self) -> (n: usize)
        ensures
            n == self@.len(),
    {
        self.alive.len()
    }

    /// Whether device `i` is still readable.
    pub fn is_alive(&self, i: usize) -> (r: bool)
        requires
            i < self@.len(),
        ensures
            r == self@[i as int],
    {
        self.alive[i]
    }

    /// Mark device `i` failed: it alone becomes permanently unready, and
    /// every other device keeps its state.
    pub fn mark_failed(&mut self, i: usize)
        requires
            i < old(self)@.len(),
        ensures
            final(self)@ == old(self)@.update(i as int, false),
    {
        self.alive.set(i, false);
    }
}

/// Failure isolation: marking one device failed leaves the liveness of
/// every other device exactly as it was, so events of the other devices
/// keep flowing through the same and all later iterations.
pub proof fn lemma_failure_isolation(before: Seq<bool>, i: int, j: int)
    requires
        0 <= i < before.len(),
        0 <= j < before.len(),
        j != i,
    ensures
        before.update(i, false)[j] == before[j],
{
}

} // verus!
