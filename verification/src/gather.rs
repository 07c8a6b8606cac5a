//! The scatter-gather counter: how many copies of a fan-out batch have
//! converged so far.
//!
//! The counter only ever goes up, by one for each run of the convergent step.
//! A batch is complete at the run that brings the count to the fan-out scale.
//! The counter is not reset after that, so a later run signals nothing.

use vstd::prelude::*;

verus! {

/// Whether the run that brings the count to `count` completes a batch of
/// `scale` copies.
pub open spec fn completes(count: nat, scale: nat) -> bool {
    count == scale
}

/// How many of the first `runs` runs, counted from zero, complete a batch of
/// `scale` copies.
pub open spec fn completions(runs: nat, scale: nat) -> nat
    decreases runs,
{
    if runs == 0 {
        0
    } else {
        completions((runs - 1) as nat, scale) + if completes(runs, scale) {
            1nat
        } else {
            0nat
        }
    }
}

/// A batch of `scale` copies is complete exactly once: at run number `scale`,
/// never before it and never again after it.
pub proof fn lemma_completes_exactly_once(runs: nat, scale: nat)
    requires
        scale >= 1,
    ensures
        completions(runs, scale) == if runs < scale {
            0nat
        } else {
            1nat
        },
    decreases runs,
{
    if runs > 0 {
        lemma_completes_exactly_once((runs - 1) as nat, scale);
    }
}

/// Counts the runs of the convergent step.
#[derive(Debug)]
pub struct GatherCounter {
    count: u32,
}

impl View for GatherCounter {
    type V = nat;

    closed spec fn view(&self) -> nat {
        self.count as nat
    }
}

impl GatherCounter {
    /// A counter that has seen no run.
    pub fn new() -> (counter: GatherCounter)
        ensures
            counter@ == 0,
    {
        GatherCounter { count: 0 }
    }

    /// The number of runs seen.
    pub fn count(&self) -> (count: u32)
        ensures
            count == self@,
    {
        self.count
    }

    /// Whether the counter can take one more run.
    pub fn has_room(&self) -> (yes: bool)
        ensures
            yes == (self@ < u32::MAX),
    {
        self.count < u32::MAX
    }

    /// Counts one more run, and says whether that run completes a batch of
    /// `scale` copies.
    pub fn record(&mut self, scale: u32) -> (complete: bool)
        requires
            old(self)@ < u32::MAX,
        ensures
            final(self)@ == old(self)@ + 1,
            complete == completes(final(self)@, scale as nat),
    {
        self.count = self.count + 1;
        self.count == scale
    }
}

} // verus!
