//! The count of steps at which a point's orbit was outside the escape radius.

use vstd::prelude::*;
use crate::shade::{intensity_spec, is_intensity, lemma_intensity_range};

verus! {

/// The running count for one point. The recurrence itself is the caller's;
/// after each step the caller reports whether the orbit is outside the
/// radius. The run has a fixed length: it does not stop at the first escape,
/// and every step outside the radius counts.
#[derive(Clone, Copy, Debug, PartialEq, Eq)]
pub struct EscapeTally {
    /// The number of steps the run has.
    pub max_iterations: usize,
    /// The number of steps reported so far.
    pub steps: usize,
    /// How many of them were outside the radius.
    pub escaped: usize,
}

impl EscapeTally {
    /// No more steps were outside than were taken, and no more taken than the run has.
    pub open spec fn wf(&self) -> bool {
        self.escaped <= self.steps <= self.max_iterations
    }

    /// The tally of a run of `max_iterations` steps, none taken yet.
    pub fn new(max_iterations: usize) -> (tally: EscapeTally)
        ensures
            tally.wf(),
            tally.max_iterations == max_iterations,
            tally.steps == 0,
            tally.escaped == 0,
    {
        EscapeTally { max_iterations, steps: 0, escaped: 0 }
    }

    /// Whether every step of the run has been reported.
    pub fn is_done(&self) -> (done: bool)
        ensures
            done == (self.steps == self.max_iterations),
    {
        self.steps == self.max_iterations
    }

    /// Takes the report of one more step: `outside` says whether the orbit
    /// was beyond the escape radius after it.
    pub fn record(&mut self, outside: bool)
        requires
            old(self).wf(),
            old(self).steps < old(self).max_iterations,
        ensures
            final(self).wf(),
            final(self).max_iterations == old(self).max_iterations,
            final(self).steps == old(self).steps + 1,
            final(self).escaped == old(self).escaped + (if outside { 1int } else { 0int }),
    {
        self.steps = self.steps + 1;
        if outside {
            self.escaped = self.escaped + 1;
        }
    }

    /// How many steps were outside the radius.
    pub fn escaped(&self) -> (escaped: usize)
        ensures
            escaped == self.escaped,
    {
        self.escaped
    }
}

/// Whatever was reported, the count lies between 0 and the length of the
/// run, so it has a gray level, and that lies between 0 and 255.
pub proof fn lemma_tally_has_intensity(tally: EscapeTally)
    requires
        tally.wf(),
        tally.max_iterations >= 1,
    ensures
        0 <= tally.escaped <= tally.max_iterations,
        is_intensity(
            tally.escaped as nat,
            tally.max_iterations as nat,
            intensity_spec(tally.escaped as nat, tally.max_iterations as nat),
        ),
        0 <= intensity_spec(tally.escaped as nat, tally.max_iterations as nat) <= 255,
{
    lemma_intensity_range(tally.escaped as nat, tally.max_iterations as nat);
}

} // verus!
