use vstd::prelude::*;

use crate::encoder::{Encoder, Params};

verus! {

/// What a drain sequence does next.
#[derive(Debug, Clone, Copy, PartialEq, Eq, Structural)]
pub enum Step {
    /// Nothing is left: the sequence is over.
    Exhausted,
    /// Ask the engine for one more delayed frame, with no new input.
    Pull,
}

/// The next step of a drain sequence, from whether it is already over and the
/// number of frames the engine still holds back (none when zero or below).
pub open spec fn step_of(exhausted: bool, delayed: int) -> Step {
    if exhausted || delayed <= 0 {
        Step::Exhausted
    } else {
        Step::Pull
    }
}

/// The steps a drain sequence takes when the engine reports `reports`, one
/// count per call.
pub open spec fn outcomes(exhausted: bool, reports: Seq<int>) -> Seq<Step>
    decreases reports.len(),
{
    if reports.len() == 0 {
        Seq::empty()
    } else {
        let s = step_of(exhausted, reports[0]);
        seq![s] + outcomes(s == Step::Exhausted, reports.drop_first())
    }
}

pub struct FlushView {
    pub params: Params,
    pub exhausted: bool,
}

/// The end-of-stream sequence: it owns the encoder, so no frame can be
/// submitted any more, and pulls the frames the engine held back until none
/// is left.
#[derive(Debug)]
pub struct Flush {
    encoder: Encoder,
    exhausted: bool,
}

impl View for Flush {
    type V = FlushView;

    closed spec fn view(&self) -> FlushView {
        FlushView { params: self.encoder@, exhausted: self.exhausted }
    }
}

impl Flush {
    pub(crate) fn new(encoder: Encoder) -> (r: Flush)
        ensures
            r@.params == encoder@,
            !r@.exhausted,
    {
        Flush { encoder, exhausted: false }
    }

    /// Decides the next step, given the number of frames the engine still
    /// holds back. Once the sequence is over it stays over, whatever the
    /// engine reports.
    pub fn next(&mut self, delayed: i32) -> (r: Step)
        ensures
            r == step_of(old(self)@.exhausted, delayed as int),
            final(self)@.exhausted == (r == Step::Exhausted),
            final(self)@.params == old(self)@.params,
    {
        if self.exhausted || delayed <= 0 {
            self.exhausted = true;
            Step::Exhausted
        } else {
            Step::Pull
        }
    }

    /// Whether the sequence is over.
    pub fn is_exhausted(&self) -> (r: bool)
        ensures
            r == self@.exhausted,
    {
        self.exhausted
    }

    /// The encoder being drained.
    pub fn encoder(&self) -> (r: &Encoder)
        ensures
            r@ == self@.params,
    {
        &self.encoder
    }
}

/// Draining ends exactly at the first report of no delayed frames and stays
/// ended: the step at position `i` is the terminal one if and only if the
/// sequence was already over or some report up to `i` was zero or below.
pub proof fn drain_ends_at_first_empty_report(exhausted: bool, reports: Seq<int>, i: int)
    requires
        0 <= i < reports.len(),
    ensures
        outcomes(exhausted, reports).len() == reports.len(),
        (outcomes(exhausted, reports)[i] == Step::Exhausted) <==> (exhausted || exists|k: int|
            0 <= k <= i && reports[k] <= 0),
    decreases reports.len(),
{
    outcomes_len(exhausted, reports);
    let s = step_of(exhausted, reports[0]);
    let rest = reports.drop_first();
    if i == 0 {
        if reports[0] <= 0 {
            assert(exists|k: int| 0 <= k <= i && reports[k] <= 0);
        }
    } else {
        drain_ends_at_first_empty_report(s == Step::Exhausted, rest, i - 1);
        assert(outcomes(exhausted, reports)[i] == outcomes(s == Step::Exhausted, rest)[i - 1]);
        if exists|k: int| 0 <= k <= i - 1 && rest[k] <= 0 {
            let k = choose|k: int| 0 <= k <= i - 1 && rest[k] <= 0;
            assert(reports[k + 1] <= 0);
        }
        if exists|k: int| 0 <= k <= i && reports[k] <= 0 {
            let k = choose|k: int| 0 <= k <= i && reports[k] <= 0;
            if k > 0 {
                assert(rest[k - 1] <= 0);
            }
        }
    }
}

/// Once a drain sequence has reported that nothing is left, every later step
/// reports the same.
pub proof fn exhaustion_is_final(exhausted: bool, reports: Seq<int>, i: int, j: int)
    requires
        0 <= i <= j < reports.len(),
        outcomes(exhausted, reports)[i] == Step::Exhausted,
    ensures
        outcomes(exhausted, reports)[j] == Step::Exhausted,
{
    drain_ends_at_first_empty_report(exhausted, reports, i);
    drain_ends_at_first_empty_report(exhausted, reports, j);
    if !exhausted {
        let k = choose|k: int| 0 <= k <= i && reports[k] <= 0;
        assert(0 <= k <= j && reports[k] <= 0);
    }
}

proof fn outcomes_len(exhausted: bool, reports: Seq<int>)
    ensures
        outcomes(exhausted, reports).len() == reports.len(),
    decreases reports.len(),
{
    if reports.len() > 0 {
        outcomes_len(step_of(exhausted, reports[0]) == Step::Exhausted, reports.drop_first());
    }
}

} // verus!
