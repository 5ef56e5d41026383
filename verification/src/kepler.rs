//! The policy that bounds the refinement of Kepler's equation.
//!
//! Kepler's equation `E - e sin E = M` is solved by Newton's method from the
//! first guess `E = M`. The caller computes each correction and applies it;
//! this module counts the corrections and says when to stop: as soon as a
//! correction is smaller than the tolerance, and after the tenth correction
//! at the latest. The estimate in hand at that point is the result, whether
//! or not the method has converged.

use crate::rational::Rational;
use vstd::prelude::*;

verus! {

/// Largest number of corrections that one refinement applies.
pub const MAX_CORRECTIONS: u32 = 10;

/// The tolerance, `10^-12` radians: a correction of smaller magnitude ends the
/// refinement.
pub open spec fn spec_tolerance() -> Rational {
    Rational { numerator: 1, denominator: 1_000_000_000_000 }
}

/// The tolerance, `10^-12` radians.
#[verifier::when_used_as_spec(spec_tolerance)]
pub fn tolerance() -> (tolerance: Rational)
    ensures
        tolerance == spec_tolerance(),
{
    Rational { numerator: 1, denominator: 1_000_000_000_000 }
}

/// How a refinement ended.
#[derive(Clone, Copy, Debug, PartialEq, Eq, Structural)]
pub enum Outcome {
    /// The last correction was smaller than the tolerance.
    Converged,
    /// Ten corrections were applied and the last one was not smaller than
    /// the tolerance: the estimate may be short of the solution.
    CapReached,
}

/// What to do after a correction.
#[derive(Clone, Copy, Debug, PartialEq, Eq, Structural)]
pub enum Verdict {
    /// Compute and apply another correction.
    Refine,
    /// Take the estimate as it is.
    Stop(Outcome),
}

/// How far a refinement has come: the corrections applied so far, and how it
/// ended if it has.
pub struct Progress {
    pub corrections: nat,
    pub outcome: Option<Outcome>,
}

/// The progress of a refinement that has not begun.
pub open spec fn start() -> Progress {
    Progress { corrections: 0, outcome: None }
}

/// The progress after one more correction has been applied, which was smaller
/// than the tolerance or not. A refinement that has ended stays as it is.
pub open spec fn step(progress: Progress, within_tolerance: bool) -> Progress {
    if progress.outcome is Some {
        progress
    } else if within_tolerance {
        Progress { corrections: progress.corrections + 1, outcome: Some(Outcome::Converged) }
    } else if progress.corrections + 1 >= MAX_CORRECTIONS {
        Progress { corrections: progress.corrections + 1, outcome: Some(Outcome::CapReached) }
    } else {
        Progress { corrections: progress.corrections + 1, outcome: None }
    }
}

/// What the progress asks for.
pub open spec fn verdict_of(progress: Progress) -> Verdict {
    match progress.outcome {
        None => Verdict::Refine,
        Some(outcome) => Verdict::Stop(outcome),
    }
}

/// The progress after a series of corrections, each recorded as smaller than
/// the tolerance or not.
pub open spec fn run(observations: Seq<bool>) -> Progress
    decreases observations.len(),
{
    if observations.len() == 0 {
        start()
    } else {
        step(run(observations.drop_last()), observations.last())
    }
}

/// Number of observations before the first that is within tolerance, or the
/// number of all observations if none is.
pub open spec fn first_within(observations: Seq<bool>) -> nat
    decreases observations.len(),
{
    if observations.len() == 0 || observations.first() {
        0
    } else {
        1 + first_within(observations.drop_first())
    }
}

/// The running count of one refinement.
#[derive(Debug)]
pub struct Refinement {
    corrections: u32,
    outcome: Option<Outcome>,
}

impl View for Refinement {
    type V = Progress;

    closed spec fn view(&self) -> Progress {
        Progress { corrections: self.corrections as nat, outcome: self.outcome }
    }
}

impl Refinement {
    #[verifier::type_invariant]
    spec fn within_cap(self) -> bool {
        match self.outcome {
            None => self.corrections < MAX_CORRECTIONS,
            Some(_) => self.corrections <= MAX_CORRECTIONS,
        }
    }

    /// A refinement to which no correction has been applied yet.
    pub fn begin() -> (refinement: Refinement)
        ensures
            refinement@ == start(),
    {
        Refinement { corrections: 0, outcome: None }
    }

    /// Records that one more correction has been applied, and whether its
    /// magnitude was below the tolerance; says what to do next.
    pub fn record(&mut self, within_tolerance: bool) -> (verdict: Verdict)
        ensures
            final(self)@ == step(old(self)@, within_tolerance),
            verdict == verdict_of(final(self)@),
    {
        proof {
            use_type_invariant(&*self);
        }
        match self.outcome {
            Some(outcome) => Verdict::Stop(outcome),
            None => {
                let corrections: u32 = self.corrections + 1;
                if within_tolerance {
                    *self = Refinement { corrections, outcome: Some(Outcome::Converged) };
                    Verdict::Stop(Outcome::Converged)
                } else if corrections >= MAX_CORRECTIONS {
                    *self = Refinement { corrections, outcome: Some(Outcome::CapReached) };
                    Verdict::Stop(Outcome::CapReached)
                } else {
                    *self = Refinement { corrections, outcome: None };
                    Verdict::Refine
                }
            },
        }
    }

    /// Number of corrections applied so far.
    pub fn corrections(&self) -> (corrections: u32)
        ensures
            corrections == self@.corrections,
    {
        self.corrections
    }

    /// How the refinement ended, if it has.
    pub fn outcome(&self) -> (outcome: Option<Outcome>)
        ensures
            outcome == self@.outcome,
    {
        self.outcome
    }
}

/// Whatever is observed, a refinement applies one correction per
/// observation up to and including the first that is within tolerance, and
/// never more than ten. It has converged exactly if that observation is
/// among the first ten, it has reached the cap exactly if the first ten
/// observations are all outside the tolerance, and it goes on otherwise.
pub proof fn lemma_run_stops_at_first_within_or_cap(observations: Seq<bool>)
    ensures
        run(observations).corrections <= MAX_CORRECTIONS,
        run(observations).corrections <= observations.len(),
        first_within(observations) < observations.len() && first_within(observations)
            < MAX_CORRECTIONS ==> run(observations) == (Progress {
            corrections: first_within(observations) + 1,
            outcome: Some(Outcome::Converged),
        }),
        first_within(observations) >= MAX_CORRECTIONS ==> run(observations) == (Progress {
            corrections: MAX_CORRECTIONS as nat,
            outcome: Some(Outcome::CapReached),
        }),
        first_within(observations) == observations.len() && observations.len() < MAX_CORRECTIONS
            ==> run(observations) == (Progress {
            corrections: observations.len(),
            outcome: None,
        }),
    decreases observations.len(),
{
    if observations.len() > 0 {
        let earlier = observations.drop_last();
        lemma_run_stops_at_first_within_or_cap(earlier);
        lemma_first_within_of_longer(earlier, observations.last());
        assert(earlier.push(observations.last()) == observations);
    }
}

/// One more observation at the end leaves the first within tolerance where
/// it was, unless there was none: then the new observation is the first if
/// it is within tolerance.
proof fn lemma_first_within_of_longer(observations: Seq<bool>, last: bool)
    ensures
        first_within(observations) <= observations.len(),
        first_within(observations) < observations.len() ==> first_within(observations.push(last))
            == first_within(observations),
        first_within(observations) == observations.len() && last ==> first_within(
            observations.push(last),
        ) == observations.len(),
        first_within(observations) == observations.len() && !last ==> first_within(
            observations.push(last),
        ) == observations.len() + 1,
    decreases observations.len(),
{
    let longer = observations.push(last);
    if observations.len() == 0 {
        assert(longer.drop_first().len() == 0);
        assert(first_within(longer) == if last {
            0nat
        } else {
            1 + first_within(longer.drop_first())
        });
    } else {
        lemma_first_within_of_longer(observations.drop_first(), last);
        assert(longer.drop_first() == observations.drop_first().push(last));
    }
}

} // verus!
