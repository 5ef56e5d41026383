use solar_system::kepler::{tolerance, Outcome, Refinement, Verdict, MAX_CORRECTIONS};
use solar_system::rational::Rational;

/// Feeds the observations to a fresh refinement until it stops or they run
/// out, and returns the corrections applied and the last verdict.
fn refine(observations: &[bool]) -> (u32, Option<Verdict>) {
    let mut refinement = Refinement::begin();
    let mut last = None;
    for within_tolerance in observations {
        let verdict = refinement.record(*within_tolerance);
        last = Some(verdict);
        if verdict != Verdict::Refine {
            break;
        }
    }
    (refinement.corrections(), last)
}

#[test]
fn cap_is_ten_corrections() {
    assert_eq!(MAX_CORRECTIONS, 10);
}

#[test]
fn tolerance_is_ten_to_the_minus_twelve() {
    assert_eq!(tolerance(), Rational { numerator: 1, denominator: 1_000_000_000_000 });
    assert_eq!(tolerance().numerator as f64 / tolerance().denominator as f64, 1e-12);
}

#[test]
fn a_fresh_refinement_has_applied_nothing() {
    let refinement = Refinement::begin();
    assert_eq!(refinement.corrections(), 0);
    assert_eq!(refinement.outcome(), None);
}

#[test]
fn a_first_small_correction_converges_at_once() {
    let mut refinement = Refinement::begin();
    assert_eq!(refinement.record(true), Verdict::Stop(Outcome::Converged));
    assert_eq!(refinement.corrections(), 1);
    assert_eq!(refinement.outcome(), Some(Outcome::Converged));
}

#[test]
fn a_large_correction_asks_for_another() {
    let mut refinement = Refinement::begin();
    assert_eq!(refinement.record(false), Verdict::Refine);
    assert_eq!(refinement.corrections(), 1);
    assert_eq!(refinement.outcome(), None);
    assert_eq!(refinement.record(false), Verdict::Refine);
    assert_eq!(refinement.corrections(), 2);
}

#[test]
fn refinement_stops_at_the_first_small_correction() {
    assert_eq!(
        refine(&[false, false, false, true, false, true]),
        (4, Some(Verdict::Stop(Outcome::Converged)))
    );
}

#[test]
fn the_tenth_correction_is_the_last() {
    let mut refinement = Refinement::begin();
    for applied in 1..10 {
        assert_eq!(refinement.record(false), Verdict::Refine);
        assert_eq!(refinement.corrections(), applied);
    }
    assert_eq!(refinement.record(false), Verdict::Stop(Outcome::CapReached));
    assert_eq!(refinement.corrections(), 10);
    assert_eq!(refinement.outcome(), Some(Outcome::CapReached));
}

#[test]
fn a_small_tenth_correction_converges() {
    let mut observations = [false; 10];
    observations[9] = true;
    assert_eq!(refine(&observations), (10, Some(Verdict::Stop(Outcome::Converged))));
}

#[test]
fn an_ended_refinement_stays_as_it_is() {
    let mut converged = Refinement::begin();
    converged.record(false);
    converged.record(true);
    assert_eq!(converged.record(false), Verdict::Stop(Outcome::Converged));
    assert_eq!(converged.record(true), Verdict::Stop(Outcome::Converged));
    assert_eq!(converged.corrections(), 2);

    let mut capped = Refinement::begin();
    for _ in 0..10 {
        capped.record(false);
    }
    assert_eq!(capped.record(true), Verdict::Stop(Outcome::CapReached));
    assert_eq!(capped.record(false), Verdict::Stop(Outcome::CapReached));
    assert_eq!(capped.corrections(), 10);
    assert_eq!(capped.outcome(), Some(Outcome::CapReached));
}

#[test]
fn no_series_of_observations_applies_more_than_ten_corrections() {
    for pattern in 0u32..(1 << 12) {
        let observations: Vec<bool> = (0..12).map(|bit| pattern & (1 << bit) != 0).collect();
        let (corrections, last) = refine(&observations);
        let first_within = observations.iter().position(|within| *within).unwrap_or(12);
        if first_within < 10 {
            assert_eq!(corrections as usize, first_within + 1);
            assert_eq!(last, Some(Verdict::Stop(Outcome::Converged)));
        } else {
            assert_eq!(corrections, 10);
            assert_eq!(last, Some(Verdict::Stop(Outcome::CapReached)));
        }
    }
}
