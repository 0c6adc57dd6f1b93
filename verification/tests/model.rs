//! Exact-value checks of the predicate's model, through the verified
//! evaluator.

use cancellation::model::{any_set, decide, eval};

#[test]
fn decide_is_the_or_of_the_observations() {
    assert!(!decide(false, &Vec::new()));
    assert!(decide(true, &Vec::new()));
    assert!(!decide(false, &vec![false, false]));
    assert!(decide(false, &vec![false, true]));
    assert!(decide(false, &vec![true, false]));
    assert!(decide(true, &vec![false, false]));
}

#[test]
fn no_deadline_no_signals_is_never_done() {
    for now in [0u64, 1, 17, u64::MAX] {
        assert!(!eval(None, now, &Vec::new()));
    }
}

#[test]
fn model_boundary_is_inclusive() {
    assert!(!eval(Some(5), 4, &Vec::new()));
    assert!(eval(Some(5), 5, &Vec::new()));
    assert!(eval(Some(5), 6, &Vec::new()));
}

#[test]
fn deadline_at_zero_is_always_expired() {
    assert!(eval(Some(0), 0, &Vec::new()));
    assert!(eval(Some(0), u64::MAX, &Vec::new()));
}

#[test]
fn pure_disjunction_of_sources() {
    // Neither source: false.
    assert!(!eval(None, 9, &vec![false, false, false]));
    // Deadline alone.
    assert!(eval(Some(3), 9, &vec![false, false, false]));
    // One signal alone, wherever it sits.
    assert!(eval(None, 9, &vec![true, false, false]));
    assert!(eval(None, 9, &vec![false, true, false]));
    assert!(eval(None, 9, &vec![false, false, true]));
    // Several signals, or both sources at once.
    assert!(eval(None, 9, &vec![true, true, true]));
    assert!(eval(Some(3), 9, &vec![true, false, false]));
}

#[test]
fn signals_alone_with_future_deadline() {
    assert!(!eval(Some(100), 9, &vec![false, false]));
    assert!(eval(Some(100), 9, &vec![false, true]));
}

#[test]
fn any_set_scans_every_position() {
    assert!(!any_set(&Vec::new()));
    assert!(!any_set(&vec![false]));
    assert!(any_set(&vec![true]));
    assert!(!any_set(&vec![false, false, false, false]));
    assert!(any_set(&vec![false, false, false, true]));
}
