//! The mathematical model of the cancellation predicate.
//!
//! An instant on the monotonic clock is modelled as a plain tick count
//! (`u64`), and the signal cells as the sequence of boolean values they hold
//! at the moment of observation. `done_spec` is the predicate itself:
//! `is_done` on the runtime type answers `done_spec` for the clock reading
//! and cell values it observes.

use vstd::prelude::*;

verus! {

/// A deadline has expired at `now` when one is present and `now` is at or
/// past it: the boundary itself counts as expired.
pub open spec fn expired_spec(deadline: Option<u64>, now: u64) -> bool {
    match deadline {
        Some(d) => now >= d,
        None => false,
    }
}

/// At least one signal in the sequence is set.
pub open spec fn any_set_spec(signals: Seq<bool>) -> bool {
    exists|i: int| 0 <= i < signals.len() && signals[i]
}

/// The whole predicate: done exactly when the deadline has expired or at
/// least one signal is set.
pub open spec fn done_spec(deadline: Option<u64>, now: u64, signals: Seq<bool>) -> bool {
    expired_spec(deadline, now) || any_set_spec(signals)
}

/// Returns whether any of the observed signal values is set, scanning in
/// order and stopping at the first set one.
pub fn any_set(signals: &Vec<bool>) -> (r: bool)
    ensures
        r == any_set_spec(signals@),
{
    let mut i: usize = 0;
    while i < signals.len()
        invariant
            0 <= i <= signals@.len(),
            forall|j: int| 0 <= j < i ==> !signals@[j],
        decreases signals@.len() - i,
    {
        if signals[i] {
            return true;
        }
        i += 1;
    }
    false
}

/// Decides the poll from one round of observations: the clock's verdict on
/// the deadline, and the values the cells held when they were read. True
/// exactly when the deadline had expired or at least one observed value is
/// set; the deadline is consulted first, and a set signal suffices wherever
/// it sits.
pub fn decide(expired: bool, signals: &Vec<bool>) -> (r: bool)
    ensures
        r == (expired || any_set_spec(signals@)),
{
    if expired {
        return true;
    }
    any_set(signals)
}

/// Evaluates the predicate on plain values: the deadline test at `now` first,
/// then the signals in order.
pub fn eval(deadline: Option<u64>, now: u64, signals: &Vec<bool>) -> (r: bool)
    ensures
        r == done_spec(deadline, now, signals@),
{
    let expired: bool = match deadline {
        Some(d) => now >= d,
        None => false,
    };
    decide(expired, signals)
}

/// Background work never finishes: with no deadline and no signal cells the
/// predicate is false at every instant.
pub proof fn lemma_background_never_done(now: u64)
    ensures
        !done_spec(None, now, Seq::<bool>::empty()),
{
}

/// With a deadline and no signal cells, the predicate holds exactly when the
/// clock has reached the deadline, the boundary included.
pub proof fn lemma_deadline_boundary(t: u64, now: u64)
    ensures
        done_spec(Some(t), now, Seq::<bool>::empty()) == (now >= t),
{
}

/// The predicate is the pure disjunction of its two sources: it holds iff
/// the deadline has expired or at least one signal is set, independent of
/// which signal it is or how many are set.
pub proof fn lemma_pure_disjunction(deadline: Option<u64>, now: u64, signals: Seq<bool>)
    ensures
        done_spec(deadline, now, signals) <==> (expired_spec(deadline, now) || exists|i: int|
            0 <= i < signals.len() && signals[i]),
{
}

/// One set signal suffices, wherever it sits in the sequence.
pub proof fn lemma_one_signal_suffices(
    deadline: Option<u64>,
    now: u64,
    signals: Seq<bool>,
    i: int,
)
    requires
        0 <= i < signals.len(),
        signals[i],
    ensures
        done_spec(deadline, now, signals),
{
}

/// On a non-decreasing clock, with signals that only ever flip from unset to
/// set, the predicate never falls back from true to false: a later
/// observation of the same value is still done.
pub proof fn lemma_done_is_monotonic(
    deadline: Option<u64>,
    now1: u64,
    now2: u64,
    s1: Seq<bool>,
    s2: Seq<bool>,
)
    requires
        now1 <= now2,
        s1.len() == s2.len(),
        forall|i: int| 0 <= i < s1.len() && s1[i] ==> s2[i],
        done_spec(deadline, now1, s1),
    ensures
        done_spec(deadline, now2, s2),
{
    if any_set_spec(s1) {
        let i = choose|i: int| 0 <= i < s1.len() && s1[i];
        assert(s2[i]);
    }
}

} // verus!
