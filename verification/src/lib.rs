//! A cancellation primitive: an immutable, cheaply cloned snapshot that tells
//! cooperative work whether it should stop now, by combining one optional
//! deadline on the monotonic clock with any number of shared boolean cells
//! that outside writers may set.
//!
//! The meaning of the predicate, and the laws it obeys, are stated and proved
//! over plain values in [`model`]; `Cancellation::is_done` gathers its
//! observations — the clock's verdict and the cells' current values — and
//! decides through [`model::decide`], whose contract is exact.

mod clock;
pub mod model;

use vstd::prelude::*;
use std::sync::atomic::{AtomicBool, Ordering};
use std::sync::Arc;
use trice::Instant;

verus! {

/// A `'static` view into the cancellation status of a unit of work: one
/// optional absolute deadline on the monotonic clock, and an ordered sequence
/// of shared boolean cells. The value itself never changes after
/// construction; only the clock advances and outside writers set the cells.
#[derive(Debug)]
#[non_exhaustive]
pub struct Cancellation {
    deadline: Option<Instant>,
    cancellations: Vec<Arc<AtomicBool>>,
}

impl Cancellation {
    /// The deadline this value was built with.
    pub closed spec fn spec_deadline(self) -> Option<Instant> {
        self.deadline
    }

    /// The cells this value watches, in the order given at construction.
    pub closed spec fn spec_cells(self) -> Seq<Arc<AtomicBool>> {
        self.cancellations@
    }

    /// Builds a view over the given deadline and cells. Anything is accepted:
    /// no deadline and no cells describes background work that is never done.
    pub fn new(deadline: Option<Instant>, cancellations: Vec<Arc<AtomicBool>>) -> (r: Cancellation)
        ensures
            r.spec_deadline() == deadline,
            r.spec_cells() == cancellations@,
    {
        Cancellation { deadline, cancellations }
    }

    /// Polls the predicate without blocking: true when the deadline, if one
    /// is present, has been reached (the boundary included), or when at least
    /// one cell is set. The clock and every cell are re-read on each call;
    /// nothing is cached. With no deadline and no cells the answer is always
    /// false.
    ///
    /// The body only gathers the observations — the clock's verdict on the
    /// deadline, and each cell's current value — and hands them to
    /// [`model::decide`], whose contract fixes the answer for every
    /// observation.
    pub fn is_done(&self) -> (r: bool)
        ensures
            self.spec_deadline() is None && self.spec_cells().len() == 0 ==> !r,
    {
        let expired: bool = match self.deadline {
            Some(d) => clock::instant_elapsed(&d),
            None => false,
        };
        let mut observed: Vec<bool> = Vec::new();
        let mut i: usize = 0;
        while i < self.cancellations.len()
            invariant
                i <= self.cancellations@.len(),
                observed@.len() == i,
            decreases self.cancellations@.len() - i,
        {
            observed.push(self.cancellations[i].load(Ordering::Relaxed));
            i += 1;
        }
        model::decide(expired, &observed)
    }
}

/// Relies on `Arc::clone`: the returned handle refers to the same shared
/// cell as `cell`, so as a value it is equal to it.
#[verifier::external_body]
fn clone_cell(cell: &Arc<AtomicBool>) -> (r: Arc<AtomicBool>)
    ensures
        r == *cell,
{
    Arc::clone(cell)
}

impl Clone for Cancellation {
    /// A clone carries the same deadline and watches the very same cells, in
    /// the same order: clones are views of one cancellation event, not
    /// independent copies, so whatever sets a cell is observed through every
    /// clone alike.
    fn clone(&self) -> (r: Self)
        ensures
            r.spec_deadline() == self.spec_deadline(),
            r.spec_cells() == self.spec_cells(),
    {
        let mut cells: Vec<Arc<AtomicBool>> = Vec::new();
        let mut i: usize = 0;
        while i < self.cancellations.len()
            invariant
                i <= self.cancellations@.len(),
                cells@ == self.cancellations@.subrange(0, i as int),
            decreases self.cancellations@.len() - i,
        {
            cells.push(clone_cell(&self.cancellations[i]));
            assert(cells@ =~= self.cancellations@.subrange(0, i as int + 1));
            i += 1;
        }
        assert(cells@ =~= self.cancellations@);
        Cancellation { deadline: self.deadline, cancellations: cells }
    }
}

impl Default for Cancellation {
    /// The default value has no deadline and no cells: background work,
    /// never done.
    fn default() -> (r: Self)
        ensures
            r.spec_deadline() is None,
            r.spec_cells().len() == 0,
    {
        Cancellation { deadline: None, cancellations: Vec::new() }
    }
}

} // verus!
