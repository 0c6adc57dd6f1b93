//! The injected monotonic clock, behind one trusted interface.

use vstd::prelude::*;
use trice::Instant;

verus! {

/// `trice::Instant` (`std::time::Instant` on native targets): an opaque
/// reading of the platform's monotonic clock.
#[verifier::external_type_specification]
#[verifier::external_body]
pub struct ExInstant(Instant);

/// Relies on `trice::Instant::now` and `Instant`'s `Ord` impl: returns
/// whether the current monotonic instant is at or past `deadline`, so
/// reaching the deadline exactly already counts. The result depends on the
/// time of the call, so nothing relates one call to another.
#[verifier::external_body]
pub(crate) fn instant_elapsed(deadline: &Instant) -> bool {
    *deadline <= Instant::now()
}

} // verus!
