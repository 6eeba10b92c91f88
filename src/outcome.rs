//! How an executable operation relates to the spec function that states it.
use vstd::prelude::*;

verus! {

/// `r` is what an operation with this `outcome` returns, and `after` the
/// accounts it leaves: the new accounts on success, the old ones untouched on
/// failure.
pub open spec fn settles<C, E, X>(
    outcome: Result<(C, E), X>,
    before: C,
    after: C,
    r: Result<E, X>,
) -> bool {
    match outcome {
        Ok((next, event)) => after == next && r == Ok::<E, X>(event),
        Err(e) => after == before && r == Err::<E, X>(e),
    }
}

} // verus!
