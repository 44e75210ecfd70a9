//! Views of results and options whose contents have views.

use vstd::prelude::*;

verus! {

/// The view of what a result holds.
pub open spec fn viewed<A: View, B: View>(outcome: Result<A, B>) -> Result<A::V, B::V> {
    match outcome {
        Ok(value) => Ok(value@),
        Err(error) => Err(error@),
    }
}

/// The view of what an option holds.
pub open spec fn viewed_option<A: View>(value: Option<A>) -> Option<A::V> {
    match value {
        Some(value) => Some(value@),
        None => None,
    }
}

} // verus!
