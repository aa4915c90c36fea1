//! Helpers for the mathematical models that the contracts are stated over.

use vstd::prelude::*;

verus! {

/// The model of an optional value: the model of what it holds, if anything.
pub open spec fn view_of<T: View>(value: Option<T>) -> Option<T::V> {
    match value {
        Some(value) => Some(value@),
        None => None,
    }
}

} // verus!
