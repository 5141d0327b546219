//! Views of optional and fallible values.

use vstd::prelude::*;

verus! {

/// What an optional value is.
pub open spec fn option_view<T: View>(value: Option<T>) -> Option<T::V> {
    match value {
        Some(value) => Some(value@),
        None => None,
    }
}

/// What the outcome of a fallible function is.
pub open spec fn result_view<T: View, E>(outcome: Result<T, E>) -> Result<T::V, E> {
    match outcome {
        Ok(value) => Ok(value@),
        Err(error) => Err(error),
    }
}

/// The byte strings of a list.
pub open spec fn encodings<T: View<V = Seq<u8>>>(items: Seq<T>) -> Seq<Seq<u8>> {
    items.map_values(|item: T| item@)
}

} // verus!
