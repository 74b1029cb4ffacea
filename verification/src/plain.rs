//! Plain forms: how values with owned text are compared in contracts.
use vstd::prelude::*;

verus! {

/// The characters of an optional string.
pub open spec fn text_view(text: Option<String>) -> Option<Seq<char>> {
    match text {
        Some(s) => Some(s@),
        None => None,
    }
}

/// Whether a result and its plain form say the same.
pub open spec fn same<T: View, E: View>(result: Result<T, E>, plain: Result<T::V, E::V>) -> bool {
    match result {
        Ok(value) => plain == Ok::<T::V, E::V>(value@),
        Err(error) => plain == Err::<T::V, E::V>(error@),
    }
}

/// The plain form of a result.
pub open spec fn plain<T: View, E: View>(result: Result<T, E>) -> Result<T::V, E::V> {
    match result {
        Ok(value) => Ok(value@),
        Err(error) => Err(error@),
    }
}

} // verus!
