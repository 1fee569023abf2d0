//! How values that hold strings are seen in contracts: a string is seen as
//! its sequence of characters, wherever it stands.

use vstd::prelude::*;

verus! {

/// The view of an optional value: the view of what it holds.
pub open spec fn optional_view<T: View>(value: Option<T>) -> Option<T::V> {
    match value {
        Some(inner) => Some(inner@),
        None => None,
    }
}

/// The view of a result: the view of the value it carries on success.
pub open spec fn result_view<T: View, E>(result: Result<T, E>) -> Result<T::V, E> {
    match result {
        Ok(value) => Ok(value@),
        Err(error) => Err(error),
    }
}

/// The view of a list of name-value pairs, such as form fields or headers.
pub open spec fn pairs_view(pairs: Seq<(String, String)>) -> Seq<(Seq<char>, Seq<char>)> {
    pairs.map_values(|pair: (String, String)| (pair.0@, pair.1@))
}

} // verus!
