//! Helpers that narrow a many-row result to exactly one value.
//!
//! A query hands back a result of an optional or repeated row; these
//! helpers flatten it to a single value, turning absence into the
//! caller's not-found error and passing any other error through
//! unchanged. They are generic over the error so the driver adapter can
//! instantiate them with its own error domain.

use vstd::prelude::*;

verus! {

/// Flatten an optional row: absence becomes `not_found`, a present row
/// is kept, and an error is passed through unchanged.
pub fn not_opt<T, E>(result: Result<Option<T>, E>, not_found: E) -> (r: Result<T, E>)
    ensures
        match result {
            Ok(row) => match row {
                Some(t) => r == Ok::<T, E>(t),
                None => r == Err::<T, E>(not_found),
            },
            Err(e) => r == Err::<T, E>(e),
        },
{
    match result {
        Ok(Some(t)) => Ok(t),
        Ok(None) => Err(not_found),
        Err(e) => Err(e),
    }
}

/// Keep only the first row: an empty result becomes `not_found`, and an
/// error is passed through unchanged.
pub fn first_only<V, E>(result: Result<Vec<V>, E>, not_found: E) -> (r: Result<V, E>)
    ensures
        match result {
            Ok(rows) => if rows@.len() == 0 {
                r == Err::<V, E>(not_found)
            } else {
                r == Ok::<V, E>(rows@[0])
            },
            Err(e) => r == Err::<V, E>(e),
        },
{
    match result {
        Ok(mut rows) => {
            if rows.len() == 0 {
                Err(not_found)
            } else {
                Ok(rows.remove(0))
            }
        },
        Err(e) => Err(e),
    }
}

} // verus!
