//! Helpers for fallible operations.

use vstd::prelude::*;

verus! {

/// The pair of two results: both values, or the first fault met, the one of
/// `res1` before the one of `res2`.
pub open spec fn paired<T1, T2, E>(res1: Result<T1, E>, res2: Result<T2, E>) -> Result<(T1, T2), E> {
    match res1 {
        Ok(v1) => match res2 {
            Ok(v2) => Ok((v1, v2)),
            Err(e) => Err(e),
        },
        Err(e) => Err(e),
    }
}

/// Joins two results into one result of a pair.
pub fn pair_result<T1, T2, E>(res1: Result<T1, E>, res2: Result<T2, E>) -> (r: Result<(T1, T2), E>)
    ensures
        r == paired(res1, res2),
{
    match res1 {
        Ok(v1) => match res2 {
            Ok(v2) => Ok((v1, v2)),
            Err(e) => Err(e),
        },
        Err(e) => Err(e),
    }
}

} // verus!
