//! The cap on the length of identifier lists.

use vstd::prelude::*;

verus! {

/// The largest number of entries that a list sent to the platform may hold.
pub const MAX_LIMIT: usize = 100;

/// The first [`MAX_LIMIT`] entries of `s`, or all of `s` if it has fewer.
pub open spec fn limited<T>(s: Seq<T>) -> Seq<T> {
    if s.len() > MAX_LIMIT {
        s.take(MAX_LIMIT as int)
    } else {
        s
    }
}

/// Cuts a list down to its first [`MAX_LIMIT`] entries.
pub fn limit_vec<T>(vec_data: Vec<T>) -> (r: Vec<T>)
    ensures
        r@ == limited(vec_data@),
{
    let mut vec_data = vec_data;
    if vec_data.len() > MAX_LIMIT {
        vec_data.truncate(MAX_LIMIT);
    }
    vec_data
}

/// Cutting a list that was cut already changes nothing, and no cut list is
/// longer than [`MAX_LIMIT`].
pub proof fn lemma_limited_idempotent<T>(s: Seq<T>)
    ensures
        limited(s).len() <= MAX_LIMIT,
        limited(limited(s)) == limited(s),
        limited(s).is_prefix_of(s),
{
}

} // verus!
