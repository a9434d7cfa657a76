//! The token cache: what a look into the cache file can find, and whether
//! what was found may be used.

use crate::token::{now, AccessToken, AccessTokenView, Instant};
use vstd::prelude::*;

verus! {

/// What reading the cache file came to.
#[derive(Debug)]
pub enum CacheLookup {
    /// There is no cache file.
    Missing,
    /// Whether there is a cache file could not be found out.
    Unreachable,
    /// The cache file is there and could not be read.
    Unreadable,
    /// The cache file was read and does not hold a token.
    Malformed,
    /// The cache file holds this token.
    Record(AccessToken),
}

/// What a [`CacheLookup`] holds.
pub enum CacheLookupView {
    Missing,
    Unreachable,
    Unreadable,
    Malformed,
    Record(AccessTokenView),
}

impl View for CacheLookup {
    type V = CacheLookupView;

    open spec fn view(&self) -> CacheLookupView {
        match self {
            CacheLookup::Missing => CacheLookupView::Missing,
            CacheLookup::Unreachable => CacheLookupView::Unreachable,
            CacheLookup::Unreadable => CacheLookupView::Unreadable,
            CacheLookup::Malformed => CacheLookupView::Malformed,
            CacheLookup::Record(t) => CacheLookupView::Record(t@),
        }
    }
}

/// Why the cache gave no usable token.
#[derive(Debug, Clone, Copy, PartialEq, Eq, Structural)]
pub enum CacheError {
    /// There is no cache file.
    Miss,
    /// The file system failed.
    Io,
    /// The cache file does not hold a token.
    Corrupt,
    /// The cached token is no longer valid.
    Expired,
}

/// The verdict on a lookup at the instant `now`: the cached token if there
/// is one and it is still valid, else the reason why there is none.
pub open spec fn cache_verdict(lookup: CacheLookupView, now: Instant) -> Result<
    AccessTokenView,
    CacheError,
> {
    match lookup {
        CacheLookupView::Missing => Err(CacheError::Miss),
        CacheLookupView::Unreachable => Err(CacheError::Io),
        CacheLookupView::Unreadable => Err(CacheError::Io),
        CacheLookupView::Malformed => Err(CacheError::Corrupt),
        CacheLookupView::Record(token) => if token.valid_at(now) {
            Ok(token)
        } else {
            Err(CacheError::Expired)
        },
    }
}

/// The view of a verdict.
pub open spec fn verdict_view(r: Result<AccessToken, CacheError>) -> Result<
    AccessTokenView,
    CacheError,
> {
    match r {
        Ok(t) => Ok(t@),
        Err(e) => Err(e),
    }
}

/// Judges a lookup at the instant `now`.
pub fn judge_lookup(lookup: CacheLookup, now: &Instant) -> (r: Result<AccessToken, CacheError>)
    ensures
        verdict_view(r) == cache_verdict(lookup@, *now),
        lookup matches CacheLookup::Record(t) ==> (r is Ok ==> r->Ok_0 == t),
{
    match lookup {
        CacheLookup::Missing => Err(CacheError::Miss),
        CacheLookup::Unreachable => Err(CacheError::Io),
        CacheLookup::Unreadable => Err(CacheError::Io),
        CacheLookup::Malformed => Err(CacheError::Corrupt),
        CacheLookup::Record(token) => {
            if token.is_valid_at(now) {
                Ok(token)
            } else {
                Err(CacheError::Expired)
            }
        },
    }
}

/// Judges a lookup at the present instant, as the system clock gives it.
/// Time enters nowhere else: the result is the verdict of [`judge_lookup`]
/// at some instant.
pub fn get_access_token_from_cache(lookup: CacheLookup) -> (r: Result<AccessToken, CacheError>)
    ensures
        exists|at: Instant| #[trigger] cache_verdict(lookup@, at) == verdict_view(r),
        !(lookup is Record) ==> forall|at: Instant| #[trigger]
            cache_verdict(lookup@, at) == verdict_view(r),
        lookup matches CacheLookup::Record(t) ==> (r is Ok ==> r->Ok_0 == t),
{
    let at: Instant = now();
    let r = judge_lookup(lookup, &at);
    assert(cache_verdict(lookup@, at) == verdict_view(r));
    r
}

/// Only a recorded token is ever handed out, only while it is valid, and
/// the verdict on anything else does not depend on the time.
pub proof fn lemma_cache_verdict(lookup: CacheLookupView, now: Instant, later: Instant)
    ensures
        cache_verdict(lookup, now) is Ok <==> (lookup matches CacheLookupView::Record(t)
            && now.is_before(t.expired_at)),
        cache_verdict(lookup, now) matches Ok(t) ==> lookup == CacheLookupView::Record(t),
        !(lookup is Record) ==> cache_verdict(lookup, now) == cache_verdict(lookup, later),
        lookup matches CacheLookupView::Record(t) && t.expired_at == now ==> cache_verdict(
            lookup,
            now,
        ) == Err::<AccessTokenView, CacheError>(CacheError::Expired),
{
}

} // verus!
