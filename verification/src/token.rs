//! Access tokens and the instants at which they expire.

use vstd::prelude::*;
use vstd::string::*;

verus! {

/// A point on the UTC time line: whole seconds since the Unix epoch and the
/// nanoseconds into that second. Instants are ordered by `secs`, then `nanos`.
#[derive(Clone, Copy, Debug, PartialEq, Eq, Structural)]
pub struct Instant {
    pub secs: i64,
    pub nanos: u32,
}

impl Instant {
    /// Whether `self` lies strictly before `other`.
    pub open spec fn is_before(self, other: Instant) -> bool {
        self.secs < other.secs || (self.secs == other.secs && self.nanos < other.nanos)
    }

    pub fn new(secs: i64, nanos: u32) -> (r: Instant)
        ensures
            r.secs == secs,
            r.nanos == nanos,
    {
        Instant { secs, nanos }
    }

    /// Decides `self < other`.
    pub fn before(&self, other: &Instant) -> (r: bool)
        ensures
            r == self.is_before(*other),
    {
        self.secs < other.secs || (self.secs == other.secs && self.nanos < other.nanos)
    }
}

/// The order of instants is strict and total: of two instants exactly one of
/// "before", "equal" and "after" holds.
pub proof fn lemma_instant_order_total(a: Instant, b: Instant)
    ensures
        a.is_before(b) || a == b || b.is_before(a),
        !(a.is_before(b) && b.is_before(a)),
        !a.is_before(a),
{
}

/// `chrono::Utc::now`, read as an [`Instant`] through `DateTime::timestamp`
/// and `DateTime::timestamp_subsec_nanos`. Nothing is claimed of the value:
/// it is whatever the system clock says. chrono panics where that clock is
/// set before 1970.
#[verifier::external_body]
pub(crate) fn now() -> Instant {
    let t = chrono::Utc::now();
    Instant { secs: t.timestamp(), nanos: t.timestamp_subsec_nanos() }
}

/// The credential that authorises calls to the platform, with the instant at
/// which it stops being accepted.
#[derive(Debug)]
pub struct AccessToken {
    pub access_token: String,
    pub expired_at: Instant,
}

/// What an [`AccessToken`] holds.
pub struct AccessTokenView {
    pub access_token: Seq<char>,
    pub expired_at: Instant,
}

impl View for AccessToken {
    type V = AccessTokenView;

    open spec fn view(&self) -> AccessTokenView {
        AccessTokenView { access_token: self.access_token@, expired_at: self.expired_at }
    }
}

impl DeepView for AccessToken {
    type V = AccessTokenView;

    open spec fn deep_view(&self) -> AccessTokenView {
        self@
    }
}

impl AccessTokenView {
    /// A token is valid at `now` exactly when `now` lies before its expiry;
    /// at the instant of expiry it is already expired.
    pub open spec fn valid_at(self, now: Instant) -> bool {
        now.is_before(self.expired_at)
    }
}

impl Clone for AccessToken {
    fn clone(&self) -> (r: Self)
        ensures
            r == *self,
    {
        AccessToken { access_token: self.access_token.clone(), expired_at: self.expired_at }
    }
}

impl AccessToken {
    pub fn new(access_token: String, expired_at: Instant) -> (r: AccessToken)
        ensures
            r.access_token == access_token,
            r.expired_at == expired_at,
    {
        AccessToken { access_token, expired_at }
    }

    /// Decides whether the token is still valid at `now`.
    pub fn is_valid_at(&self, now: &Instant) -> (r: bool)
        ensures
            r == self@.valid_at(*now),
    {
        now.before(&self.expired_at)
    }
}

impl Default for AccessToken {
    /// A placeholder that expires at the instant at which it is made.
    fn default() -> (r: AccessToken)
        ensures
            r.access_token@ == "123"@,
    {
        AccessToken { access_token: String::from_str("123"), expired_at: now() }
    }
}

} // verus!
