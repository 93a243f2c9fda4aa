//! What the pipeline and a key-resolution strategy may ask of a token's
//! payload, and the rules on when a token is valid.

use vstd::prelude::*;

verus! {

/// Whether a token that expires at `exp` has expired at the time `now`, both
/// in seconds since 1970-01-01T00:00:00Z. A token expires at its time of
/// expiry, and one without such a time counts as expired.
pub open spec fn expired_at(exp: Option<i64>, now: i64) -> bool {
    match exp {
        Some(at) => at <= now,
        None => true,
    }
}

/// Whether a token that is not to be used before `nbf` is still to be
/// refused at the time `now`, both in seconds since 1970-01-01T00:00:00Z. A
/// token may be used from its time on, and one without such a time is
/// refused.
pub open spec fn not_before_at(nbf: Option<i64>, now: i64) -> bool {
    match nbf {
        Some(at) => at > now,
        None => true,
    }
}

/// Whether a token that expires at `exp` has expired at the time `now`.
pub fn is_expired_at(exp: Option<i64>, now: i64) -> (expired: bool)
    ensures
        expired == expired_at(exp, now),
{
    match exp {
        Some(at) => at <= now,
        None => true,
    }
}

/// Whether a token that is not to be used before `nbf` is still to be
/// refused at the time `now`.
pub fn is_not_before_at(nbf: Option<i64>, now: i64) -> (refused: bool)
    ensures
        refused == not_before_at(nbf, now),
{
    match nbf {
        Some(at) => at > now,
        None => true,
    }
}

/// Reads the clock: calls `time::now_utc` and takes the seconds of its
/// `to_timespec`. Nothing is claimed of the reading. The call panics only
/// where the system cannot turn its own clock reading into a calendar date.
#[verifier::external_body]
pub(crate) fn now_seconds() -> i64 {
    time::now_utc().to_timespec().sec
}

/// Whether `now` is a reading of the clock: what `now_seconds` may give.
pub closed spec fn clock_reads(now: i64) -> bool {
    call_ensures(now_seconds, (), now)
}

/// The payload of a token. Each accessor answers `None` unless the type says
/// otherwise, and the two checks go by the clock and the accessors: a token
/// that names no time of expiry counts as expired, and one that names no
/// time from which it may be used is refused. A type for which such a claim
/// is optional says so by answering the check itself.
pub trait Payload {
    /// The issuer of the token.
    fn get_iss(&self) -> (iss: Option<String>)
        default_ensures
            iss is None,
    {
        None
    }

    /// When the token expires, in seconds since 1970-01-01T00:00:00Z.
    fn get_exp(&self) -> (exp: Option<i64>)
        default_ensures
            exp is None,
    {
        None
    }

    /// Whether the token has expired by now.
    fn is_expired(&self) -> (expired: bool)
        default_ensures
            exists|exp: Option<i64>, now: i64|
                {
                    &&& call_ensures(Self::get_exp, (self,), exp)
                    &&& clock_reads(now)
                    &&& expired == #[trigger] expired_at(exp, now)
                },
    {
        let exp = self.get_exp();
        let now = now_seconds();
        is_expired_at(exp, now)
    }

    /// From when on the token may be used, in seconds since
    /// 1970-01-01T00:00:00Z.
    fn get_nbf(&self) -> (nbf: Option<i64>)
        default_ensures
            nbf is None,
    {
        None
    }

    /// Whether the token may not be used yet.
    fn is_not_before(&self) -> (refused: bool)
        default_ensures
            exists|nbf: Option<i64>, now: i64|
                {
                    &&& call_ensures(Self::get_nbf, (self,), nbf)
                    &&& clock_reads(now)
                    &&& refused == #[trigger] not_before_at(nbf, now)
                },
    {
        let nbf = self.get_nbf();
        let now = now_seconds();
        is_not_before_at(nbf, now)
    }
}

} // verus!
