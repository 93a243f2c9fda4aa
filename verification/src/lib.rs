//! Verification of signed tokens of the form `header.payload.signature`
//! against a key that a pluggable strategy resolves.
//!
//! [`verify`] runs the pipeline: it decodes the token, refuses one that has
//! expired or may not be used yet, has the strategy resolve the key, and has
//! the key check the signature over the first two segments as they stand in
//! the token. Every stage either goes on or ends the pipeline with an error
//! of its kind; nothing is tried twice.
//!
//! The shapes of the header and of the payload are the caller's: a type is
//! read from a JSON document through [`FromJson`] and answers the pipeline
//! through [`Header`] and [`Payload`]. A strategy is a [`KeyFetcher`]:
//! [`DirectFetcher`] hands out a key that it holds, and [`Auth0Fetcher`]
//! takes the key from the key set that the issuer of the token publishes.
//!
//! The contracts speak of what the caller's types and fetchers do through
//! `call_ensures`: `call_ensures(f, args, out)` holds where `out` is a result
//! that the call of `f` with `args` may give.

use vstd::prelude::*;

pub mod auth0;
pub mod b64;
pub mod decode;
pub mod error;
pub mod extract_jwt;
pub mod header;
pub mod json;
pub mod jwks;
pub mod key;
pub mod payload;
pub mod text;

pub use self::auth0::{Auth0Fetcher, Auth0Header, Auth0JwksFetcher, Auth0Payload};
pub use self::decode::from_raw_jwt;
pub use self::error::{AlgorithmKind, Error, ErrorKind, HeaderItem, PayloadItem};
pub use self::extract_jwt::from_authorization_header;
pub use self::header::Header;
pub use self::json::{FromJson, Json};
pub use self::jwks::{Jwk, Jwks};
pub use self::key::{DirectFetcher, Key, KeyFetcher};
pub use self::payload::Payload;

use self::decode::{token_reads, DELIMITER};
use self::payload::{expired_at, not_before_at};
use self::text::occurrences;

verus! {

/// The outcome of the two temporal checks: an expired token is refused as
/// expired, whatever else holds of it; one that has not expired and may not
/// be used yet is refused as such.
pub open spec fn validity(expired: bool, not_before: bool) -> Option<ErrorKind> {
    if expired {
        Some(ErrorKind::ExpiredToken)
    } else if not_before {
        Some(ErrorKind::NotBefore)
    } else {
        None
    }
}

/// A token that expired at the start of 1970 is refused as expired at any
/// time since, whatever else holds of it.
pub proof fn lemma_expired_at_epoch(now: i64, not_before: bool)
    requires
        now >= 0,
    ensures
        validity(expired_at(Some(0i64), now), not_before) == Some(ErrorKind::ExpiredToken),
{
}

/// A token that has not expired and is not to be used before the last
/// second that an `i64` holds is refused as not valid yet at any earlier
/// time.
pub proof fn lemma_not_before_at_latest(exp: Option<i64>, now: i64)
    requires
        !expired_at(exp, now),
        now < i64::MAX,
    ensures
        validity(expired_at(exp, now), not_before_at(Some(i64::MAX), now)) == Some(
            ErrorKind::NotBefore,
        ),
{
}

/// Refuses a token that has expired or may not be used yet.
pub fn check_validity(expired: bool, not_before: bool) -> (r: Result<(), Error>)
    ensures
        match r {
            Ok(_) => validity(expired, not_before) is None,
            Err(e) => validity(expired, not_before) == Some(e@),
        },
{
    if expired {
        Err(Error::new(ErrorKind::ExpiredToken))
    } else if not_before {
        Err(Error::new(ErrorKind::NotBefore))
    } else {
        Ok(())
    }
}

/// Whether the pipeline, handed `checked` by the key, may end in `out`: a
/// signature that the key found to match lets the payload through, one that
/// it found not to match is a failed validation, and an error of the key is
/// handed on as it is.
pub open spec fn concludes<P>(
    payload: P,
    checked: Result<bool, Error>,
    out: Result<P, Error>,
) -> bool {
    match checked {
        Ok(true) => out == Ok::<P, Error>(payload),
        Ok(false) => out matches Err(e) && e@ == ErrorKind::ValidationFail,
        Err(e) => out == Err::<P, Error>(e),
    }
}

/// Ends the pipeline on what the key found.
pub fn conclude<P>(payload: P, checked: Result<bool, Error>) -> (r: Result<P, Error>)
    ensures
        concludes(payload, checked, r),
{
    match checked {
        Ok(true) => Ok(payload),
        Ok(false) => Err(Error::new(ErrorKind::ValidationFail)),
        Err(e) => Err(e),
    }
}

/// Whether `jwt` may decode to the given header, payload, signed text and
/// signature, with a payload that passes both temporal checks.
pub open spec fn admitted<H: Header + FromJson, P: Payload + FromJson>(
    jwt: Seq<char>,
    header: H,
    payload: P,
    plain: &str,
    signature: Vec<u8>,
) -> bool {
    &&& token_reads::<H, P>(jwt, Some((header, payload, plain@, signature@)))
    &&& call_ensures(P::is_expired, (&payload,), false)
    &&& call_ensures(P::is_not_before, (&payload,), false)
}

/// Whether verifying `jwt` with `fetcher` may accept it with `payload`: the
/// token decodes to that payload, which passes both temporal checks; the
/// strategy, asked with the decoded header and payload, resolves a key; and
/// that key, asked with the signed text and the signature of the token,
/// finds that they match.
pub open spec fn accepts<H: Header + FromJson, P: Payload + FromJson, F: KeyFetcher<H, P>>(
    jwt: Seq<char>,
    fetcher: F,
    payload: P,
) -> bool {
    exists|header: H, plain: &str, signature: Vec<u8>, key: F::Key|
        {
            &&& #[trigger] admitted::<H, P>(jwt, header, payload, plain, signature)
            &&& #[trigger] call_ensures(
                F::fetch,
                (fetcher, &header, &payload),
                Ok::<F::Key, Error>(key),
            )
            &&& call_ensures(
                <F::Key as Key>::verify,
                (key, plain, signature),
                Ok::<bool, Error>(true),
            )
        }
}

/// Whether verifying `jwt` with `fetcher` may reject it with `error`, stage
/// by stage: the token does not decode (a malformed token); its payload has
/// expired; its payload may not be used yet; the strategy fails, with its
/// own error; the key fails, with its own error; the key finds that the
/// signature does not match.
pub open spec fn rejects<H: Header + FromJson, P: Payload + FromJson, F: KeyFetcher<H, P>>(
    jwt: Seq<char>,
    fetcher: F,
    error: Error,
) -> bool {
    ||| error@ == ErrorKind::WrongToken && token_reads::<H, P>(
        jwt,
        None::<(H, P, Seq<char>, Seq<u8>)>,
    )
    ||| exists|header: H, payload: P, plain: &str, signature: Vec<u8>|
        {
            &&& #[trigger] token_reads::<H, P>(jwt, Some((header, payload, plain@, signature@)))
            &&& exists|expired: bool, not_before: bool|
                {
                    &&& call_ensures(P::is_expired, (&payload,), expired)
                    &&& !expired ==> call_ensures(P::is_not_before, (&payload,), not_before)
                    &&& #[trigger] validity(expired, not_before) == Some(error@)
                }
        }
    ||| exists|header: H, payload: P, plain: &str, signature: Vec<u8>|
        {
            &&& #[trigger] admitted::<H, P>(jwt, header, payload, plain, signature)
            &&& call_ensures(F::fetch, (fetcher, &header, &payload), Err::<F::Key, Error>(error))
        }
    ||| exists|header: H, payload: P, plain: &str, signature: Vec<u8>, key: F::Key|
        {
            &&& #[trigger] admitted::<H, P>(jwt, header, payload, plain, signature)
            &&& #[trigger] call_ensures(
                F::fetch,
                (fetcher, &header, &payload),
                Ok::<F::Key, Error>(key),
            )
            &&& {
                ||| call_ensures(
                    <F::Key as Key>::verify,
                    (key, plain, signature),
                    Err::<bool, Error>(error),
                )
                ||| error@ == ErrorKind::ValidationFail && call_ensures(
                    <F::Key as Key>::verify,
                    (key, plain, signature),
                    Ok::<bool, Error>(false),
                )
            }
        }
}

/// Whether verifying `jwt` with `fetcher` may end in `out`.
pub open spec fn verifies<H: Header + FromJson, P: Payload + FromJson, F: KeyFetcher<H, P>>(
    jwt: Seq<char>,
    fetcher: F,
    out: Result<P, Error>,
) -> bool {
    match out {
        Ok(payload) => accepts::<H, P, F>(jwt, fetcher, payload),
        Err(error) => rejects::<H, P, F>(jwt, fetcher, error),
    }
}

/// A token that cannot be decoded is rejected as malformed, whatever the
/// strategy is.
pub proof fn lemma_undecodable_is_malformed<
    H: Header + FromJson,
    P: Payload + FromJson,
    F: KeyFetcher<H, P>,
>(jwt: Seq<char>, fetcher: F, out: Result<P, Error>)
    requires
        forall|header: H, payload: P, plain: Seq<char>, signature: Seq<u8>|
            !#[trigger] token_reads::<H, P>(jwt, Some((header, payload, plain, signature))),
        verifies::<H, P, F>(jwt, fetcher, out),
    ensures
        out matches Err(e) && e@ == ErrorKind::WrongToken,
{
}

/// With the direct strategy, a token is accepted only where it decodes to
/// the payload, the payload passes both temporal checks, and the key that
/// the strategy was made with finds that the signature matches.
pub proof fn lemma_direct_accepts<H: Header + FromJson, P: Payload + FromJson, K: Key>(
    jwt: Seq<char>,
    fetcher: DirectFetcher<K>,
    payload: P,
)
    ensures
        accepts::<H, P, DirectFetcher<K>>(jwt, fetcher, payload) ==> exists|
            header: H,
            plain: &str,
            signature: Vec<u8>,
        |
            {
                &&& #[trigger] admitted::<H, P>(jwt, header, payload, plain, signature)
                &&& call_ensures(
                    K::verify,
                    (fetcher.key, plain, signature),
                    Ok::<bool, Error>(true),
                )
            },
{
    if accepts::<H, P, DirectFetcher<K>>(jwt, fetcher, payload) {
        let (header, plain, signature, key) = choose|
            header: H,
            plain: &str,
            signature: Vec<u8>,
            key: K,
        |
            {
                &&& #[trigger] admitted::<H, P>(jwt, header, payload, plain, signature)
                &&& #[trigger] call_ensures(
                    <DirectFetcher<K> as KeyFetcher<H, P>>::fetch,
                    (fetcher, &header, &payload),
                    Ok::<K, Error>(key),
                )
                &&& call_ensures(K::verify, (key, plain, signature), Ok::<bool, Error>(true))
            };
        assert(key == fetcher.key);
        assert(admitted::<H, P>(jwt, header, payload, plain, signature));
    }
}

/// Verifies a token: decodes it, checks that it has not expired and may be
/// used already, has `fetcher` resolve the key, and has the key check the
/// signature over the first two segments as they stand in the token. The
/// payload comes back only if every stage succeeds.
pub fn verify<H, P, F>(jwt: String, fetcher: F) -> (r: Result<P, Error>) where
    H: Header + FromJson,
    P: Payload + FromJson,
    F: KeyFetcher<H, P>,

    ensures
        verifies::<H, P, F>(jwt@, fetcher, r),
        occurrences(jwt@, DELIMITER) != 2 ==> (r matches Err(e) && e@ == ErrorKind::WrongToken),
{
    let (header, payload, (plain, signature)) = match from_raw_jwt::<H, P>(jwt.as_str()) {
        Ok(decoded) => decoded,
        Err(e) => {
            return Err(e);
        },
    };
    let expired = payload.is_expired();
    let not_before = if expired {
        false
    } else {
        payload.is_not_before()
    };
    match check_validity(expired, not_before) {
        Ok(_) => {},
        Err(e) => {
            return Err(e);
        },
    }
    assert(admitted::<H, P>(jwt@, header, payload, plain, signature));
    let key = match fetcher.fetch(&header, &payload) {
        Ok(key) => key,
        Err(e) => {
            return Err(e);
        },
    };
    let checked = key.verify(plain, signature);
    conclude(payload, checked)
}

} // verus!
