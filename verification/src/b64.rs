//! Base64 text, as the `base64` crate decodes it.

use vstd::prelude::*;

verus! {

/// `base64::DecodeError`: why a text was rejected, never read.
#[verifier::external_type_specification]
#[verifier::external_body]
pub struct ExDecodeError(base64::DecodeError);

/// The bytes that `base64` decodes `text` to under its configuration
/// `URL_SAFE_NO_PAD` (the alphabet with `-` and `_`), `None` where it rejects
/// the text.
pub uninterp spec fn url_safe_decoding(text: Seq<char>) -> Option<Seq<u8>>;

/// The bytes that `base64` decodes `text` to under its configuration
/// `STANDARD` (the alphabet with `+` and `/`), `None` where it rejects the
/// text.
pub uninterp spec fn standard_decoding(text: Seq<char>) -> Option<Seq<u8>>;

/// Calls `base64::decode_config` with `base64::URL_SAFE_NO_PAD`. The contract
/// claims that the outcome depends on the text alone. The call computes
/// buffer sizes from the length of the text plus a few bytes and panics if
/// that overflows, which no text that fits in memory reaches.
#[verifier::external_body]
pub(crate) fn decode_url_safe(text: &str) -> (r: Result<Vec<u8>, base64::DecodeError>)
    ensures
        r matches Ok(bytes) ==> url_safe_decoding(text@) == Some(bytes@),
        r is Err ==> url_safe_decoding(text@) is None,
{
    base64::decode_config(text, base64::URL_SAFE_NO_PAD)
}

/// Calls `base64::decode`, which decodes under `base64::STANDARD`. The
/// contract claims that the outcome depends on the text alone. The call
/// computes buffer sizes from the length of the text plus a few bytes and
/// panics if that overflows, which no text that fits in memory reaches.
#[verifier::external_body]
pub(crate) fn decode_standard(text: &str) -> (r: Result<Vec<u8>, base64::DecodeError>)
    ensures
        r matches Ok(bytes) ==> standard_decoding(text@) == Some(bytes@),
        r is Err ==> standard_decoding(text@) is None,
{
    base64::decode(text)
}

} // verus!
