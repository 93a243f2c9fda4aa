//! The codec: from the text of a token to its header, its payload, the text
//! that was signed, and the signature.

use vstd::prelude::*;
use vstd::string::StrSliceExecFns;

use crate::b64::{decode_url_safe, url_safe_decoding};
use crate::error::{Error, ErrorKind};
use crate::json::{json_document, parse_json, FromJson, Json, JsonView};
use crate::text::{
    chars_of, last_index, lemma_last_index, lemma_last_index_of_join, occurrences, tally,
};

verus! {

/// The character between the segments of a token.
pub const DELIMITER: char = '.';

/// The JSON document that a segment encodes: the segment is base64 text in
/// the URL-safe alphabet, and the bytes it decodes to are JSON text.
pub open spec fn segment_document(segment: Seq<char>) -> Option<JsonView> {
    match url_safe_decoding(segment) {
        Some(bytes) => json_document(bytes),
        None => None,
    }
}

/// Whether reading a `T` from `segment` may give `out`: `T::from_json` may
/// give it for the document that the segment encodes, and a segment that
/// encodes no document gives `None`.
pub open spec fn reads<T: FromJson>(segment: Seq<char>, out: Option<T>) -> bool {
    match segment_document(segment) {
        Some(holds) => exists|document: Json|
            document@ == holds && #[trigger] call_ensures(T::from_json, (&document,), out),
        None => out is None,
    }
}

/// Whether reading a header and a payload from `encoded` may give `out`.
/// `encoded` must hold exactly one delimiter; the header is read from what
/// stands before it, the payload from what stands after it.
pub open spec fn encoded_reads<H: FromJson, P: FromJson>(
    encoded: Seq<char>,
    out: Option<(H, P)>,
) -> bool {
    if occurrences(encoded, DELIMITER) == 1 {
        let dot = last_index(encoded, DELIMITER).unwrap();
        let left = encoded.subrange(0, dot);
        let right = encoded.subrange(dot + 1, encoded.len() as int);
        match out {
            Some((header, payload)) => reads::<H>(left, Some(header)) && reads::<P>(
                right,
                Some(payload),
            ),
            None => reads::<H>(left, None) || reads::<P>(right, None),
        }
    } else {
        out is None
    }
}

/// The text that was signed and the signature: what stands before the last
/// delimiter of `jwt`, as it is, and the bytes that what stands after it
/// decodes to.
pub open spec fn signed_parts(jwt: Seq<char>) -> Option<(Seq<char>, Seq<u8>)> {
    match last_index(jwt, DELIMITER) {
        Some(dot) => match url_safe_decoding(jwt.subrange(dot + 1, jwt.len() as int)) {
            Some(signature) => Some((jwt.subrange(0, dot), signature)),
            None => None,
        },
        None => None,
    }
}

/// Whether decoding `jwt` may give `out`: a header, a payload, the text that
/// was signed and the signature.
pub open spec fn token_reads<H: FromJson, P: FromJson>(
    jwt: Seq<char>,
    out: Option<(H, P, Seq<char>, Seq<u8>)>,
) -> bool {
    match signed_parts(jwt) {
        Some((plain, signature)) => match out {
            Some((header, payload, signed, bytes)) => signed == plain && bytes == signature
                && encoded_reads::<H, P>(plain, Some((header, payload))),
            None => encoded_reads::<H, P>(plain, None::<(H, P)>),
        },
        None => out is None,
    }
}

/// A token that does not have exactly three segments decodes to nothing.
pub proof fn lemma_three_segments<H: FromJson, P: FromJson>(
    jwt: Seq<char>,
    out: Option<(H, P, Seq<char>, Seq<u8>)>,
)
    requires
        occurrences(jwt, DELIMITER) != 2,
        token_reads::<H, P>(jwt, out),
    ensures
        out is None,
{
    lemma_last_index(jwt, DELIMITER);
}

/// The token with the given three segments.
pub open spec fn token_of(header: Seq<char>, payload: Seq<char>, signature: Seq<char>) -> Seq<
    char,
> {
    header + seq![DELIMITER] + payload + seq![DELIMITER] + signature
}

/// Each part of what decoding gives comes from its own segment: the header
/// is read from the first segment, the payload from the second, and the
/// signature is what the third decodes to. The text that was signed is the
/// first two segments with the delimiter between them, as they stand in the
/// token.
pub proof fn lemma_decoding_by_segments<H: FromJson, P: FromJson>(
    header: Seq<char>,
    payload: Seq<char>,
    signature: Seq<char>,
    out: Option<(H, P, Seq<char>, Seq<u8>)>,
)
    requires
        occurrences(header, DELIMITER) == 0,
        occurrences(payload, DELIMITER) == 0,
        occurrences(signature, DELIMITER) == 0,
    ensures
        token_reads::<H, P>(token_of(header, payload, signature), out) <==> match out {
            Some((h, p, plain, bytes)) => {
                &&& reads::<H>(header, Some(h))
                &&& reads::<P>(payload, Some(p))
                &&& plain == header + seq![DELIMITER] + payload
                &&& url_safe_decoding(signature) == Some(bytes)
            },
            None => {
                ||| url_safe_decoding(signature) is None
                ||| reads::<H>(header, None::<H>)
                ||| reads::<P>(payload, None::<P>)
            },
        },
{
    let plain = header + seq![DELIMITER] + payload;
    lemma_last_index_of_join(plain, signature, DELIMITER);
    lemma_last_index_of_join(header, payload, DELIMITER);
}

/// Decodes a segment and reads a `T` from the JSON document in it.
pub fn decode<T: FromJson>(s: &str) -> (r: Result<T, Error>)
    ensures
        match r {
            Ok(value) => reads::<T>(s@, Some(value)),
            Err(e) => e@ == ErrorKind::WrongToken && reads::<T>(s@, None::<T>),
        },
{
    let decoded = match decode_url_safe(s) {
        Ok(bytes) => bytes,
        Err(origin) => {
            return Err(Error::from(origin));
        },
    };
    let document = match parse_json(decoded.as_slice()) {
        Ok(document) => document,
        Err(origin) => {
            return Err(Error::from(origin));
        },
    };
    match T::from_json(&document) {
        Some(value) => Ok(value),
        None => Err(Error::new(ErrorKind::WrongToken)),
    }
}

/// Splits `jwt` at its last delimiter into the text that was signed and the
/// signature, and decodes the signature.
pub fn split_jwt<'a>(jwt: &'a str) -> (r: Result<(&'a str, Vec<u8>), Error>)
    ensures
        match r {
            Ok((plain, signature)) => signed_parts(jwt@) == Some((plain@, signature@)),
            Err(e) => e@ == ErrorKind::WrongToken && signed_parts(jwt@) is None,
        },
{
    let chars = chars_of(jwt);
    let (_, last) = tally(&chars, DELIMITER);
    let dot = match last {
        Some(dot) => dot,
        None => {
            return Err(Error::new(ErrorKind::WrongToken));
        },
    };
    proof {
        lemma_last_index(jwt@, DELIMITER);
    }
    let encoded_signature = jwt.substring_char(dot + 1, chars.len());
    let signature = match decode_url_safe(encoded_signature) {
        Ok(bytes) => bytes,
        Err(origin) => {
            return Err(Error::from(origin));
        },
    };
    Ok((jwt.substring_char(0, dot), signature))
}

/// Reads the header and the payload from the two segments of `encoded`.
pub fn from_encoded<H: FromJson, P: FromJson>(encoded: &str) -> (r: Result<(H, P), Error>)
    ensures
        match r {
            Ok(pair) => encoded_reads::<H, P>(encoded@, Some(pair)),
            Err(e) => e@ == ErrorKind::WrongToken && encoded_reads::<H, P>(
                encoded@,
                None::<(H, P)>,
            ),
        },
{
    let chars = chars_of(encoded);
    proof {
        lemma_last_index(encoded@, DELIMITER);
    }
    let dot = match tally(&chars, DELIMITER) {
        (1, Some(dot)) => dot,
        _ => {
            return Err(Error::new(ErrorKind::WrongToken));
        },
    };
    let header = decode::<H>(encoded.substring_char(0, dot))?;
    let payload = decode::<P>(encoded.substring_char(dot + 1, chars.len()))?;
    Ok((header, payload))
}

/// Decodes a token: its header, its payload, the text that was signed (the
/// first two segments and the delimiter between them, as they stand in the
/// token) and the signature. A token that does not have exactly three
/// segments is malformed, and so is one with a segment that cannot be
/// decoded.
pub fn from_raw_jwt<'a, H: FromJson, P: FromJson>(jwt: &'a str) -> (r: Result<
    (H, P, (&'a str, Vec<u8>)),
    Error,
>)
    ensures
        match r {
            Ok((header, payload, (plain, signature))) => token_reads::<H, P>(
                jwt@,
                Some((header, payload, plain@, signature@)),
            ),
            Err(e) => e@ == ErrorKind::WrongToken && token_reads::<H, P>(
                jwt@,
                None::<(H, P, Seq<char>, Seq<u8>)>,
            ),
        },
        occurrences(jwt@, DELIMITER) != 2 ==> r is Err,
{
    let (verify_target, signature) = split_jwt(jwt)?;
    let (header, payload) = from_encoded::<H, P>(verify_target)?;
    proof {
        lemma_last_index(jwt@, DELIMITER);
    }
    Ok((header, payload, (verify_target, signature)))
}

} // verus!
