//! Taking a token out of what carries it.

use vstd::prelude::*;
use vstd::string::StrSliceExecFns;

use crate::error::{Error, ErrorKind};
use crate::text::{chars_of, same_text, space_end, word, word_end};

verus! {

/// The token that an HTTP `Authorization` header carries: its second word,
/// where its first word is `Bearer` and it has no third word.
pub open spec fn bearer_token(header: Seq<char>) -> Option<Seq<char>> {
    if word(header, 0) == Some("Bearer"@) && word(header, 2) is None {
        word(header, 1)
    } else {
        None
    }
}

/// Takes the token out of an HTTP `Authorization` header of the form
/// `Bearer <token>`: two words, with white space between and around them.
/// Any other form is a malformed token.
pub fn from_authorization_header<'a>(authorization_header: &'a str) -> (r: Result<&'a str, Error>)
    ensures
        match r {
            Ok(token) => bearer_token(authorization_header@) == Some(token@),
            Err(e) => e@ == ErrorKind::WrongToken && bearer_token(authorization_header@) is None,
        },
{
    let chars = chars_of(authorization_header);
    let scheme_start = space_end(&chars, 0);
    if scheme_start >= chars.len() {
        return Err(Error::new(ErrorKind::WrongToken));
    }
    let scheme_end = word_end(&chars, scheme_start);
    let token_start = space_end(&chars, scheme_end);
    if token_start >= chars.len() {
        return Err(Error::new(ErrorKind::WrongToken));
    }
    let token_end = word_end(&chars, token_start);
    if space_end(&chars, token_end) < chars.len() {
        return Err(Error::new(ErrorKind::WrongToken));
    }
    let scheme = authorization_header.substring_char(scheme_start, scheme_end);
    if !same_text(scheme, "Bearer") {
        return Err(Error::new(ErrorKind::WrongToken));
    }
    Ok(authorization_header.substring_char(token_start, token_end))
}

} // verus!
