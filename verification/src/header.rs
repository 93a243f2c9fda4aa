//! What a key-resolution strategy may ask of a token's header.

use vstd::prelude::*;

verus! {

/// The header of a token. Each accessor answers `None` unless the type says
/// otherwise.
pub trait Header {
    /// The name of the algorithm that signed the token.
    fn get_alg(&self) -> (alg: Option<String>)
        default_ensures
            alg is None,
    {
        None
    }

    /// The id of the key that signed the token.
    fn get_kid(&self) -> (kid: Option<String>)
        default_ensures
            kid is None,
    {
        None
    }
}

} // verus!
