//! Keys, and the strategies that resolve them.

use vstd::prelude::*;

use crate::error::Error;
use crate::header::Header;
use crate::payload::Payload;

verus! {

/// A key that can check a signature.
pub trait Key: Sized {
    /// Whether `signature` is this key's signature of `plain`. Checking
    /// consumes the key.
    fn verify(self, plain: &str, signature: Vec<u8>) -> Result<bool, Error>;
}

/// A strategy that resolves the key for a token with a header of type `H`
/// and a payload of type `P`.
pub trait KeyFetcher<H: Header, P: Payload>: Sized {
    /// The keys that this strategy resolves.
    type Key: Key;

    /// The key for the token with the given header and payload.
    fn fetch(self, header: &H, payload: &P) -> Result<Self::Key, Error>;
}

/// The direct strategy: it resolves the key that it was made with, whatever
/// the token says, and asks nothing of anyone.
pub struct DirectFetcher<K: Key> {
    /// The key.
    pub key: K,
}

impl<H: Header, P: Payload, K: Key> KeyFetcher<H, P> for DirectFetcher<K> {
    type Key = K;

    /// The key that the strategy was made with.
    fn fetch(self, header: &H, payload: &P) -> (r: Result<K, Error>)
        ensures
            r == Ok::<K, Error>(self.key),
    {
        Ok(self.key)
    }
}

} // verus!
