//! The reasons for which a token is rejected.

use vstd::prelude::*;
use vstd::std_specs::convert::FromSpecImpl;

verus! {

/// A claim that a key-resolution strategy needs from the payload.
#[derive(Debug, Clone, Copy, PartialEq, Eq, Structural)]
pub enum PayloadItem {
    /// The issuer.
    ISS,
}

/// A field that a key-resolution strategy needs from the header.
#[derive(Debug, Clone, Copy, PartialEq, Eq, Structural)]
pub enum HeaderItem {
    /// The signing algorithm.
    ALG,
    /// The key id.
    KID,
}

/// A signing algorithm, as far as the library tells algorithms apart.
#[derive(Debug, Clone, Copy, PartialEq, Eq, Structural)]
pub enum AlgorithmKind {
    /// RSA signature with SHA-256.
    RS256,
    /// Any other algorithm.
    Others,
}

/// What went wrong.
#[allow(inconsistent_fields)]
#[derive(Debug, Clone, Copy, PartialEq, Eq, Structural)]
pub enum ErrorKind {
    /// A JSON document could not be read.
    JsonParse,
    /// The key material could not be located, retrieved or read.
    FetchFailed,
    /// The token is malformed: wrong number of segments, bad base64, or JSON
    /// that does not have the expected shape.
    WrongToken,
    /// The token has expired.
    ExpiredToken,
    /// The token is not valid yet.
    NotBefore,
    /// The signature does not match.
    ValidationFail,
    /// The header names an algorithm that the strategy does not implement.
    DoesNotSupportAlgorithm {
        /// The algorithm that was named.
        kind: AlgorithmKind,
    },
    /// The payload lacks a claim that the strategy needs.
    NotFoundPayloadItem {
        /// The missing claim.
        item: PayloadItem,
    },
    /// The header lacks a field that the strategy needs.
    NotFoundHeaderItem {
        /// The missing field.
        item: HeaderItem,
    },
    /// The key set holds no key.
    NotFoundJwks,
    /// The key holds no certificate chain.
    NotFoundx5c,
    /// The cryptographic backend itself failed.
    OpenSSLError,
    /// The issuer is not one of the trusted issuers.
    NotExpectedIssuer,
    /// Anything else.
    Others,
}

impl ErrorKind {
    /// The text that describes this kind to a person.
    pub open spec fn spec_message(self) -> Seq<char> {
        match self {
            ErrorKind::JsonParse => "Json parse error"@,
            ErrorKind::FetchFailed => "Fetch failed error"@,
            ErrorKind::WrongToken => "Wrong token"@,
            ErrorKind::ExpiredToken => "Token is expired"@,
            ErrorKind::NotBefore => "Token has been not enable yet"@,
            ErrorKind::ValidationFail => "Validation Fail"@,
            ErrorKind::DoesNotSupportAlgorithm { kind: AlgorithmKind::RS256 } =>
                "Does Not Support Kind of Algorithm: RS256"@,
            ErrorKind::DoesNotSupportAlgorithm { kind: AlgorithmKind::Others } =>
                "Does Not Support Kind of Algorithm: Others"@,
            ErrorKind::NotFoundPayloadItem { item: PayloadItem::ISS } => "Not Found Item: ISS"@,
            ErrorKind::NotFoundHeaderItem { item: HeaderItem::ALG } => "Not Found Item: ALG"@,
            ErrorKind::NotFoundHeaderItem { item: HeaderItem::KID } => "Not Found Item: KID"@,
            ErrorKind::NotFoundJwks => "Not Found jwk's key"@,
            ErrorKind::NotFoundx5c => "Not Found x5c"@,
            ErrorKind::OpenSSLError => "Open SSL Error"@,
            ErrorKind::NotExpectedIssuer => "Not Expected Issuer"@,
            ErrorKind::Others => "Something Happens"@,
        }
    }

    /// The text that describes this kind to a person.
    pub fn message(&self) -> (text: &'static str)
        ensures
            text@ == self.spec_message(),
    {
        match self {
            ErrorKind::JsonParse => "Json parse error",
            ErrorKind::FetchFailed => "Fetch failed error",
            ErrorKind::WrongToken => "Wrong token",
            ErrorKind::ExpiredToken => "Token is expired",
            ErrorKind::NotBefore => "Token has been not enable yet",
            ErrorKind::ValidationFail => "Validation Fail",
            ErrorKind::DoesNotSupportAlgorithm { kind: AlgorithmKind::RS256 } =>
                "Does Not Support Kind of Algorithm: RS256",
            ErrorKind::DoesNotSupportAlgorithm { kind: AlgorithmKind::Others } =>
                "Does Not Support Kind of Algorithm: Others",
            ErrorKind::NotFoundPayloadItem { item: PayloadItem::ISS } => "Not Found Item: ISS",
            ErrorKind::NotFoundHeaderItem { item: HeaderItem::ALG } => "Not Found Item: ALG",
            ErrorKind::NotFoundHeaderItem { item: HeaderItem::KID } => "Not Found Item: KID",
            ErrorKind::NotFoundJwks => "Not Found jwk's key",
            ErrorKind::NotFoundx5c => "Not Found x5c",
            ErrorKind::OpenSSLError => "Open SSL Error",
            ErrorKind::NotExpectedIssuer => "Not Expected Issuer",
            ErrorKind::Others => "Something Happens",
        }
    }
}

/// A rejection, with its kind.
#[derive(Debug)]
pub struct Error {
    kind: ErrorKind,
}

impl View for Error {
    type V = ErrorKind;

    closed spec fn view(&self) -> ErrorKind {
        self.kind
    }
}

impl Error {
    /// An error of the given kind.
    pub fn new(kind: ErrorKind) -> (e: Error)
        ensures
            e@ == kind,
    {
        Error { kind }
    }

    /// The kind of this error.
    pub fn kind(&self) -> (kind: &ErrorKind)
        ensures
            *kind == self@,
    {
        &self.kind
    }

    /// The text that describes this error to a person.
    pub fn message(&self) -> (text: &'static str)
        ensures
            text@ == self@.spec_message(),
    {
        self.kind.message()
    }
}

impl From<ErrorKind> for Error {
    fn from(kind: ErrorKind) -> (e: Error)
        ensures
            e@ == kind,
    {
        Error { kind }
    }
}

impl FromSpecImpl<ErrorKind> for Error {
    open spec fn obeys_from_spec() -> bool {
        true
    }

    closed spec fn from_spec(kind: ErrorKind) -> Error {
        Error { kind }
    }
}

impl From<base64::DecodeError> for Error {
    /// Text that is not base64 makes a malformed token.
    fn from(origin: base64::DecodeError) -> (e: Error)
        ensures
            e@ == ErrorKind::WrongToken,
    {
        Error { kind: ErrorKind::WrongToken }
    }
}

impl FromSpecImpl<base64::DecodeError> for Error {
    open spec fn obeys_from_spec() -> bool {
        true
    }

    closed spec fn from_spec(origin: base64::DecodeError) -> Error {
        Error { kind: ErrorKind::WrongToken }
    }
}

impl From<serde_json::Error> for Error {
    /// Text that is not JSON makes a malformed token.
    fn from(origin: serde_json::Error) -> (e: Error)
        ensures
            e@ == ErrorKind::WrongToken,
    {
        Error { kind: ErrorKind::WrongToken }
    }
}

impl FromSpecImpl<serde_json::Error> for Error {
    open spec fn obeys_from_spec() -> bool {
        true
    }

    closed spec fn from_spec(origin: serde_json::Error) -> Error {
        Error { kind: ErrorKind::WrongToken }
    }
}

impl From<openssl::error::ErrorStack> for Error {
    /// An error of OpenSSL is an error of the cryptographic backend.
    fn from(origin: openssl::error::ErrorStack) -> (e: Error)
        ensures
            e@ == ErrorKind::OpenSSLError,
    {
        Error { kind: ErrorKind::OpenSSLError }
    }
}

impl FromSpecImpl<openssl::error::ErrorStack> for Error {
    open spec fn obeys_from_spec() -> bool {
        true
    }

    closed spec fn from_spec(origin: openssl::error::ErrorStack) -> Error {
        Error { kind: ErrorKind::OpenSSLError }
    }
}

} // verus!
