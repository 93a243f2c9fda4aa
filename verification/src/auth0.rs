//! The strategy for keys that an issuer publishes: the key set is fetched
//! from the issuer's well-known address, and the key is that of the first
//! certificate of the entry with the header's key id.

use openssl::error::ErrorStack;
use openssl::hash::MessageDigest;
use openssl::pkey::{PKey, Public};
use openssl::sign::Verifier;
use openssl::x509::X509;
use vstd::prelude::*;
use vstd::string::StringExecFns;
use vstd::utf8::encode_utf8;

use crate::b64::{decode_standard, standard_decoding};
use crate::error::{AlgorithmKind, Error, ErrorKind, HeaderItem, PayloadItem};
use crate::json::{json_document, parse_json, FromJson, Json, JsonView};
use crate::jwks::{jwks_of, key_with_id, Jwks};
use crate::text::{chars_of, same_text};

verus! {

/// `openssl::error::ErrorStack`: the errors of the backend, never read.
#[verifier::external_type_specification]
#[verifier::external_body]
pub struct ExErrorStack(ErrorStack);

/// `openssl::hash::MessageDigest`: the name of a digest.
#[verifier::external_type_specification]
#[verifier::external_body]
pub struct ExMessageDigest(MessageDigest);

/// `openssl::pkey::Public`: the mark of a key without private parts.
#[verifier::external_type_specification]
#[verifier::external_body]
pub struct ExPublic(Public);

/// `openssl::pkey::PKey`: a key, held and handed on unread.
#[verifier::external_type_specification]
#[verifier::external_body]
#[verifier::reject_recursive_types(T)]
pub struct ExPKey<T>(PKey<T>);

/// `openssl::x509::X509`: a certificate, handed on unread.
#[verifier::external_type_specification]
#[verifier::external_body]
pub struct ExX509(X509);

/// `openssl::sign::Verifier`: a signature check in progress.
#[verifier::external_type_specification]
#[verifier::external_body]
pub struct ExVerifier<'a>(Verifier<'a>);

/// What fetches the text of a key set from an address.
pub trait Auth0JwksFetcher: Sized {
    /// The text that `url` serves.
    fn fetch(self, url: String) -> Result<String, Error>;
}

/// The strategy: a list of trusted issuers, and what fetches a key set.
pub struct Auth0Fetcher<'a, JF> where JF: Auth0JwksFetcher {
    /// The issuers whose tokens are accepted.
    pub issuers: Vec<&'a str>,
    /// What fetches the text of a key set.
    pub jwks_fetcher: JF,
}

/// The public key of a certificate.
pub struct Key {
    inner: PKey<Public>,
    certificate: Ghost<Seq<u8>>,
}

impl Key {
    /// The certificate, in DER, that the key was taken from.
    pub closed spec fn certificate(&self) -> Seq<u8> {
        self.certificate@
    }
}

/// The header of a token that Auth0 issues.
#[derive(Debug)]
pub struct Auth0Header {
    typ: String,
    alg: String,
    kid: String,
}

/// What the header of a token that Auth0 issues holds.
pub struct Auth0HeaderView {
    /// The type of the token.
    pub typ: Seq<char>,
    /// The name of the algorithm that signed the token.
    pub alg: Seq<char>,
    /// The id of the key that signed the token.
    pub kid: Seq<char>,
}

impl View for Auth0Header {
    type V = Auth0HeaderView;

    closed spec fn view(&self) -> Auth0HeaderView {
        Auth0HeaderView { typ: self.typ@, alg: self.alg@, kid: self.kid@ }
    }
}

/// The header that `document` describes: an object whose members `typ`,
/// `alg` and `kid` are strings. Other members are not looked at. An array
/// of the three strings is no header. Where the text names a member more
/// than once, the document holds the last of them, and that one is read.
pub open spec fn auth0_header_of(document: JsonView) -> Option<Auth0HeaderView> {
    match (
        document.text_member("typ"@),
        document.text_member("alg"@),
        document.text_member("kid"@),
    ) {
        (Some(typ), Some(alg), Some(kid)) => Some(Auth0HeaderView { typ, alg, kid }),
        _ => None,
    }
}

impl FromJson for Auth0Header {
    /// Reads a header.
    fn from_json(document: &Json) -> (r: Option<Auth0Header>)
        ensures
            match r {
                Some(header) => auth0_header_of(document@) == Some(header@),
                None => auth0_header_of(document@) is None,
            },
    {
        let typ = document.text_of("typ")?;
        let alg = document.text_of("alg")?;
        let kid = document.text_of("kid")?;
        Some(Auth0Header { typ, alg, kid })
    }
}

impl crate::Header for Auth0Header {
    fn get_alg(&self) -> (alg: Option<String>)
        ensures
            alg matches Some(name) && name@ == self@.alg,
    {
        Some(self.alg.clone())
    }

    fn get_kid(&self) -> (kid: Option<String>)
        ensures
            kid matches Some(id) && id@ == self@.kid,
    {
        Some(self.kid.clone())
    }
}

/// The payload of a token that Auth0 issues.
#[derive(Debug)]
pub struct Auth0Payload {
    iss: String,
    sub: String,
    aud: String,
    iat: i64,
    exp: i64,
    at_hash: String,
    nonce: String,
}

/// What the payload of a token that Auth0 issues holds.
pub struct Auth0PayloadView {
    /// The issuer.
    pub iss: Seq<char>,
    /// The subject.
    pub sub: Seq<char>,
    /// The audience.
    pub aud: Seq<char>,
    /// When the token was issued, in seconds since 1970-01-01T00:00:00Z.
    pub iat: i64,
    /// When the token expires, in seconds since 1970-01-01T00:00:00Z.
    pub exp: i64,
    /// The hash of the access token.
    pub at_hash: Seq<char>,
    /// The nonce of the request.
    pub nonce: Seq<char>,
}

impl View for Auth0Payload {
    type V = Auth0PayloadView;

    closed spec fn view(&self) -> Auth0PayloadView {
        Auth0PayloadView {
            iss: self.iss@,
            sub: self.sub@,
            aud: self.aud@,
            iat: self.iat,
            exp: self.exp,
            at_hash: self.at_hash@,
            nonce: self.nonce@,
        }
    }
}

/// The payload that `document` describes: an object whose members `iss`,
/// `sub`, `aud`, `at_hash` and `nonce` are strings and whose members `iat`
/// and `exp` are integers that an `i64` holds. Other members are not looked
/// at. An array of the seven values is no payload. Where the text names a
/// member more than once, the document holds the last of them, and that one
/// is read.
pub open spec fn auth0_payload_of(document: JsonView) -> Option<Auth0PayloadView> {
    match (
        document.text_member("iss"@),
        document.text_member("sub"@),
        document.text_member("aud"@),
        document.integer_member("iat"@),
        document.integer_member("exp"@),
        document.text_member("at_hash"@),
        document.text_member("nonce"@),
    ) {
        (Some(iss), Some(sub), Some(aud), Some(iat), Some(exp), Some(at_hash), Some(nonce)) => Some(
            Auth0PayloadView { iss, sub, aud, iat, exp, at_hash, nonce },
        ),
        _ => None,
    }
}

impl FromJson for Auth0Payload {
    /// Reads a payload.
    fn from_json(document: &Json) -> (r: Option<Auth0Payload>)
        ensures
            match r {
                Some(payload) => auth0_payload_of(document@) == Some(payload@),
                None => auth0_payload_of(document@) is None,
            },
    {
        let iss = document.text_of("iss")?;
        let sub = document.text_of("sub")?;
        let aud = document.text_of("aud")?;
        let iat = document.integer_of("iat")?;
        let exp = document.integer_of("exp")?;
        let at_hash = document.text_of("at_hash")?;
        let nonce = document.text_of("nonce")?;
        Some(Auth0Payload { iss, sub, aud, iat, exp, at_hash, nonce })
    }
}

impl crate::Payload for Auth0Payload {
    fn get_iss(&self) -> (iss: Option<String>)
        ensures
            iss matches Some(name) && name@ == self@.iss,
    {
        Some(self.iss.clone())
    }

    fn get_exp(&self) -> (exp: Option<i64>)
        ensures
            exp == Some(self@.exp),
    {
        Some(self.exp)
    }

    fn is_not_before(&self) -> (refused: bool)
        ensures
            !refused,
    {
        false
    }
}

/// The one algorithm that the strategy implements.
pub open spec fn supported_algorithm() -> Seq<char> {
    "RS256"@
}

/// The address of an issuer's key set: the issuer, a `/` unless the issuer
/// ends in one, and `.well-known/jwks.json`.
pub open spec fn jwks_url(iss: Seq<char>) -> Seq<char> {
    if iss.len() > 0 && iss.last() == '/' {
        iss + ".well-known/jwks.json"@
    } else {
        iss + "/.well-known/jwks.json"@
    }
}

/// What the strategy asks for, given what the header and the payload name:
/// the id of the key and the address of the key set. The checks come in
/// this order: the header names an algorithm; the algorithm is the one that
/// the strategy implements; the header names a key; the payload names an
/// issuer; the issuer is one of `issuers`.
pub open spec fn discovery(
    alg: Option<Seq<char>>,
    kid: Option<Seq<char>>,
    iss: Option<Seq<char>>,
    issuers: Seq<Seq<char>>,
) -> Result<(Seq<char>, Seq<char>), ErrorKind> {
    match alg {
        None => Err(ErrorKind::NotFoundHeaderItem { item: HeaderItem::ALG }),
        Some(name) => if name != supported_algorithm() {
            Err(ErrorKind::DoesNotSupportAlgorithm { kind: AlgorithmKind::Others })
        } else {
            match kid {
                None => Err(ErrorKind::NotFoundHeaderItem { item: HeaderItem::KID }),
                Some(id) => match iss {
                    None => Err(ErrorKind::NotFoundPayloadItem { item: PayloadItem::ISS }),
                    Some(issuer) => if !issuers.contains(issuer) {
                        Err(ErrorKind::NotExpectedIssuer)
                    } else {
                        Ok((id, jwks_url(issuer)))
                    },
                },
            }
        },
    }
}

/// A header that names another algorithm than the one that the strategy
/// implements is refused for it, whatever else the token names, and nothing
/// is asked of any address.
pub proof fn lemma_other_algorithm_is_refused(
    alg: Seq<char>,
    kid: Option<Seq<char>>,
    iss: Option<Seq<char>>,
    issuers: Seq<Seq<char>>,
)
    requires
        alg != supported_algorithm(),
    ensures
        discovery(Some(alg), kid, iss, issuers) == Err::<(Seq<char>, Seq<char>), ErrorKind>(
            ErrorKind::DoesNotSupportAlgorithm { kind: AlgorithmKind::Others },
        ),
{
}

/// A token that names the algorithm of the strategy, a key, and an issuer
/// that is not one of the trusted issuers is refused for its issuer, and no
/// address is made from it.
pub proof fn lemma_unlisted_issuer_is_refused(
    kid: Seq<char>,
    iss: Seq<char>,
    issuers: Seq<Seq<char>>,
)
    requires
        !issuers.contains(iss),
    ensures
        discovery(Some(supported_algorithm()), Some(kid), Some(iss), issuers) == Err::<
            (Seq<char>, Seq<char>),
            ErrorKind,
        >(ErrorKind::NotExpectedIssuer),
{
}

/// The characters of each of `texts`.
pub open spec fn views_of(texts: Seq<&str>) -> Seq<Seq<char>> {
    Seq::new(texts.len(), |i: int| texts[i]@)
}

/// The characters of `text`, where there is one.
pub open spec fn view_of(text: Option<String>) -> Option<Seq<char>> {
    match text {
        Some(s) => Some(s@),
        None => None,
    }
}

/// Whether `issuer` is one of `issuers`.
pub fn is_trusted(issuers: &Vec<&str>, issuer: &str) -> (r: bool)
    ensures
        r == views_of(issuers@).contains(issuer@),
{
    let mut i: usize = 0;
    while i < issuers.len()
        invariant
            i <= issuers.len(),
            forall|j: int| 0 <= j < i ==> issuers@[j]@ != issuer@,
        decreases issuers.len() - i,
    {
        if same_text(issuers[i], issuer) {
            assert(views_of(issuers@)[i as int] == issuer@);
            return true;
        }
        i = i + 1;
    }
    false
}

/// The address of the key set of `issuer`.
pub fn well_known_url(issuer: &str) -> (url: String)
    ensures
        url@ == jwks_url(issuer@),
{
    let chars = chars_of(issuer);
    let mut url = issuer.to_owned();
    if chars.len() > 0 && chars[chars.len() - 1] == '/' {
        url.append(".well-known/jwks.json");
    } else {
        url.append("/.well-known/jwks.json");
    }
    url
}

/// Decides, from what the header and the payload name, which key to ask for
/// and where: the id of the key and the address of the key set.
pub fn discover(
    alg: Option<String>,
    kid: Option<String>,
    iss: Option<String>,
    issuers: &Vec<&str>,
) -> (r: Result<(String, String), Error>)
    ensures
        match r {
            Ok((id, url)) => discovery(view_of(alg), view_of(kid), view_of(iss), views_of(issuers@))
                == Ok::<(Seq<char>, Seq<char>), ErrorKind>((id@, url@)),
            Err(e) => discovery(view_of(alg), view_of(kid), view_of(iss), views_of(issuers@))
                == Err::<(Seq<char>, Seq<char>), ErrorKind>(e@),
        },
{
    let alg = match alg {
        Some(alg) => alg,
        None => {
            return Err(Error::new(ErrorKind::NotFoundHeaderItem { item: HeaderItem::ALG }));
        },
    };
    if !same_text(alg.as_str(), "RS256") {
        return Err(
            Error::new(ErrorKind::DoesNotSupportAlgorithm { kind: AlgorithmKind::Others }),
        );
    }
    let kid = match kid {
        Some(kid) => kid,
        None => {
            return Err(Error::new(ErrorKind::NotFoundHeaderItem { item: HeaderItem::KID }));
        },
    };
    let iss = match iss {
        Some(iss) => iss,
        None => {
            return Err(Error::new(ErrorKind::NotFoundPayloadItem { item: PayloadItem::ISS }));
        },
    };
    if !is_trusted(issuers, iss.as_str()) {
        return Err(Error::new(ErrorKind::NotExpectedIssuer));
    }
    let url = well_known_url(iss.as_str());
    Ok((kid, url))
}

/// The certificate, in DER, that the text of a key set holds for the key id
/// `kid`: the text is a JSON document that describes a key set; the key is
/// the first one with that id; the certificate is the first of its chain,
/// decoded from base64 text in the standard alphabet.
pub open spec fn certificate_in(body: Seq<char>, kid: Seq<char>) -> Option<Seq<u8>> {
    match json_document(encode_utf8(body)) {
        Some(document) => match jwks_of(document) {
            Some(keys) => match key_with_id(keys, kid) {
                Some(key) => if key.x5c.len() > 0 {
                    standard_decoding(key.x5c[0])
                } else {
                    None
                },
                None => None,
            },
            None => None,
        },
        None => None,
    }
}

/// Takes the certificate for the key id `kid` out of the text of a key set.
/// Whatever is missing or unreadable on the way is a failed fetch.
pub fn select_certificate(body: &str, kid: &str) -> (r: Result<Vec<u8>, Error>)
    ensures
        match r {
            Ok(der) => certificate_in(body@, kid@) == Some(der@),
            Err(e) => e@ == ErrorKind::FetchFailed && certificate_in(body@, kid@) is None,
        },
{
    let document = match parse_json(body.as_bytes()) {
        Ok(document) => document,
        Err(_) => {
            return Err(Error::new(ErrorKind::FetchFailed));
        },
    };
    let jwks = match Jwks::from_json(&document) {
        Some(jwks) => jwks,
        None => {
            return Err(Error::new(ErrorKind::FetchFailed));
        },
    };
    let key = match jwks.find(kid) {
        Some(key) => key,
        None => {
            return Err(Error::new(ErrorKind::FetchFailed));
        },
    };
    if key.x5c.len() == 0 {
        return Err(Error::new(ErrorKind::FetchFailed));
    }
    match decode_standard(key.x5c[0].as_str()) {
        Ok(der) => Ok(der),
        Err(_) => Err(Error::new(ErrorKind::FetchFailed)),
    }
}

/// Calls `openssl::x509::X509::from_der`. Nothing is claimed of the outcome.
#[verifier::external_body]
fn certificate_from_der(der: &[u8]) -> Result<X509, ErrorStack> {
    X509::from_der(der)
}

/// Calls `public_key` on the certificate. Nothing is claimed of the outcome.
#[verifier::external_body]
fn certificate_public_key(certificate: &X509) -> Result<PKey<Public>, ErrorStack> {
    certificate.public_key()
}

/// Calls `openssl::hash::MessageDigest::sha256`, which names the digest
/// SHA-256.
#[verifier::external_body]
fn sha256() -> MessageDigest {
    MessageDigest::sha256()
}

/// Calls `openssl::sign::Verifier::new`. Nothing is claimed of the outcome.
#[verifier::external_body]
fn verifier_new<'a>(digest: MessageDigest, key: &'a PKey<Public>) -> Result<
    Verifier<'a>,
    ErrorStack,
> {
    Verifier::new(digest, key)
}

/// Calls `update` on the verifier and hands the verifier on. Nothing is claimed.
#[verifier::external_body]
fn verifier_update<'a>(mut fed: Verifier<'a>, data: &[u8]) -> Result<Verifier<'a>, ErrorStack> {
    fed.update(data).map(|_| fed)
}

/// Calls `verify` on the verifier. Nothing is claimed of the outcome.
#[verifier::external_body]
fn verifier_verify(verifier: &Verifier<'_>, signature: &[u8]) -> Result<bool, ErrorStack> {
    verifier.verify(signature)
}

impl Key {
    /// The public key of a certificate in DER. A certificate that the
    /// backend cannot read, or cannot take the key from, is an error of the
    /// backend.
    pub fn from_certificate(der: &[u8]) -> (r: Result<Key, Error>)
        ensures
            backend_reads(der@, r),
            match r {
                Ok(key) => key.certificate() == der@,
                Err(e) => e@ == ErrorKind::OpenSSLError,
            },
    {
        let certificate = match certificate_from_der(der) {
            Ok(certificate) => certificate,
            Err(origin) => {
                return Err(Error::from(origin));
            },
        };
        match certificate_public_key(&certificate) {
            Ok(inner) => Ok(Key { inner, certificate: Ghost(der@) }),
            Err(origin) => Err(Error::from(origin)),
        }
    }
}

/// Whether the backend, asked to read the certificate `der` and then to take
/// the public key of what it read, may leave `out`: the key that it took,
/// with the certificate that it was taken from, or an error of the backend
/// where either step fails.
pub closed spec fn backend_reads(der: Seq<u8>, out: Result<Key, Error>) -> bool {
    exists|bytes: &[u8], read: Result<X509, ErrorStack>|
        {
            &&& bytes@ == der
            &&& #[trigger] call_ensures(certificate_from_der, (bytes,), read)
            &&& match read {
                Ok(certificate) => exists|taken: Result<PKey<Public>, ErrorStack>|
                    {
                        &&& #[trigger] call_ensures(
                            certificate_public_key,
                            (&certificate,),
                            taken,
                        )
                        &&& match taken {
                            Ok(inner) => (out matches Ok(key) && key.inner == inner
                                && key.certificate@ == der),
                            Err(_) => (out matches Err(e) && e@ == ErrorKind::OpenSSLError),
                        }
                    },
                Err(_) => (out matches Err(e) && e@ == ErrorKind::OpenSSLError),
            }
        }
}

impl crate::Key for Key {
    /// Whether `signature` is this key's RS256 signature of `verify_target`:
    /// what the backend finds for its bytes, or an error of the backend.
    fn verify(self, verify_target: &str, signature: Vec<u8>) -> (r: Result<bool, Error>)
        ensures
            exists|found: Result<bool, ErrorStack>|
                {
                    &&& #[trigger] backend_finds(
                        self,
                        encode_utf8(verify_target@),
                        signature@,
                        found,
                    )
                    &&& hands_on(found, r)
                },
    {
        let ghost message = encode_utf8(verify_target@);
        let digest = sha256();
        let verifier = match verifier_new(digest, &self.inner) {
            Ok(verifier) => verifier,
            Err(origin) => {
                assert(backend_finds(self, message, signature@, Err::<bool, ErrorStack>(origin)));
                return hand_on(Err(origin));
            },
        };
        let ghost made = verifier;
        let verifier = match verifier_update(verifier, verify_target.as_bytes()) {
            Ok(verifier) => verifier,
            Err(origin) => {
                assert(backend_checks(made, message, signature@, Err::<bool, ErrorStack>(origin)));
                assert(backend_finds(self, message, signature@, Err::<bool, ErrorStack>(origin)));
                return hand_on(Err(origin));
            },
        };
        let found = verifier_verify(&verifier, signature.as_slice());
        assert(backend_checks(made, message, signature@, found));
        assert(backend_finds(self, message, signature@, found));
        hand_on(found)
    }
}

/// Whether the backend, asked with the digest SHA-256 and `key` whether
/// `signature` is a signature of `message`, may answer `found`: the backend
/// makes a verifier for the digest and the key, is fed the message, and is
/// asked about the signature; an error at any of these steps is what is
/// found.
pub closed spec fn backend_finds(
    key: Key,
    message: Seq<u8>,
    signature: Seq<u8>,
    found: Result<bool, ErrorStack>,
) -> bool {
    exists|digest: MessageDigest, made: Result<Verifier<'static>, ErrorStack>|
        {
            &&& call_ensures(sha256, (), digest)
            &&& #[trigger] call_ensures(verifier_new, (digest, &key.inner), made)
            &&& match made {
                Ok(verifier) => backend_checks(verifier, message, signature, found),
                Err(origin) => found == Err::<bool, ErrorStack>(origin),
            }
        }
}

/// Whether the backend, fed `message` through `verifier` and asked about
/// `signature`, may answer `found`.
pub closed spec fn backend_checks(
    verifier: Verifier<'static>,
    message: Seq<u8>,
    signature: Seq<u8>,
    found: Result<bool, ErrorStack>,
) -> bool {
    exists|data: &[u8], fed: Result<Verifier<'static>, ErrorStack>|
        {
            &&& data@ == message
            &&& #[trigger] call_ensures(verifier_update, (verifier, data), fed)
            &&& match fed {
                Ok(verifier) => exists|asked: &[u8]|
                    asked@ == signature && #[trigger] call_ensures(
                        verifier_verify,
                        (&verifier, asked),
                        found,
                    ),
                Err(origin) => found == Err::<bool, ErrorStack>(origin),
            }
        }
}

/// Whether the key, where the backend found `found`, may answer `out`: what
/// the backend found about the signature is the answer, and an error of the
/// backend, whatever it is, is answered as an error of the backend.
pub open spec fn hands_on(found: Result<bool, ErrorStack>, out: Result<bool, Error>) -> bool {
    match found {
        Ok(matches) => out == Ok::<bool, Error>(matches),
        Err(_) => (out matches Err(e) && e@ == ErrorKind::OpenSSLError),
    }
}

/// Answers with what the backend found.
pub fn hand_on(found: Result<bool, ErrorStack>) -> (r: Result<bool, Error>)
    ensures
        hands_on(found, r),
{
    match found {
        Ok(matches) => Ok(matches),
        Err(origin) => Err(Error::from(origin)),
    }
}

/// Whether the strategy, having decided to ask `jwks_fetcher` at `url` for
/// the key with the id `kid`, may end in `out`: a fetch that fails is a
/// failed fetch, and so is a text that holds no certificate for the key;
/// otherwise the key is what the backend reads from the certificate, or an
/// error of the backend.
pub open spec fn fetched_resolves<JF: Auth0JwksFetcher>(
    jwks_fetcher: JF,
    kid: Seq<char>,
    url: Seq<char>,
    out: Result<Key, Error>,
) -> bool {
    exists|address: String, fetched: Result<String, Error>|
        {
            &&& address@ == url
            &&& #[trigger] call_ensures(JF::fetch, (jwks_fetcher, address), fetched)
            &&& match fetched {
                Ok(body) => match certificate_in(body@, kid) {
                    Some(der) => backend_reads(der, out) && match out {
                        Ok(key) => key.certificate() == der,
                        Err(e) => e@ == ErrorKind::OpenSSLError,
                    },
                    None => (out matches Err(e) && e@ == ErrorKind::FetchFailed),
                },
                Err(_) => (out matches Err(e) && e@ == ErrorKind::FetchFailed),
            }
        }
}

/// Whether the strategy, asked with `header` and `payload`, may end in
/// `out`. What the header and the payload name decides, as `discovery`
/// says, whether and where the key set is fetched; an error there comes
/// back as it is, with nothing fetched.
pub open spec fn resolves<'a, JF: Auth0JwksFetcher, H: crate::Header, P: crate::Payload>(
    fetcher: Auth0Fetcher<'a, JF>,
    header: H,
    payload: P,
    out: Result<Key, Error>,
) -> bool {
    exists|alg: Option<String>, kid: Option<String>, iss: Option<String>|
        {
            &&& #[trigger] call_ensures(H::get_alg, (&header,), alg)
            &&& #[trigger] call_ensures(H::get_kid, (&header,), kid)
            &&& #[trigger] call_ensures(P::get_iss, (&payload,), iss)
            &&& match discovery(
                view_of(alg),
                view_of(kid),
                view_of(iss),
                views_of(fetcher.issuers@),
            ) {
                Ok((id, url)) => fetched_resolves(fetcher.jwks_fetcher, id, url, out),
                Err(kind) => (out matches Err(e) && e@ == kind),
            }
        }
}

/// A token of Auth0 that the strategy resolves a key for names the
/// algorithm of the strategy and one of the trusted issuers, and the key is
/// what the backend read from a certificate which the issuer's key set
/// holds for the key id of the header.
pub proof fn lemma_resolved_is_trusted<'a, JF: Auth0JwksFetcher>(
    fetcher: Auth0Fetcher<'a, JF>,
    header: Auth0Header,
    payload: Auth0Payload,
    key: Key,
)
    requires
        resolves(fetcher, header, payload, Ok::<Key, Error>(key)),
    ensures
        header@.alg == supported_algorithm(),
        views_of(fetcher.issuers@).contains(payload@.iss),
        backend_reads(key.certificate(), Ok::<Key, Error>(key)),
        exists|address: String, body: String|
            {
                &&& address@ == jwks_url(payload@.iss)
                &&& #[trigger] call_ensures(
                    JF::fetch,
                    (fetcher.jwks_fetcher, address),
                    Ok::<String, Error>(body),
                )
                &&& certificate_in(body@, header@.kid) == Some(key.certificate())
            },
{
}

/// A token of Auth0 that the pipeline accepts with the strategy comes from
/// one of the trusted issuers.
pub proof fn lemma_accepted_is_trusted<'a, JF: Auth0JwksFetcher>(
    jwt: Seq<char>,
    fetcher: Auth0Fetcher<'a, JF>,
    payload: Auth0Payload,
)
    requires
        crate::accepts::<Auth0Header, Auth0Payload, Auth0Fetcher<'a, JF>>(jwt, fetcher, payload),
    ensures
        views_of(fetcher.issuers@).contains(payload@.iss),
{
}

impl<'a, JF: Auth0JwksFetcher, H: crate::Header, P: crate::Payload> crate::KeyFetcher<
    H,
    P,
> for Auth0Fetcher<'a, JF> {
    type Key = Key;

    /// Resolves the key for a token: checks what the header and the payload
    /// name, fetches the key set of the issuer, and takes the key of the
    /// certificate that the set holds for the header's key id.
    fn fetch(self, header: &H, payload: &P) -> (r: Result<Key, Error>)
        ensures
            resolves(self, *header, *payload, r),
    {
        let alg = header.get_alg();
        let kid = header.get_kid();
        let iss = payload.get_iss();
        let (kid, url) = match discover(alg, kid, iss, &self.issuers) {
            Ok(target) => target,
            Err(e) => {
                return Err(e);
            },
        };
        let body = match self.jwks_fetcher.fetch(url) {
            Ok(body) => body,
            Err(_) => {
                return Err(Error::new(ErrorKind::FetchFailed));
            },
        };
        let der = match select_certificate(body.as_str(), kid.as_str()) {
            Ok(der) => der,
            Err(e) => {
                return Err(e);
            },
        };
        Key::from_certificate(der.as_slice())
    }
}

} // verus!
