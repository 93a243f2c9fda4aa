use openssl::asn1::Asn1Time;
use openssl::bn::BigNum;
use openssl::hash::MessageDigest;
use openssl::pkey::{PKey, Private, Public};
use openssl::rsa::Rsa;
use openssl::sign::{Signer, Verifier};
use openssl::x509::{X509NameBuilder, X509};
use suzume::auth0::{
    discover, hand_on, select_certificate, well_known_url, Key as CertificateKey,
};
use suzume::{
    verify, Auth0Fetcher, Auth0Header, Auth0JwksFetcher, Auth0Payload, Error, ErrorKind, FromJson,
    Header, HeaderItem, Json, Key, KeyFetcher, Payload, PayloadItem,
};

fn private_key() -> PKey<Private> {
    PKey::from_rsa(Rsa::generate(2048).unwrap()).unwrap()
}

fn certificate(key: &PKey<Private>) -> X509 {
    let mut name = X509NameBuilder::new().unwrap();
    name.append_entry_by_text("CN", "example.com").unwrap();
    let name = name.build();
    let mut builder = X509::builder().unwrap();
    builder.set_version(2).unwrap();
    let serial = BigNum::from_u32(1).unwrap().to_asn1_integer().unwrap();
    builder.set_serial_number(&serial).unwrap();
    builder.set_subject_name(&name).unwrap();
    builder.set_issuer_name(&name).unwrap();
    builder.set_pubkey(key).unwrap();
    builder.set_not_before(&Asn1Time::days_from_now(0).unwrap()).unwrap();
    builder.set_not_after(&Asn1Time::days_from_now(30).unwrap()).unwrap();
    builder.sign(key, MessageDigest::sha256()).unwrap();
    builder.build()
}

fn text(value: &str) -> serde_json::Value {
    serde_json::Value::String(value.to_owned())
}

fn number(value: i64) -> serde_json::Value {
    serde_json::Value::Number(serde_json::Number::from(value))
}

fn object(members: Vec<(&str, serde_json::Value)>) -> serde_json::Value {
    let mut map = serde_json::Map::new();
    for (name, value) in members {
        map.insert(name.to_owned(), value);
    }
    serde_json::Value::Object(map)
}

fn segment(members: Vec<(&str, serde_json::Value)>) -> String {
    let json = serde_json::to_string(&object(members)).unwrap();
    base64::encode_config(&json, base64::URL_SAFE_NO_PAD)
}

fn sign(key: &PKey<Private>, plain: &str) -> String {
    let mut signer = Signer::new(MessageDigest::sha256(), key).unwrap();
    signer.update(plain.as_bytes()).unwrap();
    base64::encode_config(signer.sign_to_vec().unwrap(), base64::URL_SAFE_NO_PAD)
}

fn signed_token(key: &PKey<Private>, header: String, payload: String) -> String {
    let plain = format!("{}.{}", header, payload);
    let signature = sign(key, &plain);
    format!("{}.{}", plain, signature)
}

fn now() -> i64 {
    time::now_utc().to_timespec().sec
}

fn auth0_header(alg: &str, kid: &str) -> String {
    segment(vec![("typ", text("JWT")), ("alg", text(alg)), ("kid", text(kid))])
}

fn auth0_payload(iss: &str, exp: i64) -> String {
    segment(vec![
        ("iss", text(iss)),
        ("sub", text("auth0|123456")),
        ("aud", text("my-client")),
        ("iat", number(exp - 3600)),
        ("exp", number(exp)),
        ("at_hash", text("hash")),
        ("nonce", text("nonce")),
    ])
}

fn jwk(kid: &str, chain: Vec<String>) -> serde_json::Value {
    object(vec![
        ("use", text("sig")),
        ("alg", text("RS256")),
        ("kty", text("RSA")),
        ("x5c", serde_json::Value::Array(chain.iter().map(|c| text(c)).collect())),
        ("n", text("modulus")),
        ("e", text("AQAB")),
        ("kid", text(kid)),
        ("x5t", text("thumbprint")),
    ])
}

fn jwks(keys: Vec<serde_json::Value>) -> String {
    serde_json::to_string(&object(vec![("keys", serde_json::Value::Array(keys))])).unwrap()
}

fn chain_entry(certificate: &X509) -> String {
    base64::encode(certificate.to_der().unwrap())
}

/// Serves one text at one address, and fails for any other address.
struct Serving {
    url: String,
    body: String,
}

impl Auth0JwksFetcher for Serving {
    fn fetch(self, url: String) -> Result<String, Error> {
        if url == self.url {
            Ok(self.body)
        } else {
            Err(Error::new(ErrorKind::Others))
        }
    }
}

struct Offline;

impl Auth0JwksFetcher for Offline {
    fn fetch(self, _: String) -> Result<String, Error> {
        Err(Error::new(ErrorKind::Others))
    }
}

struct Untouched;

impl Auth0JwksFetcher for Untouched {
    fn fetch(self, url: String) -> Result<String, Error> {
        panic!("nothing must be fetched, but {} was asked for", url)
    }
}

const ISSUER: &str = "https://example.auth0.com/";
const JWKS_URL: &str = "https://example.auth0.com/.well-known/jwks.json";

fn serving(body: String) -> Auth0Fetcher<'static, Serving> {
    Auth0Fetcher {
        issuers: vec!["https://other.example.com/", ISSUER],
        jwks_fetcher: Serving { url: JWKS_URL.to_owned(), body },
    }
}

fn untouched() -> Auth0Fetcher<'static, Untouched> {
    Auth0Fetcher { issuers: vec![ISSUER], jwks_fetcher: Untouched }
}

#[derive(Debug)]
struct MyHeader {
    typ: String,
    alg: String,
}

impl Header for MyHeader {}

impl FromJson for MyHeader {
    fn from_json(document: &Json) -> Option<Self> {
        Some(MyHeader { typ: document.text_of("typ")?, alg: document.text_of("alg")? })
    }
}

#[derive(Debug, PartialEq)]
struct MyPayload {
    sub: String,
    iat: i64,
    exp: i64,
    azp: String,
    scope: String,
}

impl Payload for MyPayload {
    fn is_expired(&self) -> bool {
        false
    }

    fn is_not_before(&self) -> bool {
        false
    }
}

impl FromJson for MyPayload {
    fn from_json(document: &Json) -> Option<Self> {
        Some(MyPayload {
            sub: document.text_of("sub")?,
            iat: document.integer_of("iat")?,
            exp: document.integer_of("exp")?,
            azp: document.text_of("azp")?,
            scope: document.text_of("scope")?,
        })
    }
}

struct RSAPublicKey {
    inner: PKey<Public>,
}

impl RSAPublicKey {
    fn new(crt: &[u8]) -> Result<Self, Error> {
        let key = X509::from_pem(crt)?.public_key()?;
        Ok(RSAPublicKey { inner: key })
    }
}

impl Key for RSAPublicKey {
    fn verify(self, verify_target: &str, signature: Vec<u8>) -> Result<bool, Error> {
        let mut verifier = Verifier::new(MessageDigest::sha256(), &self.inner)?;
        verifier.update(verify_target.as_bytes())?;
        Ok(verifier.verify(&signature)?)
    }
}

struct MyFetcher {
    crt: Vec<u8>,
}

impl<H: Header, P: Payload> KeyFetcher<H, P> for MyFetcher {
    type Key = RSAPublicKey;

    fn fetch(self, _header: &H, _payload: &P) -> Result<Self::Key, Error> {
        Ok(RSAPublicKey::new(&self.crt)?)
    }
}

fn self_signed_token(key: &PKey<Private>) -> String {
    signed_token(
        key,
        segment(vec![("typ", text("JWT")), ("alg", text("RS256"))]),
        segment(vec![
            ("sub", text("someone@clients")),
            ("iat", number(1549007529)),
            ("exp", number(1549093929)),
            ("azp", text("client")),
            ("scope", text("read:all")),
        ]),
    )
}

#[test]
fn verify_self_signed_jwt() -> Result<(), Error> {
    let key = private_key();
    let crt = certificate(&key).to_pem().unwrap();
    let valid_self_signed_jwt = self_signed_token(&key);

    let _ = verify::<MyHeader, MyPayload, MyFetcher>(valid_self_signed_jwt, MyFetcher { crt })?;

    Ok(())
}

#[test]
fn the_matching_key_gives_the_decoded_payload() {
    let key = private_key();
    let crt = certificate(&key).to_pem().unwrap();
    let payload =
        verify::<MyHeader, MyPayload, MyFetcher>(self_signed_token(&key), MyFetcher { crt })
            .unwrap();
    assert_eq!(
        payload,
        MyPayload {
            sub: "someone@clients".to_owned(),
            iat: 1549007529,
            exp: 1549093929,
            azp: "client".to_owned(),
            scope: "read:all".to_owned(),
        }
    );
}

#[test]
fn another_key_is_a_failed_validation() {
    let key = private_key();
    let crt = certificate(&private_key()).to_pem().unwrap();
    assert_eq!(
        verify::<MyHeader, MyPayload, MyFetcher>(self_signed_token(&key), MyFetcher { crt })
            .err()
            .unwrap()
            .kind(),
        &ErrorKind::ValidationFail
    );
}

#[test]
fn the_published_key_verifies_the_token() {
    let key = private_key();
    let crt = certificate(&key);
    let other = certificate(&private_key());
    let body = jwks(vec![
        jwk("other", vec![chain_entry(&other)]),
        jwk("mine", vec![chain_entry(&crt), chain_entry(&other)]),
    ]);
    let jwt = signed_token(&key, auth0_header("RS256", "mine"), auth0_payload(ISSUER, now() + 60));
    let payload = verify::<Auth0Header, Auth0Payload, _>(jwt, serving(body)).unwrap();
    assert_eq!(payload.get_iss(), Some(ISSUER.to_owned()));
    assert_eq!(payload.get_exp().map(|exp| exp > now()), Some(true));
}

#[test]
fn the_key_is_the_one_with_the_id_of_the_header() {
    let key = private_key();
    let crt = certificate(&key);
    let other = certificate(&private_key());
    let body = jwks(vec![
        jwk("mine", vec![chain_entry(&other)]),
        jwk("other", vec![chain_entry(&crt)]),
    ]);
    let jwt = signed_token(&key, auth0_header("RS256", "mine"), auth0_payload(ISSUER, now() + 60));
    assert_eq!(
        verify::<Auth0Header, Auth0Payload, _>(jwt, serving(body)).err().unwrap().kind(),
        &ErrorKind::ValidationFail
    );
}

#[test]
fn a_tampered_payload_is_a_failed_validation() {
    let key = private_key();
    let body = jwks(vec![jwk("mine", vec![chain_entry(&certificate(&key))])]);
    let header = auth0_header("RS256", "mine");
    let signature = sign(&key, &format!("{}.{}", header, auth0_payload(ISSUER, now() + 60)));
    let jwt = format!("{}.{}.{}", header, auth0_payload(ISSUER, now() + 6000), signature);
    assert_eq!(
        verify::<Auth0Header, Auth0Payload, _>(jwt, serving(body)).err().unwrap().kind(),
        &ErrorKind::ValidationFail
    );
}

#[test]
fn an_expired_auth0_token_is_refused() {
    let key = private_key();
    let jwt = signed_token(&key, auth0_header("RS256", "mine"), auth0_payload(ISSUER, now() - 60));
    assert_eq!(
        verify::<Auth0Header, Auth0Payload, _>(jwt, untouched()).err().unwrap().kind(),
        &ErrorKind::ExpiredToken
    );
    let epoch = signed_token(&key, auth0_header("RS256", "mine"), auth0_payload(ISSUER, 0));
    assert_eq!(
        verify::<Auth0Header, Auth0Payload, _>(epoch, untouched()).err().unwrap().kind(),
        &ErrorKind::ExpiredToken
    );
}

#[test]
fn an_auth0_token_of_another_shape_is_malformed() {
    let jwt = format!(
        "{}.{}.",
        segment(vec![("typ", text("JWT")), ("alg", text("RS256"))]),
        auth0_payload(ISSUER, now() + 60)
    );
    assert_eq!(
        verify::<Auth0Header, Auth0Payload, _>(jwt, untouched()).err().unwrap().kind(),
        &ErrorKind::WrongToken
    );
    let jwt = format!(
        "{}.{}.",
        auth0_header("RS256", "mine"),
        segment(vec![("iss", text(ISSUER)), ("exp", number(now() + 60))])
    );
    assert_eq!(
        verify::<Auth0Header, Auth0Payload, _>(jwt, untouched()).err().unwrap().kind(),
        &ErrorKind::WrongToken
    );
}

#[test]
fn another_algorithm_is_refused_with_nothing_fetched() {
    for alg in ["HS256", "RS512", "rs256", "none", "", "RS256 "] {
        let jwt = format!("{}.{}.", auth0_header(alg, "mine"), auth0_payload(ISSUER, now() + 60));
        assert_eq!(
            verify::<Auth0Header, Auth0Payload, _>(jwt, untouched()).err().unwrap().kind(),
            &ErrorKind::DoesNotSupportAlgorithm { kind: suzume::AlgorithmKind::Others }
        );
    }
}

#[test]
fn an_unlisted_issuer_is_refused_with_nothing_fetched() {
    for issuer in ["https://evil.example.com/", "https://example.auth0.com", ""] {
        let jwt =
            format!("{}.{}.", auth0_header("RS256", "mine"), auth0_payload(issuer, now() + 60));
        assert_eq!(
            verify::<Auth0Header, Auth0Payload, _>(jwt, untouched()).err().unwrap().kind(),
            &ErrorKind::NotExpectedIssuer
        );
    }
    let jwt = format!("{}.{}.", auth0_header("RS256", "mine"), auth0_payload(ISSUER, now() + 60));
    let nobody = Auth0Fetcher { issuers: vec![], jwks_fetcher: Untouched };
    assert_eq!(
        verify::<Auth0Header, Auth0Payload, _>(jwt, nobody).err().unwrap().kind(),
        &ErrorKind::NotExpectedIssuer
    );
}

struct Naming {
    alg: Option<&'static str>,
    kid: Option<&'static str>,
    iss: Option<&'static str>,
}

impl Header for Naming {
    fn get_alg(&self) -> Option<String> {
        self.alg.map(|s| s.to_owned())
    }

    fn get_kid(&self) -> Option<String> {
        self.kid.map(|s| s.to_owned())
    }
}

impl Payload for Naming {
    fn get_iss(&self) -> Option<String> {
        self.iss.map(|s| s.to_owned())
    }
}

fn resolve<JF: Auth0JwksFetcher>(
    fetcher: Auth0Fetcher<'static, JF>,
    alg: Option<&'static str>,
    kid: Option<&'static str>,
    iss: Option<&'static str>,
) -> Result<CertificateKey, Error> {
    let naming = Naming { alg, kid, iss };
    fetcher.fetch(&naming, &naming)
}

#[test]
fn what_the_token_must_name() {
    assert_eq!(
        resolve(untouched(), None, None, None).err().unwrap().kind(),
        &ErrorKind::NotFoundHeaderItem { item: HeaderItem::ALG }
    );
    assert_eq!(
        resolve(untouched(), Some("HS256"), None, None).err().unwrap().kind(),
        &ErrorKind::DoesNotSupportAlgorithm { kind: suzume::AlgorithmKind::Others }
    );
    assert_eq!(
        resolve(untouched(), Some("RS256"), None, None).err().unwrap().kind(),
        &ErrorKind::NotFoundHeaderItem { item: HeaderItem::KID }
    );
    assert_eq!(
        resolve(untouched(), Some("RS256"), Some("mine"), None).err().unwrap().kind(),
        &ErrorKind::NotFoundPayloadItem { item: PayloadItem::ISS }
    );
    assert_eq!(
        resolve(untouched(), Some("RS256"), Some("mine"), Some("https://evil.example.com/"))
            .err()
            .unwrap()
            .kind(),
        &ErrorKind::NotExpectedIssuer
    );
}

#[test]
fn a_failed_fetch_is_a_failed_fetch() {
    let offline = Auth0Fetcher { issuers: vec![ISSUER], jwks_fetcher: Offline };
    assert_eq!(
        resolve(offline, Some("RS256"), Some("mine"), Some(ISSUER)).err().unwrap().kind(),
        &ErrorKind::FetchFailed
    );
}

#[test]
fn the_key_set_is_asked_for_at_the_well_known_address() {
    let crt = certificate(&private_key());
    let body = jwks(vec![jwk("mine", vec![chain_entry(&crt)])]);
    assert!(resolve(serving(body.clone()), Some("RS256"), Some("mine"), Some(ISSUER)).is_ok());
    let without_slash = Auth0Fetcher {
        issuers: vec!["https://example.auth0.com"],
        jwks_fetcher: Serving { url: JWKS_URL.to_owned(), body: body.clone() },
    };
    assert!(resolve(
        without_slash,
        Some("RS256"),
        Some("mine"),
        Some("https://example.auth0.com")
    )
    .is_ok());
    let elsewhere = Auth0Fetcher {
        issuers: vec![ISSUER],
        jwks_fetcher: Serving { url: "https://example.auth0.com/jwks.json".to_owned(), body },
    };
    assert_eq!(
        resolve(elsewhere, Some("RS256"), Some("mine"), Some(ISSUER)).err().unwrap().kind(),
        &ErrorKind::FetchFailed
    );
}

#[test]
fn an_unreadable_key_set_is_a_failed_fetch() {
    let crt = chain_entry(&certificate(&private_key()));
    let without_thumbprint = object(vec![
        ("use", text("sig")),
        ("alg", text("RS256")),
        ("kty", text("RSA")),
        ("x5c", serde_json::Value::Array(vec![text(&crt)])),
        ("n", text("modulus")),
        ("e", text("AQAB")),
        ("kid", text("mine")),
    ]);
    for body in [
        String::new(),
        "not json".to_owned(),
        "[]".to_owned(),
        "{}".to_owned(),
        "{\"keys\":{}}".to_owned(),
        jwks(vec![]),
        jwks(vec![jwk("other", vec![crt.clone()])]),
        jwks(vec![jwk("mine", vec![])]),
        jwks(vec![jwk("mine", vec!["not base64!".to_owned()])]),
        jwks(vec![jwk("mine", vec![crt.clone()]), text("not a key")]),
        jwks(vec![without_thumbprint]),
    ] {
        assert_eq!(
            resolve(serving(body.clone()), Some("RS256"), Some("mine"), Some(ISSUER))
                .err()
                .unwrap()
                .kind(),
            &ErrorKind::FetchFailed,
            "{}",
            body
        );
    }
}

#[test]
fn an_unreadable_certificate_is_an_error_of_the_backend() {
    let body = jwks(vec![jwk("mine", vec![base64::encode(b"not a certificate")])]);
    assert_eq!(
        resolve(serving(body), Some("RS256"), Some("mine"), Some(ISSUER)).err().unwrap().kind(),
        &ErrorKind::OpenSSLError
    );
    assert_eq!(
        CertificateKey::from_certificate(b"").err().unwrap().kind(),
        &ErrorKind::OpenSSLError
    );
}

#[test]
fn the_key_of_a_certificate_checks_signatures() {
    let key = private_key();
    let der = certificate(&key).to_der().unwrap();
    let signature =
        base64::decode_config(sign(&key, "signed text"), base64::URL_SAFE_NO_PAD).unwrap();
    assert_eq!(
        CertificateKey::from_certificate(&der).unwrap().verify("signed text", signature.clone()).ok(),
        Some(true)
    );
    assert_eq!(
        CertificateKey::from_certificate(&der).unwrap().verify("other text", signature).ok(),
        Some(false)
    );
    assert_eq!(
        CertificateKey::from_certificate(&der).unwrap().verify("signed text", vec![1, 2, 3]).ok(),
        Some(false)
    );
}

#[test]
fn what_the_backend_found_is_the_answer() {
    assert_eq!(hand_on(Ok(true)).ok(), Some(true));
    assert_eq!(hand_on(Ok(false)).ok(), Some(false));
    let origin = X509::from_der(b"not a certificate").err().unwrap();
    assert_eq!(hand_on(Err(origin)).err().unwrap().kind(), &ErrorKind::OpenSSLError);
}

#[test]
fn select_certificate_takes_the_first_of_the_chain() {
    let body = jwks(vec![
        jwk("a", vec![base64::encode(b"first of a"), base64::encode(b"second of a")]),
        jwk("b", vec![base64::encode(b"first of b")]),
        jwk("a", vec![base64::encode(b"a again")]),
    ]);
    assert_eq!(select_certificate(&body, "a").unwrap(), b"first of a".to_vec());
    assert_eq!(select_certificate(&body, "b").unwrap(), b"first of b".to_vec());
    assert_eq!(select_certificate(&body, "c").err().unwrap().kind(), &ErrorKind::FetchFailed);
    assert_eq!(select_certificate(&body, "").err().unwrap().kind(), &ErrorKind::FetchFailed);
}

#[test]
fn select_certificate_decodes_the_standard_alphabet() {
    let body = jwks(vec![jwk("a", vec!["+/+/".to_owned()]), jwk("b", vec!["-_-_".to_owned()])]);
    assert_eq!(select_certificate(&body, "a").unwrap(), vec![0xfb, 0xff, 0xbf]);
    assert_eq!(select_certificate(&body, "b").err().unwrap().kind(), &ErrorKind::FetchFailed);
}

#[test]
fn the_well_known_address_keeps_one_slash() {
    assert_eq!(well_known_url("https://example.com"), "https://example.com/.well-known/jwks.json");
    assert_eq!(well_known_url("https://example.com/"), "https://example.com/.well-known/jwks.json");
    assert_eq!(
        well_known_url("https://example.com/tenant"),
        "https://example.com/tenant/.well-known/jwks.json"
    );
    assert_eq!(well_known_url(""), "/.well-known/jwks.json");
    assert_eq!(well_known_url("/"), "/.well-known/jwks.json");
}

#[test]
fn discover_decides_in_order() {
    let issuers = vec!["https://a.example.com/", "https://b.example.com"];
    let some = |s: &str| Some(s.to_owned());
    let kind = |r: Result<(String, String), Error>| *r.err().unwrap().kind();
    assert_eq!(
        kind(discover(None, None, None, &issuers)),
        ErrorKind::NotFoundHeaderItem { item: HeaderItem::ALG }
    );
    assert_eq!(
        kind(discover(some("HS256"), None, None, &issuers)),
        ErrorKind::DoesNotSupportAlgorithm { kind: suzume::AlgorithmKind::Others }
    );
    assert_eq!(
        kind(discover(some("RS256"), None, some("https://a.example.com/"), &issuers)),
        ErrorKind::NotFoundHeaderItem { item: HeaderItem::KID }
    );
    assert_eq!(
        kind(discover(some("RS256"), some("k"), None, &issuers)),
        ErrorKind::NotFoundPayloadItem { item: PayloadItem::ISS }
    );
    assert_eq!(
        kind(discover(some("RS256"), some("k"), some("https://c.example.com/"), &issuers)),
        ErrorKind::NotExpectedIssuer
    );
    assert_eq!(
        discover(some("RS256"), some("k"), some("https://b.example.com"), &issuers).unwrap(),
        ("k".to_owned(), "https://b.example.com/.well-known/jwks.json".to_owned())
    );
    assert_eq!(
        discover(some("RS256"), some("k"), some("https://a.example.com/"), &issuers).unwrap(),
        ("k".to_owned(), "https://a.example.com/.well-known/jwks.json".to_owned())
    );
}
