//! JSON Web Key Sets: the keys that an issuer publishes.

use vstd::prelude::*;

use crate::json::{item_views, FromJson, Json, JsonView};
use crate::text::same_text;

verus! {

/// A JSON Web Key.
#[derive(Debug)]
pub struct Jwk {
    /// What the key is to be used for.
    pub use_: String,
    /// The algorithm that the key is for.
    pub alg: String,
    /// The type of the key.
    pub kty: String,
    /// The X.509 certificate chain: certificates in DER, each as base64
    /// text.
    pub x5c: Vec<String>,
    /// The modulus of the key.
    pub n: String,
    /// The exponent of the key.
    pub e: String,
    /// The id of the key.
    pub kid: String,
    /// The SHA-1 thumbprint of the certificate.
    pub x5t: String,
}

/// A JSON Web Key Set.
#[derive(Debug)]
pub struct Jwks {
    /// The keys, in the order of the document.
    pub keys: Vec<Jwk>,
}

/// What a JSON Web Key holds.
pub struct JwkView {
    /// What the key is to be used for.
    pub use_: Seq<char>,
    /// The algorithm that the key is for.
    pub alg: Seq<char>,
    /// The type of the key.
    pub kty: Seq<char>,
    /// The X.509 certificate chain.
    pub x5c: Seq<Seq<char>>,
    /// The modulus of the key.
    pub n: Seq<char>,
    /// The exponent of the key.
    pub e: Seq<char>,
    /// The id of the key.
    pub kid: Seq<char>,
    /// The SHA-1 thumbprint of the certificate.
    pub x5t: Seq<char>,
}

impl View for Jwk {
    type V = JwkView;

    open spec fn view(&self) -> JwkView {
        JwkView {
            use_: self.use_@,
            alg: self.alg@,
            kty: self.kty@,
            x5c: self.x5c.deep_view(),
            n: self.n@,
            e: self.e@,
            kid: self.kid@,
            x5t: self.x5t@,
        }
    }
}

impl View for Jwks {
    type V = Seq<JwkView>;

    open spec fn view(&self) -> Seq<JwkView> {
        Seq::new(self.keys@.len(), |i: int| self.keys@[i]@)
    }
}

/// The strings that `items` hold, where each of them is a string.
pub open spec fn texts_of(items: Seq<JsonView>) -> Option<Seq<Seq<char>>> {
    if forall|i: int| 0 <= i < items.len() ==> (#[trigger] items[i]).text() is Some {
        Some(Seq::new(items.len(), |i: int| items[i].text().unwrap()))
    } else {
        None
    }
}

/// The key that `document` describes: an object whose members `use`, `alg`,
/// `kty`, `n`, `e`, `kid` and `x5t` are strings and whose member `x5c` is an
/// array of strings. Other members are not looked at. An array of the eight
/// values is no key. Where the text names a member more than once, the
/// document holds the last of them, and that one is read.
pub open spec fn jwk_of(document: JsonView) -> Option<JwkView> {
    match (
        document.text_member("use"@),
        document.text_member("alg"@),
        document.text_member("kty"@),
        document.get("x5c"@),
        document.text_member("n"@),
        document.text_member("e"@),
        document.text_member("kid"@),
        document.text_member("x5t"@),
    ) {
        (Some(use_), Some(alg), Some(kty), Some(chain), Some(n), Some(e), Some(kid), Some(x5t)) => {
            match chain.items() {
                Some(items) => match texts_of(items) {
                    Some(x5c) => Some(JwkView { use_, alg, kty, x5c, n, e, kid, x5t }),
                    None => None,
                },
                None => None,
            }
        },
        _ => None,
    }
}

/// The keys that `items` describe, where each of them describes a key.
pub open spec fn jwks_of_items(items: Seq<JsonView>) -> Option<Seq<JwkView>> {
    if forall|i: int| 0 <= i < items.len() ==> jwk_of(#[trigger] items[i]) is Some {
        Some(Seq::new(items.len(), |i: int| jwk_of(items[i]).unwrap()))
    } else {
        None
    }
}

/// The key set that `document` describes: an object whose member `keys` is
/// an array of keys. Other members are not looked at, an array is no key
/// set, and of a member that the text names more than once the last is read.
pub open spec fn jwks_of(document: JsonView) -> Option<Seq<JwkView>> {
    match document.get("keys"@) {
        Some(keys) => match keys.items() {
            Some(items) => jwks_of_items(items),
            None => None,
        },
        None => None,
    }
}

/// The first of `keys` whose id is `kid`.
pub open spec fn key_with_id(keys: Seq<JwkView>, kid: Seq<char>) -> Option<JwkView>
    decreases keys.len(),
{
    if keys.len() == 0 {
        None
    } else if keys[0].kid == kid {
        Some(keys[0])
    } else {
        key_with_id(keys.drop_first(), kid)
    }
}

/// The key that `key_with_id` finds has the id `kid`, and no key before it
/// has; it finds none only where no key has that id.
pub proof fn lemma_key_with_id(keys: Seq<JwkView>, kid: Seq<char>)
    ensures
        match key_with_id(keys, kid) {
            Some(key) => key.kid == kid && exists|i: int|
                {
                    &&& 0 <= i < keys.len()
                    &&& #[trigger] keys[i] == key
                    &&& forall|j: int| 0 <= j < i ==> (#[trigger] keys[j]).kid != kid
                },
            None => forall|i: int| 0 <= i < keys.len() ==> (#[trigger] keys[i]).kid != kid,
        },
    decreases keys.len(),
{
    if keys.len() == 0 {
    } else if keys[0].kid == kid {
        assert(keys[0] == keys[0]);
    } else {
        let rest = keys.drop_first();
        lemma_key_with_id(rest, kid);
        match key_with_id(rest, kid) {
            Some(key) => {
                let i = choose|i: int|
                    {
                        &&& 0 <= i < rest.len()
                        &&& #[trigger] rest[i] == key
                        &&& forall|j: int| 0 <= j < i ==> (#[trigger] rest[j]).kid != kid
                    };
                assert(keys[i + 1] == key);
                assert forall|j: int| 0 <= j < i + 1 implies (#[trigger] keys[j]).kid != kid by {
                    if j > 0 {
                        assert(rest[j - 1].kid != kid);
                    }
                }
            },
            None => {
                assert forall|i: int| 0 <= i < keys.len() implies (#[trigger] keys[i]).kid
                    != kid by {
                    if i > 0 {
                        assert(rest[i - 1].kid != kid);
                    }
                }
            },
        }
    }
}

/// Copies of the strings that `items` hold, where each of them is a string.
pub fn read_texts(items: &Vec<Json>) -> (r: Option<Vec<String>>)
    ensures
        match r {
            Some(texts) => texts_of(item_views(items@)) == Some(texts.deep_view()),
            None => texts_of(item_views(items@)) is None,
        },
{
    let mut texts: Vec<String> = Vec::new();
    let mut i: usize = 0;
    while i < items.len()
        invariant
            i <= items.len(),
            texts@.len() == i,
            forall|j: int| 0 <= j < i ==> (#[trigger] items@[j])@.text() == Some(texts@[j]@),
        decreases items.len() - i,
    {
        match items[i].as_text() {
            Some(text) => {
                texts.push(text.to_owned());
            },
            None => {
                assert(item_views(items@)[i as int].text() is None);
                return None;
            },
        }
        i = i + 1;
    }
    proof {
        let views = item_views(items@);
        assert forall|j: int| 0 <= j < views.len() implies (#[trigger] views[j]).text()
            is Some by {
            assert(items@[j]@.text() == Some(texts@[j]@));
        }
        assert(texts.deep_view() =~= Seq::new(views.len(), |j: int| views[j].text().unwrap()));
    }
    Some(texts)
}

impl FromJson for Jwk {
    /// Reads a key.
    fn from_json(document: &Json) -> (r: Option<Jwk>)
        ensures
            match r {
                Some(key) => jwk_of(document@) == Some(key@),
                None => jwk_of(document@) is None,
            },
    {
        let use_ = document.text_of("use")?;
        let alg = document.text_of("alg")?;
        let kty = document.text_of("kty")?;
        let x5c = read_texts(document.get("x5c")?.as_items()?)?;
        let n = document.text_of("n")?;
        let e = document.text_of("e")?;
        let kid = document.text_of("kid")?;
        let x5t = document.text_of("x5t")?;
        Some(Jwk { use_, alg, kty, x5c, n, e, kid, x5t })
    }
}

impl FromJson for Jwks {
    /// Reads a key set.
    fn from_json(document: &Json) -> (r: Option<Jwks>)
        ensures
            match r {
                Some(set) => jwks_of(document@) == Some(set@),
                None => jwks_of(document@) is None,
            },
    {
        let items = document.get("keys")?.as_items()?;
        let mut keys: Vec<Jwk> = Vec::new();
        let mut i: usize = 0;
        while i < items.len()
            invariant
                i <= items.len(),
                keys@.len() == i,
                jwks_of(document@) == jwks_of_items(item_views(items@)),
                forall|j: int| 0 <= j < i ==> jwk_of((#[trigger] items@[j])@) == Some(keys@[j]@),
            decreases items.len() - i,
        {
            match Jwk::from_json(&items[i]) {
                Some(key) => {
                    keys.push(key);
                },
                None => {
                    assert(jwk_of(item_views(items@)[i as int]) is None);
                    return None;
                },
            }
            i = i + 1;
        }
        let set = Jwks { keys };
        proof {
            let views = item_views(items@);
            assert forall|j: int| 0 <= j < views.len() implies jwk_of(#[trigger] views[j])
                is Some by {
                assert(jwk_of(items@[j]@) == Some(set.keys@[j]@));
            }
            assert(set@ =~= Seq::new(views.len(), |j: int| jwk_of(views[j]).unwrap()));
        }
        Some(set)
    }
}

impl Jwks {
    /// The first key whose id is `kid`.
    pub fn find(&self, kid: &str) -> (r: Option<&Jwk>)
        ensures
            match r {
                Some(key) => key_with_id(self@, kid@) == Some(key@),
                None => key_with_id(self@, kid@) is None,
            },
    {
        let mut i: usize = 0;
        assert(self@.skip(0) == self@);
        while i < self.keys.len()
            invariant
                i <= self.keys.len(),
                key_with_id(self@, kid@) == key_with_id(self@.skip(i as int), kid@),
            decreases self.keys.len() - i,
        {
            assert(self@.skip(i as int).drop_first() == self@.skip(i + 1));
            assert(self@.skip(i as int)[0] == self.keys@[i as int]@);
            if same_text(self.keys[i].kid.as_str(), kid) {
                return Some(&self.keys[i]);
            }
            i = i + 1;
        }
        None
    }
}

} // verus!
