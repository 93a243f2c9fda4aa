//! JSON documents, as far as the library reads them.

use serde_json::Error as JsonError;
use vstd::prelude::*;

use crate::text::same_text;

verus! {

/// A JSON value.
#[derive(Debug, PartialEq, Eq)]
pub enum Json {
    /// `null`.
    Null,
    /// `true` or `false`.
    Bool(bool),
    /// A number: its value where it is an integer that an `i64` holds,
    /// `None` for any other number.
    Number(Option<i64>),
    /// A string.
    Text(String),
    /// An array, with its items in order.
    Array(Vec<Json>),
    /// An object: its members, each a name and a value.
    Object(Vec<(String, Json)>),
}

/// What a JSON value holds.
pub enum JsonView {
    /// `null`.
    Null,
    /// `true` or `false`.
    Bool(bool),
    /// A number: its value where it is an integer that an `i64` holds,
    /// `None` for any other number.
    Number(Option<i64>),
    /// A string.
    Text(Seq<char>),
    /// An array, with its items in order.
    Array(Seq<JsonView>),
    /// An object: its members, each a name and a value.
    Object(Seq<(Seq<char>, JsonView)>),
}

/// What `value` holds.
pub open spec fn json_view(value: Json) -> JsonView
    decreases value,
{
    match value {
        Json::Null => JsonView::Null,
        Json::Bool(b) => JsonView::Bool(b),
        Json::Number(n) => JsonView::Number(n),
        Json::Text(s) => JsonView::Text(s@),
        Json::Array(items) => JsonView::Array(
            Seq::new(
                items@.len(),
                |i: int|
                    if 0 <= i < items@.len() {
                        json_view(items@[i])
                    } else {
                        JsonView::Null
                    },
            ),
        ),
        Json::Object(members) => JsonView::Object(
            Seq::new(
                members@.len(),
                |i: int|
                    if 0 <= i < members@.len() {
                        (members@[i].0@, json_view(members@[i].1))
                    } else {
                        (Seq::empty(), JsonView::Null)
                    },
            ),
        ),
    }
}

impl View for Json {
    type V = JsonView;

    open spec fn view(&self) -> JsonView {
        json_view(*self)
    }
}

/// What each of `items` holds.
pub open spec fn item_views(items: Seq<Json>) -> Seq<JsonView> {
    Seq::new(items.len(), |i: int| items[i]@)
}

/// What each of `members` is called and holds.
pub open spec fn member_views(members: Seq<(String, Json)>) -> Seq<(Seq<char>, JsonView)> {
    Seq::new(members.len(), |i: int| (members[i].0@, members[i].1@))
}

/// An array holds what its items hold, and an object what its members are
/// called and hold.
pub proof fn lemma_view(value: Json)
    ensures
        value matches Json::Array(items) ==> value@ == JsonView::Array(item_views(items@)),
        value matches Json::Object(members) ==> value@ == JsonView::Object(
            member_views(members@),
        ),
{
    match value {
        Json::Array(items) => {
            assert(value@->Array_0 =~= item_views(items@));
        },
        Json::Object(members) => {
            assert(value@->Object_0 =~= member_views(members@));
        },
        _ => {},
    }
}

/// A type whose values are read from JSON documents.
pub trait FromJson: Sized {
    /// Reads a value from `document`; `None` where the document does not have
    /// the shape of one.
    fn from_json(document: &Json) -> Option<Self>;
}

/// The error of `serde_json`: why a text was read as no document, never
/// read.
#[verifier::external_type_specification]
#[verifier::external_body]
pub struct ExJsonError(JsonError);

/// `serde_json::Value`: a JSON value as `serde_json` holds it.
#[verifier::external_type_specification]
#[verifier::external_body]
pub struct ExJsonValue(serde_json::Value);

/// What `serde_json` reads from a JSON text, `None` where it reads the text
/// as no JSON document. Of the members of an object that have the same
/// name, `serde_json` keeps the last, so no two members of what it reads
/// have the same name.
pub uninterp spec fn json_document(text: Seq<u8>) -> Option<JsonView>;

/// Calls `serde_json::from_slice` for a `serde_json::Value`. The contract
/// claims that what comes back depends on the bytes alone: whether it is a
/// document, and what the document holds.
#[verifier::external_body]
pub(crate) fn parse_json(text: &[u8]) -> (r: Result<Json, JsonError>)
    ensures
        match r {
            Ok(document) => json_document(text@) == Some(document@),
            Err(_) => json_document(text@) is None,
        },
{
    serde_json::from_slice::<serde_json::Value>(text).map(json_of)
}

/// Moves a `serde_json::Value` into a `Json`, variant by variant. A number
/// goes through `serde_json::Number::as_i64`.
#[verifier::external_body]
fn json_of(value: serde_json::Value) -> Json {
    match value {
        serde_json::Value::Null => Json::Null,
        serde_json::Value::Bool(b) => Json::Bool(b),
        serde_json::Value::Number(n) => Json::Number(n.as_i64()),
        serde_json::Value::String(s) => Json::Text(s),
        serde_json::Value::Array(items) => Json::Array(items.into_iter().map(json_of).collect()),
        serde_json::Value::Object(members) => Json::Object(
            members.into_iter().map(|(name, v)| (name, json_of(v))).collect(),
        ),
    }
}

/// The value of the first of `members` that is called `name`.
pub open spec fn member(members: Seq<(Seq<char>, JsonView)>, name: Seq<char>) -> Option<
    JsonView,
>
    decreases members.len(),
{
    if members.len() == 0 {
        None
    } else if members[0].0 == name {
        Some(members[0].1)
    } else {
        member(members.drop_first(), name)
    }
}

impl JsonView {
    /// The member called `name`, where this is an object that has one.
    pub open spec fn get(self, name: Seq<char>) -> Option<JsonView> {
        match self {
            JsonView::Object(members) => member(members, name),
            _ => None,
        }
    }

    /// The characters of this string, where this is a string.
    pub open spec fn text(self) -> Option<Seq<char>> {
        match self {
            JsonView::Text(s) => Some(s),
            _ => None,
        }
    }

    /// This integer, where this is a number that an `i64` holds.
    pub open spec fn integer(self) -> Option<i64> {
        match self {
            JsonView::Number(n) => n,
            _ => None,
        }
    }

    /// The items of this array, where this is an array.
    pub open spec fn items(self) -> Option<Seq<JsonView>> {
        match self {
            JsonView::Array(items) => Some(items),
            _ => None,
        }
    }

    /// The string that the member called `name` holds.
    pub open spec fn text_member(self, name: Seq<char>) -> Option<Seq<char>> {
        match self.get(name) {
            Some(value) => value.text(),
            None => None,
        }
    }

    /// The integer that the member called `name` holds.
    pub open spec fn integer_member(self, name: Seq<char>) -> Option<i64> {
        match self.get(name) {
            Some(value) => value.integer(),
            None => None,
        }
    }
}

/// The value of the first of `members` that is called `name`.
pub fn find_member<'a>(members: &'a Vec<(String, Json)>, name: &str) -> (r: Option<&'a Json>)
    ensures
        match r {
            Some(value) => member(member_views(members@), name@) == Some(value@),
            None => member(member_views(members@), name@) is None,
        },
{
    let ghost all = member_views(members@);
    let mut i: usize = 0;
    assert(all.skip(0) == all);
    while i < members.len()
        invariant
            i <= members.len(),
            all == member_views(members@),
            member(all, name@) == member(all.skip(i as int), name@),
        decreases members.len() - i,
    {
        assert(all.skip(i as int).drop_first() == all.skip(i + 1));
        assert(all.skip(i as int)[0] == all[i as int]);
        if same_text(members[i].0.as_str(), name) {
            return Some(&members[i].1);
        }
        i = i + 1;
    }
    None
}

impl Json {
    /// The member called `name`, where this is an object that has one.
    pub fn get(&self, name: &str) -> (r: Option<&Json>)
        ensures
            match r {
                Some(value) => self@.get(name@) == Some(value@),
                None => self@.get(name@) is None,
            },
    {
        proof {
            lemma_view(*self);
        }
        match self {
            Json::Object(members) => find_member(members, name),
            _ => None,
        }
    }

    /// The characters of this string, where this is a string.
    pub fn as_text(&self) -> (r: Option<&str>)
        ensures
            match r {
                Some(s) => self@.text() == Some(s@),
                None => self@.text() is None,
            },
    {
        match self {
            Json::Text(s) => Some(s.as_str()),
            _ => None,
        }
    }

    /// This integer, where this is a number that an `i64` holds.
    pub fn as_integer(&self) -> (r: Option<i64>)
        ensures
            r == self@.integer(),
    {
        match self {
            Json::Number(n) => *n,
            _ => None,
        }
    }

    /// The items of this array, where this is an array.
    pub fn as_items(&self) -> (r: Option<&Vec<Json>>)
        ensures
            match r {
                Some(items) => self@.items() == Some(item_views(items@)),
                None => self@.items() is None,
            },
    {
        proof {
            lemma_view(*self);
        }
        match self {
            Json::Array(items) => Some(items),
            _ => None,
        }
    }

    /// A copy of the string that the member called `name` holds.
    pub fn text_of(&self, name: &str) -> (r: Option<String>)
        ensures
            match r {
                Some(s) => self@.text_member(name@) == Some(s@),
                None => self@.text_member(name@) is None,
            },
    {
        match self.get(name) {
            Some(value) => match value.as_text() {
                Some(s) => Some(s.to_owned()),
                None => None,
            },
            None => None,
        }
    }

    /// The integer that the member called `name` holds.
    pub fn integer_of(&self, name: &str) -> (r: Option<i64>)
        ensures
            r == self@.integer_member(name@),
    {
        match self.get(name) {
            Some(value) => value.as_integer(),
            None => None,
        }
    }
}

} // verus!
