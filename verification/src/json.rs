//! JSON documents: their mathematical content, the trusted boundary to
//! `serde_json`, and verified readers for the members of an object.

use serde_json::Value;
use vstd::prelude::*;

verus! {

/// What a JSON document holds.
pub enum JsonView {
    Null,
    Bool(bool),
    /// A number, as the decimal text that std writes for it once it is read as a
    /// double-precision value.
    Number(Seq<char>),
    Text(Seq<char>),
    Array(Seq<JsonView>),
    Object(Map<Seq<char>, JsonView>),
}

impl JsonView {
    /// The member `key` of an object; `None` for a key that the object lacks
    /// and for a document that is no object.
    pub open spec fn member(self, key: Seq<char>) -> Option<JsonView> {
        match self {
            JsonView::Object(members) => if members.contains_key(key) {
                Some(members[key])
            } else {
                None
            },
            _ => None,
        }
    }

    /// The member `key` where it is a string.
    pub open spec fn text_member(self, key: Seq<char>) -> Option<Seq<char>> {
        match self.member(key) {
            Some(JsonView::Text(text)) => Some(text),
            _ => None,
        }
    }

    /// The member `key` where it is a number.
    pub open spec fn number_member(self, key: Seq<char>) -> Option<Seq<char>> {
        match self.member(key) {
            Some(JsonView::Number(text)) => Some(text),
            _ => None,
        }
    }

    /// The member `key` where it may be left out: a missing member and `null`
    /// both read as `Some(None)`, a string as `Some(Some(..))`, and anything
    /// else does not fit (`None`).
    pub open spec fn optional_text_member(self, key: Seq<char>) -> Option<Option<Seq<char>>> {
        match self.member(key) {
            None => Some(None),
            Some(JsonView::Null) => Some(None),
            Some(JsonView::Text(text)) => Some(Some(text)),
            Some(_) => None,
        }
    }
}

/// `serde_json::Value`: a document as the parser hands it out. Nothing inside
/// it is visible here; what it holds is read through the functions below.
#[verifier::external_type_specification]
#[verifier::external_body]
pub struct ExValue(serde_json::Value);

/// What a `serde_json::Value` holds.
pub uninterp spec fn contents(doc: serde_json::Value) -> JsonView;

/// The document that `serde_json::from_str` reads from a text, or `None` where
/// the text is not one JSON document.
pub uninterp spec fn parsed(text: Seq<char>) -> Option<JsonView>;

/// What each of `docs` holds, in order.
pub open spec fn all_contents(docs: Seq<serde_json::Value>) -> Seq<JsonView> {
    docs.map_values(|doc: serde_json::Value| contents(doc))
}

/// `serde_json::Value::is_null` is true of `null` and of nothing else.
pub assume_specification[ serde_json::Value::is_null ](doc: &serde_json::Value) -> (null: bool)
    ensures
        null == (contents(*doc) is Null),
;

/// `serde_json::Value::as_str` hands out the text of a string and nothing for
/// any other document.
pub assume_specification<'a>[ serde_json::Value::as_str ](doc: &'a serde_json::Value) -> (text:
    Option<&'a str>)
    ensures
        match contents(*doc) {
            JsonView::Text(held) => text is Some && text->Some_0@ == held,
            _ => text is None,
        },
;

/// `serde_json::Value::as_array` hands out the elements of an array, in order,
/// and nothing for any other document.
pub assume_specification<'a>[ serde_json::Value::as_array ](doc: &'a serde_json::Value) -> (items:
    Option<&'a Vec<serde_json::Value>>)
    ensures
        match contents(*doc) {
            JsonView::Array(held) => items is Some && all_contents(items->Some_0@) == held,
            _ => items is None,
        },
;

/// Reads one JSON document from a text.
///
/// Trusted: this is `serde_json::from_str` at the type `serde_json::Value`;
/// where it fails, its error is turned into an I/O error by the `From` impl
/// that `serde_json` provides. The contract names what is read, and claims
/// that the value returned holds just that.
#[verifier::external_body]
pub(crate) fn parse(text: &str) -> (doc: Result<Value, std::io::Error>)
    ensures
        match parsed(text@) {
            Some(held) => doc is Ok && contents(doc->Ok_0) == held,
            None => doc is Err,
        },
{
    match serde_json::from_str::<Value>(text) {
        Ok(doc) => Ok(doc),
        Err(error) => Err(std::io::Error::from(error)),
    }
}

/// Looks a key up in a document.
///
/// Trusted: this is `serde_json::Value::get` with a string key. The contract
/// claims that it finds the member of that name in an object, and nothing in
/// an object without it or in a document that is no object.
#[verifier::external_body]
pub(crate) fn member<'a>(doc: &'a Value, key: &str) -> (found: Option<&'a Value>)
    ensures
        match contents(*doc).member(key@) {
            Some(held) => found is Some && contents(*found->Some_0) == held,
            None => found is None,
        },
{
    doc.get(key)
}

/// The decimal text of a number.
///
/// Trusted: this is `serde_json::Value::as_f64`, whose result std's
/// `to_string` writes out. The contract claims that every number has such a
/// text and no other document has one; that holds of `serde_json` as it is
/// built by default, without arbitrary precision.
#[verifier::external_body]
pub(crate) fn number(doc: &Value) -> (text: Option<String>)
    ensures
        match contents(*doc) {
            JsonView::Number(held) => text is Some && text->Some_0@ == held,
            _ => text is None,
        },
{
    match doc.as_f64() {
        Some(value) => Some(value.to_string()),
        None => None,
    }
}

/// The views of an optional text.
pub open spec fn text_of(text: Option<String>) -> Option<Seq<char>> {
    match text {
        Some(text) => Some(text@),
        None => None,
    }
}

/// The member `key` of `doc` where it is a string.
pub fn text_member(doc: &Value, key: &str) -> (text: Option<String>)
    ensures
        text_of(text) == contents(*doc).text_member(key@),
{
    match member(doc, key) {
        Some(inner) => match inner.as_str() {
            Some(text) => Some(text.to_owned()),
            None => None,
        },
        None => None,
    }
}

/// The member `key` of `doc` where it is a number, as decimal text.
pub fn number_member(doc: &Value, key: &str) -> (text: Option<String>)
    ensures
        text_of(text) == contents(*doc).number_member(key@),
{
    match member(doc, key) {
        Some(inner) => number(inner),
        None => None,
    }
}

/// The member `key` of `doc` where it may be left out or be `null`.
pub fn optional_text_member(doc: &Value, key: &str) -> (text: Option<Option<String>>)
    ensures
        match contents(*doc).optional_text_member(key@) {
            Some(held) => text is Some && text_of(text->Some_0) == held,
            None => text is None,
        },
{
    match member(doc, key) {
        None => Some(None),
        Some(inner) => {
            if inner.is_null() {
                Some(None)
            } else {
                match inner.as_str() {
                    Some(text) => Some(Some(text.to_owned())),
                    None => None,
                }
            }
        },
    }
}

} // verus!
