//! JSON as the wire protocol needs it: a document tree to read frames from,
//! and string literals to write frames with. Parsing and escaping are
//! `serde_json`'s; what a frame must hold is decided elsewhere, on the tree.

use vstd::prelude::*;

verus! {

/// A JSON document. A number is kept where it is a non-negative integer that
/// fits in 64 bits, which is all the protocol reads; of any other number only
/// its presence is kept.
#[derive(Debug, PartialEq, Eq)]
pub enum Json {
    Null,
    Bool(bool),
    Number(Option<u64>),
    Str(String),
    Array(Vec<Json>),
    Object(Vec<(String, Json)>),
}

/// `serde_json::Value`, a parsed document; it is copied into a [`Json`]
/// before anything is read from it.
#[verifier::external_type_specification]
#[verifier::external_body]
pub struct ExValue(serde_json::Value);

/// What `serde_json::from_str` makes of a text, or `None` where the text is
/// not one JSON document.
pub uninterp spec fn json_text_value(text: Seq<char>) -> Option<serde_json::Value>;

/// The document tree that a `serde_json::Value` holds.
pub uninterp spec fn json_value_tree(value: serde_json::Value) -> Json;

/// The JSON string literal, quoted and escaped, that `serde_json::to_string`
/// writes for a string.
pub uninterp spec fn json_string_text(s: Seq<char>) -> Seq<char>;

/// Calls `serde_json::from_str` for a `serde_json::Value`.
///
/// Trusted: the outcome depends on the text alone.
#[verifier::external_body]
fn value_from_text(text: &str) -> (r: Option<serde_json::Value>)
    ensures
        r == json_text_value(text@),
{
    serde_json::from_str::<serde_json::Value>(text).ok()
}

/// Copies a `serde_json::Value` into a `Json`, variant by variant; a number
/// goes through `serde_json::Number::as_u64`, an object's entries come in the
/// order in which `serde_json::Map::iter` hands them out.
///
/// Trusted: the tree depends on the value alone.
#[verifier::external_body]
fn tree_from_value(value: &serde_json::Value) -> (r: Json)
    ensures
        r == json_value_tree(*value),
{
    match value {
        serde_json::Value::Null => Json::Null,
        serde_json::Value::Bool(b) => Json::Bool(*b),
        serde_json::Value::Number(n) => Json::Number(n.as_u64()),
        serde_json::Value::String(s) => Json::Str(s.clone()),
        serde_json::Value::Array(a) => Json::Array(a.iter().map(tree_from_value).collect()),
        serde_json::Value::Object(m) => Json::Object(
            m.iter().map(|(k, v)| (k.clone(), tree_from_value(v))).collect(),
        ),
    }
}

/// The indented text that `serde_json::to_string_pretty` writes for a value,
/// where it writes one.
pub uninterp spec fn json_value_pretty(value: serde_json::Value) -> Option<Seq<char>>;

/// Calls `serde_json::to_string_pretty` on a `serde_json::Value`.
///
/// Trusted: the text depends on the value alone.
#[verifier::external_body]
fn value_pretty_text(value: &serde_json::Value) -> (r: Option<String>)
    ensures
        r.deep_view() == json_value_pretty(*value),
{
    serde_json::to_string_pretty(value).ok()
}

/// A JSON text written anew with indentation; `None` where the text is not
/// JSON.
pub open spec fn json_pretty_text(text: Seq<char>) -> Option<Seq<char>> {
    match json_text_value(text) {
        Some(value) => json_value_pretty(value),
        None => None,
    }
}

/// Writes a JSON text anew with indentation.
pub fn pretty(text: &str) -> (r: Option<String>)
    ensures
        r.deep_view() == json_pretty_text(text@),
{
    match value_from_text(text) {
        Some(value) => value_pretty_text(&value),
        None => None,
    }
}

/// Calls `serde_json::to_string` on a string slice.
///
/// Trusted: the literal depends on the string alone. Writing a string to
/// memory cannot fail, so the error arm is never taken.
#[verifier::external_body]
pub(crate) fn quote(s: &str) -> (r: String)
    ensures
        r@ == json_string_text(s@),
{
    serde_json::to_string(s).unwrap_or_default()
}

/// The document that a text holds, or `None` where it is not JSON.
pub open spec fn json_document(text: Seq<char>) -> Option<Json> {
    match json_text_value(text) {
        Some(value) => Some(json_value_tree(value)),
        None => None,
    }
}

impl Json {
    /// Parses a text as one JSON document.
    pub fn parse(text: &str) -> (r: Option<Json>)
        ensures
            r == json_document(text@),
    {
        match value_from_text(text) {
            Some(value) => Some(tree_from_value(&value)),
            None => None,
        }
    }
}

/// The value of the first entry named `key`, if there is one.
pub open spec fn find_entry(entries: Seq<(String, Json)>, key: Seq<char>) -> Option<Json>
    decreases entries.len(),
{
    if entries.len() == 0 {
        None
    } else if entries[0].0@ == key {
        Some(entries[0].1)
    } else {
        find_entry(entries.drop_first(), key)
    }
}

impl Json {
    /// The member `key` of an object; `None` where the document is no object
    /// or has no such member.
    pub open spec fn member(self, key: Seq<char>) -> Option<Json> {
        match self {
            Json::Object(entries) => find_entry(entries@, key),
            _ => None,
        }
    }

    /// Looks up the member `key` of an object.
    pub fn get(&self, key: &str) -> (r: Option<&Json>)
        ensures
            match r {
                Some(value) => self.member(key@) == Some(*value),
                None => self.member(key@) is None,
            },
    {
        match self {
            Json::Object(entries) => {
                let mut i: usize = 0;
                assert(entries@.skip(0) =~= entries@);
                while i < entries.len()
                    invariant
                        i <= entries.len(),
                        self.member(key@) == find_entry(entries@.skip(i as int), key@),
                    decreases entries.len() - i,
                {
                    proof {
                        assert(entries@.skip(i as int).drop_first() =~= entries@.skip(i + 1));
                        assert(entries@.skip(i as int)[0] == entries@[i as int]);
                    }
                    if crate::text::str_eq(entries[i].0.as_str(), key) {
                        return Some(&entries[i].1);
                    }
                    i += 1;
                }
                None
            },
            _ => None,
        }
    }
}

} // verus!
