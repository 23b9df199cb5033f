//! Reading provider replies as JSON.
//!
//! The provider answers with small JSON objects of which only a few
//! text-valued members matter. Parsing is `serde_json`'s work; this module
//! gives it a contract.

use vstd::prelude::*;

verus! {

/// `serde_json::Value`, a parsed JSON value. Nothing is known of what is
/// inside one but what `text_members` names.
#[verifier::external_type_specification]
#[verifier::external_body]
pub struct ExValue(serde_json::Value);

/// The text-valued members of a JSON value. For an object this maps the name
/// of each member whose value is a JSON string to that string; for any other
/// kind of value it is empty.
pub uninterp spec fn text_members(value: serde_json::Value) -> Map<Seq<char>, Seq<char>>;

/// What `text` holds when read as one JSON document: `None` where it is not
/// a JSON document, else the text-valued members of the value it denotes.
pub uninterp spec fn document_members(text: Seq<char>) -> Option<Map<Seq<char>, Seq<char>>>;

/// `serde_json::from_str` at type `serde_json::Value`. It either fails or
/// yields the value that the text denotes; the contract names that result and
/// drops the reason of a failure.
#[verifier::external_body]
pub(crate) fn parse(text: &str) -> (r: Option<serde_json::Value>)
    ensures
        r is Some <==> document_members(text@) is Some,
        r matches Some(v) ==> document_members(text@) == Some(text_members(v)),
{
    match serde_json::from_str::<serde_json::Value>(text) {
        Ok(value) => Some(value),
        Err(_) => None,
    }
}

/// `serde_json::Value::get` with a string index, narrowed to members that are
/// JSON strings. `get` finds a member only in an object that has it; a member
/// of another kind than string counts as absent.
#[verifier::external_body]
pub(crate) fn text_member(value: &serde_json::Value, name: &str) -> (r: Option<String>)
    ensures
        r is Some <==> text_members(*value).contains_key(name@),
        r matches Some(s) ==> s@ == text_members(*value)[name@],
{
    match value.get(name) {
        Some(serde_json::Value::String(s)) => Some(s.clone()),
        _ => None,
    }
}

/// The value of the text-valued member `name` of the JSON document `text`,
/// if `text` is a document that has one.
pub open spec fn document_text(text: Seq<char>, name: Seq<char>) -> Option<Seq<char>> {
    match document_members(text) {
        Some(members) => if members.contains_key(name) {
            Some(members[name])
        } else {
            None
        },
        None => None,
    }
}

/// The text-valued member `name` of a parsed document; `None` where parsing
/// failed or the document has no such member.
pub fn member(doc: &Option<serde_json::Value>, name: &str) -> (r: Option<String>)
    ensures
        r.deep_view() == match *doc {
            Some(v) => if text_members(v).contains_key(name@) {
                Some(text_members(v)[name@])
            } else {
                None
            },
            None => None,
        },
{
    match doc {
        Some(value) => text_member(value, name),
        None => None,
    }
}

} // verus!
