//! What the launcher reads from a JSON document: the text members of an
//! object. The document itself is a `serde_json::Value`, which is carried
//! through unopened.

use vstd::prelude::*;

verus! {

/// `serde_json::Value`, a JSON document of any shape. Nothing of its inside
/// is visible here.
#[verifier::external_type_specification]
#[verifier::external_body]
pub struct ExJsonValue(serde_json::Value);

/// The text members of a JSON value. For an object these are the keys whose
/// value is a JSON string, each with that string; any other value has none.
pub uninterp spec fn text_members(value: serde_json::Value) -> Map<Seq<char>, Seq<char>>;

/// The text that `members` holds under `key`, if any.
pub open spec fn member_text(members: Map<Seq<char>, Seq<char>>, key: Seq<char>) -> Option<
    Seq<char>,
> {
    if members.dom().contains(key) {
        Some(members[key])
    } else {
        None
    }
}

/// Looks `key` up with `serde_json::Value::get`, which finds a member only
/// in an object that has the key, and hands the member out when it is a
/// JSON string: the result is the entry of `text_members` under `key`.
#[verifier::external_body]
pub(crate) fn text_member(value: &serde_json::Value, key: &str) -> (text: Option<String>)
    ensures
        text.deep_view() == member_text(text_members(*value), key@),
{
    match value.get(key) {
        Some(serde_json::Value::String(text)) => Some(text.clone()),
        _ => None,
    }
}

} // verus!
