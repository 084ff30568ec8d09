//! JSON documents. They are `serde_json::Value`s, carried through the core
//! unopened: the verifier sees a document only through the few facts below.

use serde_json::Value;
use vstd::prelude::*;

verus! {

/// `serde_json::Value`, known to the verifier as an opaque type.
#[verifier::external_type_specification]
#[verifier::external_body]
pub struct ExValue(serde_json::Value);

/// The compact JSON text of a document, as its `Display` impl writes it
/// (`{"a":1}`, `"text"`, `2`, `null`). It is what the document holds, and the
/// form in which contracts speak of a document.
pub uninterp spec fn json_text(v: Value) -> Seq<char>;

/// The members of a document, each by its compact text. A document that is
/// no object has none.
pub uninterp spec fn json_members(v: Value) -> Map<Seq<char>, Seq<char>>;

/// Those members of a document that are JSON strings, each by the string
/// that it holds. A document that is no object has none.
pub uninterp spec fn json_strings(v: Value) -> Map<Seq<char>, Seq<char>>;

/// Those members of a document that are held as integers from 0 to
/// 2^64 - 1. A document that is no object has none.
pub uninterp spec fn json_naturals(v: Value) -> Map<Seq<char>, u64>;

/// The string that a document holds under the member `key`, if it holds one.
pub open spec fn json_string_member(v: Value, key: Seq<char>) -> Option<Seq<char>> {
    if json_strings(v).contains_key(key) {
        Some(json_strings(v)[key])
    } else {
        None
    }
}

/// The number that a document holds under the member `key`, if it holds one.
pub open spec fn json_u64_member(v: Value, key: Seq<char>) -> Option<u64> {
    if json_naturals(v).contains_key(key) {
        Some(json_naturals(v)[key])
    } else {
        None
    }
}

/// The compact text of the member `key` of a document, or the text of JSON
/// null where the document has no such member.
pub open spec fn json_member_text(v: Value, key: Seq<char>) -> Seq<char> {
    if json_members(v).contains_key(key) {
        json_members(v)[key]
    } else {
        null_text()
    }
}

/// The compact text of JSON null.
pub open spec fn null_text() -> Seq<char> {
    "null"@
}

/// `<Value as Clone>::clone`: the copy is the same document.
pub assume_specification[ <serde_json::Value as Clone>::clone ](v: &serde_json::Value) -> (copy:
    serde_json::Value)
    ensures
        copy == *v,
;

/// `Value::Null`, the JSON null. Trusted: its compact text is `null`.
#[verifier::external_body]
pub(crate) fn null_value() -> (v: Value)
    ensures
        json_text(v) == null_text(),
{
    Value::Null
}

/// `Value::Object` of `Map::new()`, the JSON object without members.
/// Trusted: its compact text is `{}`.
#[verifier::external_body]
pub(crate) fn empty_object() -> (v: Value)
    ensures
        json_text(v) == "{}"@,
{
    Value::Object(serde_json::Map::new())
}

/// `Value::to_string`, the `Display` rendering of a document in compact form.
/// Trusted: the text is a function of the document alone.
#[verifier::external_body]
pub(crate) fn value_text(v: &Value) -> (text: String)
    ensures
        text@ == json_text(*v),
{
    v.to_string()
}

/// `Value::get` with a string key, then `Value::as_str`. Trusted: the result
/// is `Some` exactly for a member of an object that is a JSON string, and
/// then holds that string.
#[verifier::external_body]
pub(crate) fn string_member(v: &Value, key: &str) -> (found: Option<String>)
    ensures
        found is Some <==> json_strings(*v).contains_key(key@),
        found matches Some(s) ==> json_strings(*v)[key@] == s@,
{
    v.get(key).and_then(Value::as_str).map(str::to_owned)
}

/// `Value::get` with a string key, then `Value::as_u64`. Trusted: the result
/// is `Some` exactly for a member of an object that is held as an integer
/// from 0 to 2^64 - 1, and then holds that integer.
#[verifier::external_body]
pub(crate) fn u64_member(v: &Value, key: &str) -> (found: Option<u64>)
    ensures
        found is Some <==> json_naturals(*v).contains_key(key@),
        found matches Some(n) ==> json_naturals(*v)[key@] == n,
{
    v.get(key).and_then(Value::as_u64)
}

/// `Value::get` with a string key, and a copy of what it finds. Trusted: the
/// result is `Some` exactly for a member of an object, and then has the
/// member's compact text.
#[verifier::external_body]
pub(crate) fn member(v: &Value, key: &str) -> (found: Option<Value>)
    ensures
        found is Some <==> json_members(*v).contains_key(key@),
        found matches Some(m) ==> json_text(m) == json_members(*v)[key@],
{
    v.get(key).cloned()
}

} // verus!
