//! Reading the members of a JSON object that carries the arguments of a call.

use vstd::prelude::*;

verus! {

/// A JSON document as `serde_json` holds it. Its inside is not visible to
/// the verifier: what is read from it goes through the functions below.
#[verifier::external_type_specification]
#[verifier::external_body]
pub struct ExJsonValue(serde_json::Value);

/// The members of a JSON object whose value is a string, each under its
/// key. Empty where the document is no object.
pub uninterp spec fn text_members(doc: serde_json::Value) -> Map<Seq<char>, Seq<char>>;

/// The members of a JSON object whose value is a non-negative integer that
/// fits 64 bits, each under its key. Empty where the document is no object.
pub uninterp spec fn count_members(doc: serde_json::Value) -> Map<Seq<char>, u64>;

/// Calls `serde_json::Value::get` with a string key and then
/// `serde_json::Value::as_str`: the string stored under `key`, or nothing
/// where the document is no object, has no such key, or holds another kind
/// of value there.
#[verifier::external_body]
pub(crate) fn text_member<'a>(doc: &'a serde_json::Value, key: &str) -> (r: Option<&'a str>)
    ensures
        match r {
            Some(s) => text_members(*doc).contains_key(key@) && text_members(*doc)[key@] == s@,
            None => !text_members(*doc).contains_key(key@),
        },
{
    doc.get(key).and_then(serde_json::Value::as_str)
}

/// Calls `serde_json::Value::get` with a string key and then
/// `serde_json::Value::as_u64`: the integer stored under `key`, or nothing
/// where the document is no object, has no such key, or holds there
/// anything but a non-negative integer that fits 64 bits.
#[verifier::external_body]
pub(crate) fn count_member(doc: &serde_json::Value, key: &str) -> (r: Option<u64>)
    ensures
        match r {
            Some(n) => count_members(*doc).contains_key(key@) && count_members(*doc)[key@] == n,
            None => !count_members(*doc).contains_key(key@),
        },
{
    doc.get(key).and_then(serde_json::Value::as_u64)
}

} // verus!
