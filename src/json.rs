//! The outside JSON library: its types as this crate sees them, and the calls
//! that the crate makes into it.
use vstd::prelude::*;

verus! {

#[verifier::external_type_specification]
#[verifier::external_body]
pub struct ExJsonValue(serde_json::Value);

#[verifier::external_type_specification]
#[verifier::external_body]
pub struct ExJsonError(serde_json::Error);

/// Relies on serde_json::to_vec: the compact JSON text of `value`. A `Value`
/// always serializes (its map keys are strings, and writing into a `Vec` does
/// not fail), and no `Vec` holds more than `isize::MAX` bytes. The text depends
/// on the value alone: object keys are written in their sorted order.
#[verifier::external_body]
pub(crate) fn value_to_vec(value: &serde_json::Value) -> (r: Result<Vec<u8>, serde_json::Error>)
    ensures
        r is Ok,
        r is Ok ==> r->Ok_0@ == json_text_of(*value),
        r is Ok ==> r->Ok_0@.len() <= isize::MAX as nat,
{
    serde_json::to_vec(value)
}

/// `b` is one JSON document, as serde_json reads it (surrounding whitespace
/// allowed, nesting within its depth limit).
pub uninterp spec fn is_json_text(b: Seq<u8>) -> bool;

/// The string that the JSON document `b` holds under the key `key` of its
/// top-level object; `None` where the document is no object, lacks the key, or
/// holds no string there.
pub uninterp spec fn str_field_of(b: Seq<u8>, key: Seq<char>) -> Option<Seq<char>>;

/// The value that serde_json reads from the JSON document `b`.
pub uninterp spec fn json_value_of(b: Seq<u8>) -> serde_json::Value;

/// The compact JSON text that serde_json writes for `v`.
pub uninterp spec fn json_text_of(v: serde_json::Value) -> Seq<u8>;

/// The characters of an optional string.
pub open spec fn opt_string_chars(s: Option<String>) -> Option<Seq<char>> {
    match s {
        Some(t) => Some(t@),
        None => None,
    }
}

/// Relies on serde_json::from_slice, and on Value::get with Value::as_str to
/// pick the string held under `key` in the parsed value. The value, whether
/// parsing succeeds, and the string picked depend on the bytes and the key
/// alone.
#[verifier::external_body]
pub(crate) fn value_from_slice(bytes: &[u8], key: &str) -> (r: Result<
    (serde_json::Value, Option<String>),
    serde_json::Error,
>)
    ensures
        r is Ok == is_json_text(bytes@),
        r is Ok ==> r->Ok_0.0 == json_value_of(bytes@),
        r is Ok ==> opt_string_chars(r->Ok_0.1) == str_field_of(bytes@, key@),
{
    serde_json::from_slice::<serde_json::Value>(bytes).map(|v| {
        let field = v.get(key).and_then(serde_json::Value::as_str).map(String::from);
        (v, field)
    })
}

} // verus!
