//! JSON values, by way of the `serde_json` crate.

use vstd::prelude::*;

verus! {

/// `serde_json::Value`, a JSON value of any shape. It is carried through as
/// it is and read only through the functions below.
#[verifier::external_type_specification]
#[verifier::external_body]
pub struct ExJsonValue(serde_json::Value);

/// The members of a JSON object that are strings, by name. Any other value
/// has none.
pub uninterp spec fn json_texts(value: serde_json::Value) -> Map<Seq<char>, Seq<char>>;

/// The members of a JSON object that are integers in the range of `i64`, by
/// name. Any other value has none.
pub uninterp spec fn json_integers(value: serde_json::Value) -> Map<Seq<char>, i64>;

/// The string that `value` holds under `name`.
///
/// Wraps `serde_json::Value::get` with a string index, which looks a member
/// of an object up, and `Value::as_str`, which gives the text of a string
/// and nothing for any other value.
#[verifier::external_body]
pub(crate) fn member_text(value: &serde_json::Value, name: &str) -> (text: Option<String>)
    ensures
        match text {
            Some(t) => json_texts(*value).contains_key(name@) && json_texts(*value)[name@] == t@,
            None => !json_texts(*value).contains_key(name@),
        },
{
    match value.get(name) {
        Some(member) => match member.as_str() {
            Some(text) => Some(text.to_string()),
            None => None,
        },
        None => None,
    }
}

/// The integer that `value` holds under `name`.
///
/// Wraps `serde_json::Value::get` with a string index and `Value::as_i64`,
/// which gives the number if it is an integer that fits and nothing
/// otherwise.
#[verifier::external_body]
pub(crate) fn member_integer(value: &serde_json::Value, name: &str) -> (number: Option<i64>)
    ensures
        match number {
            Some(n) => json_integers(*value).contains_key(name@) && json_integers(*value)[name@]
                == n,
            None => !json_integers(*value).contains_key(name@),
        },
{
    match value.get(name) {
        Some(member) => member.as_i64(),
        None => None,
    }
}

} // verus!
