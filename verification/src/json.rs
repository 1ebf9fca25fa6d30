//! The JSON documents that the server replies with.
//!
//! Parsing is the work of `serde_json`; nothing here is proved of it. The items
//! of this file say what the rest of the crate takes on trust about a parsed
//! document, and every contract about decoding is stated over them.

use vstd::prelude::*;

verus! {

/// A parsed JSON value. Nothing of its inside is visible to the proofs: they
/// know a value only by what the functions of this file tell of it.
#[verifier::external_type_specification]
#[verifier::external_body]
pub struct ExValue(serde_json::Value);

/// What parsing a text yields: the value that the text spells out, or the path
/// of the place at which the text stopped being JSON.
pub uninterp spec fn parsed(text: Seq<char>) -> Result<serde_json::Value, Seq<char>>;

/// The member that an object holds under a key; `None` where the value is no
/// object or has no such member.
pub uninterp spec fn member(value: serde_json::Value, key: Seq<char>) -> Option<serde_json::Value>;

/// The number that a value holds, where it is an integer from 0 to 2^64 - 1;
/// `None` for every other value.
pub uninterp spec fn unsigned(value: serde_json::Value) -> Option<u64>;

/// The elements of an array, in order; `None` where the value is no array.
pub uninterp spec fn elements(value: serde_json::Value) -> Option<Seq<serde_json::Value>>;

/// The characters of a string; `None` where the value is no string.
pub uninterp spec fn string(value: serde_json::Value) -> Option<Seq<char>>;

/// Parses the JSON value at the start of `text`, with
/// `serde_path_to_error::deserialize` over `serde_json::Deserializer::from_str`.
/// On a text that is not JSON the error is the path that `serde_path_to_error`
/// reports, written out. The contract claims only that the outcome is a
/// function of the text: the same text gives the same value, or the same path.
#[verifier::external_body]
pub(crate) fn parse(text: &str) -> (r: Result<serde_json::Value, String>)
    ensures
        match r {
            Ok(value) => parsed(text@) == Ok::<serde_json::Value, Seq<char>>(value),
            Err(path) => parsed(text@) == Err::<serde_json::Value, Seq<char>>(path@),
        },
{
    let mut source = serde_json::Deserializer::from_str(text);
    match serde_path_to_error::deserialize(&mut source) {
        Ok(value) => Ok(value),
        Err(error) => Err(error.path().to_string()),
    }
}

/// Looks a key up with `serde_json::Value::get`, which returns the member of
/// that name where the value is an object that has one, and `None` otherwise.
#[verifier::external_body]
pub(crate) fn get<'a>(value: &'a serde_json::Value, key: &str) -> (r: Option<&'a serde_json::Value>)
    ensures
        match r {
            Some(found) => member(*value, key@) == Some(*found),
            None => member(*value, key@) is None,
        },
{
    value.get(key)
}

/// `serde_json::Value::as_u64` returns the number where the value is an
/// integer that fits in `u64`, and `None` otherwise.
pub assume_specification[ serde_json::Value::as_u64 ](value: &serde_json::Value) -> (r: Option<u64>)
    ensures
        r == unsigned(*value),
;

/// `serde_json::Value::as_array` returns the vector of elements where the
/// value is an array, and `None` otherwise.
pub assume_specification<'a>[ serde_json::Value::as_array ](value: &'a serde_json::Value) -> (r:
    Option<&'a Vec<serde_json::Value>>)
    ensures
        match r {
            Some(items) => elements(*value) == Some(items@),
            None => elements(*value) is None,
        },
;

/// `serde_json::Value::as_str` returns the text where the value is a string,
/// and `None` otherwise.
pub assume_specification<'a>[ serde_json::Value::as_str ](value: &'a serde_json::Value) -> (r:
    Option<&'a str>)
    ensures
        match r {
            Some(text) => string(*value) == Some(text@),
            None => string(*value) is None,
        },
;

} // verus!
