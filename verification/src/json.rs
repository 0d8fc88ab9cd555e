//! JSON as the service sends it, read with `serde_json`.
//!
//! A `serde_json::Value` is opaque to the verifier. What it holds is named by
//! [`json_of`], a mathematical tree, and every accessor used by this crate is
//! given a contract over that tree. The contracts in this file are taken on
//! trust from the source of `serde_json`; everything built on them is proved.

use vstd::prelude::*;

verus! {

/// `serde_json::Value`, carried as an opaque value.
#[verifier::external_type_specification]
#[verifier::external_body]
pub struct ExValue(serde_json::Value);

/// `serde_json::Error`, carried as an opaque value.
#[verifier::external_type_specification]
#[verifier::external_body]
pub struct ExJsonError(serde_json::Error);

/// A JSON number: held as an integer where it is written as one that fits,
/// and as a double, told apart by its bit pattern, where it is not.
pub enum JsonNumber {
    Integer(int),
    Double(int),
}

/// A JSON value as a mathematical tree.
pub enum Json {
    Null,
    Bool(bool),
    Number(JsonNumber),
    Text(Seq<char>),
    Array(Seq<Json>),
    Object(Map<Seq<char>, Json>),
}

/// The tree that a `serde_json::Value` holds.
pub uninterp spec fn json_of(value: serde_json::Value) -> Json;

/// The tree that `bytes` spell as JSON text, if they spell one.
pub uninterp spec fn json_parsed(bytes: Seq<u8>) -> Option<Json>;

impl Json {
    /// The member `key` of an object; nothing for a missing key and for any
    /// value that is not an object.
    pub open spec fn member(self, key: Seq<char>) -> Option<Json> {
        match self {
            Json::Object(members) if members.contains_key(key) => Some(members[key]),
            _ => None,
        }
    }

    /// The characters of a JSON string; nothing for any other value.
    pub open spec fn text(self) -> Option<Seq<char>> {
        match self {
            Json::Text(chars) => Some(chars),
            _ => None,
        }
    }

    /// The value as a signed 64-bit integer: only for a number held as an
    /// integer within that range.
    pub open spec fn int64(self) -> Option<i64> {
        match self {
            Json::Number(JsonNumber::Integer(n)) if i64::MIN <= n <= i64::MAX => Some(n as i64),
            _ => None,
        }
    }
}

/// `serde_json::from_slice` at type `Value`: succeeds exactly on the byte
/// strings that spell a JSON value, and returns the value they spell.
#[verifier::external_body]
pub(crate) fn parse(bytes: &[u8]) -> (parsed: Result<serde_json::Value, serde_json::Error>)
    ensures
        match parsed {
            Ok(value) => json_parsed(bytes@) == Some(json_of(value)),
            Err(_) => json_parsed(bytes@) is None,
        },
{
    serde_json::from_slice::<serde_json::Value>(bytes)
}

/// `Value::get` with a string index: the member of an object under `key`,
/// and nothing where the key is missing or the value is not an object.
#[verifier::external_body]
pub(crate) fn member<'a>(value: &'a serde_json::Value, key: &str) -> (found: Option<
    &'a serde_json::Value,
>)
    ensures
        match found {
            Some(inner) => json_of(*value).member(key@) == Some(json_of(*inner)),
            None => json_of(*value).member(key@) is None,
        },
{
    value.get(key)
}

/// `Value::as_str`: the characters of a JSON string, nothing for any other
/// value.
pub assume_specification<'a>[ serde_json::Value::as_str ](value: &'a serde_json::Value) -> (text:
    Option<&'a str>)
    ensures
        match text {
            Some(chars) => json_of(*value).text() == Some(chars@),
            None => json_of(*value).text() is None,
        },
;

/// `Value::is_null`: whether the value is JSON `null`.
pub assume_specification[ serde_json::Value::is_null ](value: &serde_json::Value) -> (null: bool)
    ensures
        null == (json_of(*value) is Null),
;

/// `Value::is_number`: whether the value is a JSON number.
pub assume_specification[ serde_json::Value::is_number ](value: &serde_json::Value) -> (number:
    bool)
    ensures
        number == (json_of(*value) is Number),
;

/// `Value::is_object`: whether the value is a JSON object.
pub assume_specification[ serde_json::Value::is_object ](value: &serde_json::Value) -> (object:
    bool)
    ensures
        object == (json_of(*value) is Object),
;

/// `Value::as_i64`: an integer that fits in 64 signed bits, nothing for any
/// other value.
pub assume_specification[ serde_json::Value::as_i64 ](value: &serde_json::Value) -> (number:
    Option<i64>)
    ensures
        number == json_of(*value).int64(),
;

/// `Value::as_array`: the elements of a JSON array in order, nothing for any
/// other value.
pub assume_specification<'a>[ serde_json::Value::as_array ](value: &'a serde_json::Value) -> (items:
    Option<&'a Vec<serde_json::Value>>)
    ensures
        match items {
            Some(list) => json_of(*value) matches Json::Array(trees) && trees.len() == list@.len()
                && forall|i: int|
                0 <= i < trees.len() ==> trees[i] == json_of(#[trigger] list@[i]),
            None => !(json_of(*value) is Array),
        },
;

/// `Value::clone`: a value that holds the same tree.
pub assume_specification[ <serde_json::Value as Clone>::clone ](value: &serde_json::Value) -> (copy:
    serde_json::Value)
    ensures
        json_of(copy) == json_of(*value),
;

} // verus!
