//! JSON values, as the `serde_json` crate represents them.
//!
//! A value is opaque to the verifier. What the library reads of one it reads
//! through the accessors declared here, and what it builds it builds through
//! the constructors declared here. Each of them has a name that contracts
//! can speak of; nothing is proved of the crate itself.

use crate::text::opt_text;
use vstd::prelude::*;

verus! {

/// A JSON value of the `serde_json` crate. Verified code carries such values
/// around and reads them only through the functions of this module.
#[verifier::external_type_specification]
#[verifier::external_body]
pub struct ExValue(serde_json::Value);

/// Whether the value is a JSON object.
pub uninterp spec fn json_is_object(v: serde_json::Value) -> bool;

/// The elements of the value, if it is a JSON array.
pub uninterp spec fn json_array(v: serde_json::Value) -> Option<Seq<serde_json::Value>>;

/// The member of the value under `key`, if the value is a JSON object that
/// has one.
pub uninterp spec fn json_field(v: serde_json::Value, key: Seq<char>) -> Option<serde_json::Value>;

/// Whether the value is JSON `null`.
pub uninterp spec fn json_is_null(v: serde_json::Value) -> bool;

/// The value as a signed 64-bit integer, if it is an integer in that range.
pub uninterp spec fn json_as_i64(v: serde_json::Value) -> Option<i64>;

/// The characters of the value, if it is a JSON string.
pub uninterp spec fn json_as_str(v: serde_json::Value) -> Option<Seq<char>>;

/// The JSON string with the given characters.
pub uninterp spec fn json_string(s: Seq<char>) -> serde_json::Value;

/// The JSON object built from the given members, in the given order.
pub uninterp spec fn json_object(members: Seq<(Seq<char>, serde_json::Value)>) -> serde_json::Value;

/// The value that a text denotes, if the text is well-formed JSON.
pub uninterp spec fn json_parse(text: Seq<char>) -> Option<serde_json::Value>;

/// The compact text of a value, if it has one.
pub uninterp spec fn json_text(v: serde_json::Value) -> Option<Seq<char>>;

/// `Value::is_object` of `serde_json`: true exactly for the `Object` variant.
pub assume_specification[ serde_json::Value::is_object ](v: &serde_json::Value) -> (r: bool)
    ensures
        r == json_is_object(*v),
;

/// `Value::as_array` of `serde_json`: the vector held by the `Array` variant,
/// `None` for every other variant.
pub assume_specification[ serde_json::Value::as_array ](v: &serde_json::Value) -> (r: Option<
    &Vec<serde_json::Value>,
>)
    ensures
        match r {
            Some(items) => json_array(*v) == Some(items@),
            None => json_array(*v) is None,
        },
;

/// `Value::is_null` of `serde_json`: true exactly for the `Null` variant.
pub assume_specification[ serde_json::Value::is_null ](v: &serde_json::Value) -> (r: bool)
    ensures
        r == json_is_null(*v),
;

/// `Value::as_i64` of `serde_json`: the number held by the `Number` variant
/// when it is an integer that fits `i64`, `None` otherwise.
pub assume_specification[ serde_json::Value::as_i64 ](v: &serde_json::Value) -> (r: Option<i64>)
    ensures
        r == json_as_i64(*v),
;

/// `Value::as_str` of `serde_json`: the string held by the `String` variant,
/// `None` for every other variant.
pub assume_specification[ serde_json::Value::as_str ](v: &serde_json::Value) -> (r: Option<&str>)
    ensures
        match r {
            Some(s) => json_as_str(*v) == Some(s@),
            None => json_as_str(*v) is None,
        },
;

/// `Clone::clone` of `serde_json::Value`: a copy equal to the value.
pub assume_specification[ <serde_json::Value as Clone>::clone ](v: &serde_json::Value) -> (r:
    serde_json::Value)
    ensures
        r == *v,
;

/// `Value::get` of `serde_json` with a string index: the member under `key`
/// when the value is an object that has one, `None` otherwise.
#[verifier::external_body]
pub(crate) fn field<'a>(v: &'a serde_json::Value, key: &str) -> (r: Option<&'a serde_json::Value>)
    ensures
        match r {
            Some(m) => json_field(*v, key@) == Some(*m),
            None => json_field(*v, key@) is None,
        },
{
    v.get(key)
}

/// `Value::from` of `serde_json` for a `String`: the `String` variant holding it.
#[verifier::external_body]
pub(crate) fn string_value(s: String) -> (r: serde_json::Value)
    ensures
        r == json_string(s@),
{
    serde_json::Value::from(s)
}

/// Characters and values of a list of members.
pub open spec fn member_views(s: Seq<(String, serde_json::Value)>) -> Seq<
    (Seq<char>, serde_json::Value),
> {
    s.map_values(|m: (String, serde_json::Value)| (m.0@, m.1))
}

/// `Value::from_iter` of `serde_json` for pairs of key and value: the
/// `Object` variant holding the map collected from the pairs in order.
#[verifier::external_body]
pub(crate) fn object_value(members: Vec<(String, serde_json::Value)>) -> (r: serde_json::Value)
    ensures
        r == json_object(member_views(members@)),
{
    serde_json::Value::from_iter(members)
}

/// `serde_json::from_str` for a `Value`: the value that the text denotes,
/// `None` where the crate reports an error.
#[verifier::external_body]
pub(crate) fn parse(text: &str) -> (r: Option<serde_json::Value>)
    ensures
        r == json_parse(text@),
{
    serde_json::from_str::<serde_json::Value>(text).ok()
}

/// `serde_json::to_string` for a `Value`: its compact text, `None` where the
/// crate reports an error.
#[verifier::external_body]
pub(crate) fn to_text(v: &serde_json::Value) -> (r: Option<String>)
    ensures
        opt_text(r) == json_text(*v),
{
    serde_json::to_string(v).ok()
}

} // verus!
