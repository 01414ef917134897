//! JSON values, as `serde_json` reads and writes them.
//!
//! The text of a region document is parsed and printed by `serde_json`. This
//! module declares its value type, gives the content of a value a
//! mathematical model, and states over that model what each call does that
//! the rest of the crate relies on. None of these statements is proved here:
//! they describe `serde_json`.

use vstd::prelude::*;

verus! {

/// A JSON number as `serde_json` keeps it.
pub enum JsonNumber {
    /// An integer that is zero or more and fits 64 bits.
    Unsigned(u64),
    /// An integer below zero.
    Negative(i64),
    /// Any other number, by the bits of its 64-bit floating-point form.
    Fraction(u64),
}

/// The content of a JSON value. An object keeps its members in the order in
/// which they were written or inserted; no two members share a key.
pub enum Json {
    Null,
    Bool(bool),
    Number(JsonNumber),
    Text(Seq<char>),
    Array(Seq<Json>),
    Object(Seq<(Seq<char>, Json)>),
}

/// `serde_json::Value`, declared without its variants: what a value holds
/// is reached through `json_model` and the calls below.
#[verifier::external_type_specification]
#[verifier::external_body]
pub struct ExValue(serde_json::Value);

/// `serde_json::Error`, declared without its content: an error is passed on
/// or dropped, never looked into.
#[verifier::external_type_specification]
#[verifier::external_body]
pub struct ExError(serde_json::Error);

/// What a `serde_json::Value` holds.
pub uninterp spec fn json_model(value: serde_json::Value) -> Json;

/// The value that `serde_json::from_slice` reads from a text, or `None` where
/// it rejects the text.
pub uninterp spec fn json_parsed(text: Seq<u8>) -> Option<Json>;

/// The text that `serde_json::to_vec_pretty` writes for a value, or `None`
/// where it fails.
pub uninterp spec fn json_printed(value: Json) -> Option<Seq<u8>>;

/// The models of a list of values, in order.
pub open spec fn json_models(values: Seq<serde_json::Value>) -> Seq<Json> {
    values.map_values(|v: serde_json::Value| json_model(v))
}

/// The members that a list of keys and values stands for, in order.
pub open spec fn json_members(fields: Seq<(String, serde_json::Value)>) -> Seq<(Seq<char>, Json)> {
    fields.map_values(|f: (String, serde_json::Value)| (f.0@, json_model(f.1)))
}

/// Position of the first member with the given key.
pub open spec fn member_position(members: Seq<(Seq<char>, Json)>, key: Seq<char>) -> Option<int>
    decreases members.len(),
{
    if members.len() == 0 {
        None
    } else if members[0].0 == key {
        Some(0)
    } else {
        match member_position(members.drop_first(), key) {
            Some(i) => Some(i + 1),
            None => None,
        }
    }
}

/// `member_position` gives a member with the key that has no earlier member
/// with the key, and gives one whenever there is one.
pub proof fn lemma_member_position(members: Seq<(Seq<char>, Json)>, key: Seq<char>)
    ensures
        match member_position(members, key) {
            Some(i) => 0 <= i < members.len() && members[i].0 == key && forall|j: int|
                0 <= j < i ==> (#[trigger] members[j]).0 != key,
            None => forall|j: int| 0 <= j < members.len() ==> (#[trigger] members[j]).0 != key,
        },
    decreases members.len(),
{
    if members.len() > 0 && members[0].0 != key {
        let rest = members.drop_first();
        lemma_member_position(rest, key);
        match member_position(rest, key) {
            Some(i) => {
                assert forall|j: int| 0 <= j < i + 1 implies (#[trigger] members[j]).0 != key by {
                    if j > 0 {
                        assert(rest[j - 1] == members[j]);
                    }
                }
            },
            None => {
                assert forall|j: int| 0 <= j < members.len() implies (#[trigger] members[j]).0
                    != key by {
                    if j > 0 {
                        assert(rest[j - 1] == members[j]);
                    }
                }
            },
        }
    }
}

/// The member of an object with the given key; `None` for anything that is
/// not an object or has no such member.
pub open spec fn json_field(value: Json, key: Seq<char>) -> Option<Json> {
    match value {
        Json::Object(members) => match member_position(members, key) {
            Some(i) => Some(members[i].1),
            None => None,
        },
        _ => None,
    }
}

/// The number that a value holds as an unsigned integer, if it is one.
pub open spec fn json_u64(value: Json) -> Option<u64> {
    match value {
        Json::Number(JsonNumber::Unsigned(n)) => Some(n),
        _ => None,
    }
}

/// The characters of a value that is a string.
pub open spec fn json_text(value: Json) -> Option<Seq<char>> {
    match value {
        Json::Text(s) => Some(s),
        _ => None,
    }
}

/// The items of a value that is an array.
pub open spec fn json_items(value: Json) -> Option<Seq<Json>> {
    match value {
        Json::Array(items) => Some(items),
        _ => None,
    }
}

/// Whether no two entries of a list of keys and values share a key.
pub open spec fn keys_distinct(fields: Seq<(String, serde_json::Value)>) -> bool {
    forall|i: int, j: int|
        0 <= i < j < fields.len() ==> (#[trigger] fields[i]).0@ != (#[trigger] fields[j]).0@
}

/// Calls `serde_json::from_slice` for a `Value`. The contract names what it
/// reads: the result is `Ok` exactly where `json_parsed` gives a value, and
/// that value is what the result holds.
#[verifier::external_body]
pub(crate) fn parse_value(text: &[u8]) -> (result: Result<serde_json::Value, serde_json::Error>)
    ensures
        result matches Ok(value) ==> json_parsed(text@) == Some(json_model(value)),
        result is Err ==> json_parsed(text@) is None,
{
    serde_json::from_slice::<serde_json::Value>(text)
}

/// Calls `serde_json::to_vec_pretty` on a `Value`. The contract names what it
/// writes: the bytes, or the failure, that `json_printed` gives for the
/// content of the value.
#[verifier::external_body]
pub(crate) fn print_value(value: &serde_json::Value) -> (result: Result<
    Vec<u8>,
    serde_json::Error,
>)
    ensures
        result matches Ok(text) ==> json_printed(json_model(*value)) == Some(text@),
        result is Err ==> json_printed(json_model(*value)) is None,
{
    serde_json::to_vec_pretty(value)
}

/// Calls `Value::get` with a string key: the member of an object with that
/// key, and nothing for a value that is no object or has no such member.
#[verifier::external_body]
pub(crate) fn value_field<'a>(value: &'a serde_json::Value, key: &str) -> (field: Option<
    &'a serde_json::Value,
>)
    ensures
        field matches Some(f) ==> json_field(json_model(*value), key@) == Some(json_model(*f)),
        field is None ==> json_field(json_model(*value), key@) is None,
{
    value.get(key)
}

/// Calls `Value::as_u64`: the number, where the value is an integer that is
/// zero or more and fits 64 bits.
#[verifier::external_body]
pub(crate) fn value_as_u64(value: &serde_json::Value) -> (number: Option<u64>)
    ensures
        number == json_u64(json_model(*value)),
{
    value.as_u64()
}

/// Calls `Value::as_str`: the characters, where the value is a string.
#[verifier::external_body]
pub(crate) fn value_as_str<'a>(value: &'a serde_json::Value) -> (text: Option<&'a str>)
    ensures
        text matches Some(s) ==> json_text(json_model(*value)) == Some(s@),
        text is None ==> json_text(json_model(*value)) is None,
{
    value.as_str()
}

/// Calls `Value::as_array`: the items, where the value is an array.
#[verifier::external_body]
pub(crate) fn value_as_array<'a>(value: &'a serde_json::Value) -> (items: Option<
    &'a Vec<serde_json::Value>,
>)
    ensures
        items matches Some(v) ==> json_items(json_model(*value)) == Some(json_models(v@)),
        items is None ==> json_items(json_model(*value)) is None,
{
    value.as_array()
}

/// Calls `Value::from` on a `u64`: a number that holds it.
#[verifier::external_body]
pub(crate) fn value_of_u64(number: u64) -> (value: serde_json::Value)
    ensures
        json_model(value) == Json::Number(JsonNumber::Unsigned(number)),
{
    serde_json::Value::from(number)
}

/// Calls `Value::from` on a `String`: a string with the same characters.
#[verifier::external_body]
pub(crate) fn value_of_string(text: String) -> (value: serde_json::Value)
    ensures
        json_model(value) == Json::Text(text@),
{
    serde_json::Value::from(text)
}

/// Calls `Value::from` on a `Vec<Value>`: an array of the same items.
#[verifier::external_body]
pub(crate) fn value_of_array(items: Vec<serde_json::Value>) -> (value: serde_json::Value)
    ensures
        json_model(value) == Json::Array(json_models(items@)),
{
    serde_json::Value::from(items)
}

/// Collects keys and values into a `Value` through its `FromIterator` for
/// pairs: an object whose members are the entries, in their order. The keys
/// must differ from one another.
#[verifier::external_body]
pub(crate) fn value_of_members(fields: Vec<(String, serde_json::Value)>) -> (value:
    serde_json::Value)
    requires
        keys_distinct(fields@),
    ensures
        json_model(value) == Json::Object(json_members(fields@)),
{
    fields.into_iter().collect::<serde_json::Value>()
}

} // verus!
