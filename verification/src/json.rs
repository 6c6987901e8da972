//! JSON documents, read through `serde_json`.
//!
//! A parsed document is a `serde_json::Value`, which the verifier cannot look
//! into. Everything the library knows about one goes through the functions
//! of this module, whose contracts are taken on trust from `serde_json`.

use vstd::prelude::*;

verus! {

#[verifier::external_type_specification]
#[verifier::external_body]
pub struct ExJsonValue(serde_json::Value);

#[verifier::external_type_specification]
#[verifier::external_body]
pub struct ExJsonError(serde_json::Error);

/// The document that `serde_json::from_str` reads from `text`, if `text` is JSON.
pub uninterp spec fn json_document(text: Seq<char>) -> Option<serde_json::Value>;

/// The member that `Value::get` finds under `key`.
pub uninterp spec fn json_member(value: serde_json::Value, key: Seq<char>) -> Option<
    serde_json::Value,
>;

/// The text that `Value::as_str` finds in `value`.
pub uninterp spec fn json_text(value: serde_json::Value) -> Option<Seq<char>>;

/// The number that `Value::as_u64` finds in `value`.
pub uninterp spec fn json_number(value: serde_json::Value) -> Option<u64>;

/// The elements that `Value::as_array` finds in `value`.
pub uninterp spec fn json_items(value: serde_json::Value) -> Option<Seq<serde_json::Value>>;

/// Whether `Value::is_null` holds of `value`.
pub uninterp spec fn json_is_null(value: serde_json::Value) -> bool;

/// `text` as a JSON string literal, as `serde_json` writes a `Value::String`.
pub uninterp spec fn json_quoted(text: Seq<char>) -> Seq<char>;

/// `Display` of the `Value` made from a string slice: the JSON string
/// literal for `text`, quoted and escaped. It depends on `text` alone.
#[verifier::external_body]
pub(crate) fn quote(text: &str) -> (r: String)
    ensures
        r@ == json_quoted(text@),
{
    serde_json::Value::from(text).to_string()
}

/// `serde_json::from_str` at `Value`: the outcome depends on `text` alone, and
/// it is `Ok` exactly when `text` is a JSON document.
#[verifier::external_body]
pub(crate) fn parse_document(text: &str) -> (r: Result<serde_json::Value, serde_json::Error>)
    ensures
        r is Ok <==> json_document(text@) is Some,
        r is Ok ==> json_document(text@) == Some(r->Ok_0),
{
    serde_json::from_str::<serde_json::Value>(text)
}

/// `Display` of a `serde_json::Error`. Nothing is claimed of the wording.
#[verifier::external_body]
pub(crate) fn error_detail(error: &serde_json::Error) -> (r: String) {
    error.to_string()
}

/// `Value::get` with a string key: the member of an object under that key.
#[verifier::external_body]
pub(crate) fn member<'a>(value: &'a serde_json::Value, key: &str) -> (r: Option<
    &'a serde_json::Value,
>)
    ensures
        r is Some <==> json_member(*value, key@) is Some,
        r is Some ==> json_member(*value, key@) == Some(*r->Some_0),
{
    value.get(key)
}

/// `Value::as_str`: the text of a JSON string, `None` for any other value.
#[verifier::external_body]
pub(crate) fn text_of<'a>(value: &'a serde_json::Value) -> (r: Option<&'a str>)
    ensures
        r is Some <==> json_text(*value) is Some,
        r is Some ==> json_text(*value) == Some(r->Some_0@),
{
    value.as_str()
}

/// `Value::as_u64`: a JSON number that is an integer in the range of `u64`.
#[verifier::external_body]
pub(crate) fn number_of(value: &serde_json::Value) -> (r: Option<u64>)
    ensures
        r == json_number(*value),
{
    value.as_u64()
}

/// `Value::as_array`: the elements of a JSON array, `None` for any other value.
#[verifier::external_body]
pub(crate) fn items_of<'a>(value: &'a serde_json::Value) -> (r: Option<&'a Vec<serde_json::Value>>)
    ensures
        r is Some <==> json_items(*value) is Some,
        r is Some ==> json_items(*value) == Some(r->Some_0@),
{
    value.as_array()
}

/// `Value::is_null`.
#[verifier::external_body]
pub(crate) fn is_null(value: &serde_json::Value) -> (r: bool)
    ensures
        r == json_is_null(*value),
{
    value.is_null()
}

/// The text stored under `key` in `document`.
pub open spec fn text_member(document: serde_json::Value, key: Seq<char>) -> Option<Seq<char>> {
    match json_member(document, key) {
        Some(m) => json_text(m),
        None => None,
    }
}

/// The number stored under `key` in `document`.
pub open spec fn number_member(document: serde_json::Value, key: Seq<char>) -> Option<u64> {
    match json_member(document, key) {
        Some(m) => json_number(m),
        None => None,
    }
}

/// Reads the text stored under `key`.
pub fn get_text(document: &serde_json::Value, key: &str) -> (r: Option<String>)
    ensures
        r is Some <==> text_member(*document, key@) is Some,
        r is Some ==> text_member(*document, key@) == Some(r->Some_0@),
{
    match member(document, key) {
        Some(m) => match text_of(m) {
            Some(t) => Some(t.to_owned()),
            None => None,
        },
        None => None,
    }
}

/// Reads the number stored under `key`.
pub fn get_number(document: &serde_json::Value, key: &str) -> (r: Option<u64>)
    ensures
        r == number_member(*document, key@),
{
    match member(document, key) {
        Some(m) => number_of(m),
        None => None,
    }
}

/// The member of `document` under `key`, where it is there and not `null`.
pub open spec fn present(document: serde_json::Value, key: Seq<char>) -> Option<serde_json::Value> {
    match json_member(document, key) {
        Some(m) => if json_is_null(m) {
            None
        } else {
            Some(m)
        },
        None => None,
    }
}

/// The text under `key`: `Some(None)` where the member is missing or
/// `null`, `None` where it is there and no text.
pub open spec fn optional_text(document: serde_json::Value, key: Seq<char>) -> Option<
    Option<Seq<char>>,
> {
    match present(document, key) {
        Some(m) => match json_text(m) {
            Some(t) => Some(Some(t)),
            None => None,
        },
        None => Some(None),
    }
}

/// The member under `key`, where it is there and not `null`.
pub fn get_present<'a>(document: &'a serde_json::Value, key: &str) -> (r: Option<
    &'a serde_json::Value,
>)
    ensures
        r is Some <==> present(*document, key@) is Some,
        r is Some ==> present(*document, key@) == Some(*r->Some_0),
{
    match member(document, key) {
        Some(m) => if is_null(m) {
            None
        } else {
            Some(m)
        },
        None => None,
    }
}

/// Reads the text under `key`, which may be missing or `null`.
pub fn get_optional_text(document: &serde_json::Value, key: &str) -> (r: Option<Option<String>>)
    ensures
        r is Some <==> optional_text(*document, key@) is Some,
        r is Some ==> (r->Some_0 is Some <==> optional_text(*document, key@)->Some_0 is Some),
        r is Some && r->Some_0 is Some ==> optional_text(*document, key@)->Some_0 == Some(
            r->Some_0->Some_0@,
        ),
{
    match get_present(document, key) {
        Some(m) => match text_of(m) {
            Some(t) => Some(Some(t.to_owned())),
            None => None,
        },
        None => Some(None),
    }
}

} // verus!
