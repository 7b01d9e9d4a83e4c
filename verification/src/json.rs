//! The JSON reader that the credential resolver and the reply decoders rely on.
//! Parsing is the work of `serde_json`. The items here are believed, not proved:
//! they declare its document and error types, give the results of its functions
//! names that contracts can use, and wrap each function that the library calls.

use vstd::prelude::*;

verus! {

/// `serde_json::Value`, a parsed JSON document. Nothing inside it is visible to
/// the proofs; the names below speak of what it holds.
#[verifier::external_type_specification]
#[verifier::external_body]
pub struct ExJsonValue(serde_json::Value);

/// `serde_json::Error`, the reason why a text is no JSON document.
#[verifier::external_type_specification]
#[verifier::external_body]
pub struct ExJsonError(serde_json::Error);

/// What `serde_json::from_str` makes of `text` read as one JSON document.
pub uninterp spec fn json_parsed(text: Seq<char>) -> Result<serde_json::Value, serde_json::Error>;

/// The keys of `doc` in the order in which its map hands them out, if `doc` is a
/// JSON object.
pub uninterp spec fn json_keys(doc: serde_json::Value) -> Option<Seq<Seq<char>>>;

/// The member `name` of `doc`, if `doc` is a JSON object that has one.
pub uninterp spec fn json_member(doc: serde_json::Value, name: Seq<char>) -> Option<
    serde_json::Value,
>;

/// The text of `doc`, if `doc` is a JSON string.
pub uninterp spec fn json_string(doc: serde_json::Value) -> Option<Seq<char>>;

/// The number that `doc` holds, if `doc` is a JSON integer from 0 to 2^64 - 1.
pub uninterp spec fn json_u64(doc: serde_json::Value) -> Option<u64>;

/// The elements of `doc` in their order, if `doc` is a JSON array.
pub uninterp spec fn json_items(doc: serde_json::Value) -> Option<Seq<serde_json::Value>>;

/// Whether `doc` is the JSON value `null`.
pub uninterp spec fn json_is_null(doc: serde_json::Value) -> bool;

/// The bit pattern of the IEEE 754 double that `doc` stands for, if `doc` is a
/// JSON number.
pub uninterp spec fn json_number_bits(doc: serde_json::Value) -> Option<u64>;

/// The message with which `serde_json` describes the parse error `e`.
pub uninterp spec fn json_error_text(e: serde_json::Error) -> Seq<char>;

/// Calls `serde_json::from_str` at type `Value`. The contract only names the
/// outcome: the same text always parses to the same document or the same error.
#[verifier::external_body]
pub(crate) fn parse_json(text: &str) -> (r: Result<serde_json::Value, serde_json::Error>)
    ensures
        r == json_parsed(text@),
{
    serde_json::from_str::<serde_json::Value>(text)
}

/// Calls `Value::as_object` and copies the keys out with `Map::keys`: `None` for
/// anything but an object, else its keys in the map's iteration order.
#[verifier::external_body]
pub(crate) fn object_keys(doc: &serde_json::Value) -> (r: Option<Vec<String>>)
    ensures
        match r {
            Some(keys) => json_keys(*doc) == Some(keys.deep_view()),
            None => json_keys(*doc).is_none(),
        },
{
    doc.as_object().map(|members| members.keys().cloned().collect())
}

/// Calls `Value::get` with a string index: the member of that name where `doc`
/// is an object that has it, `None` otherwise.
#[verifier::external_body]
pub(crate) fn member<'a>(doc: &'a serde_json::Value, name: &str) -> (r: Option<
    &'a serde_json::Value,
>)
    ensures
        match r {
            Some(found) => json_member(*doc, name@) == Some(*found),
            None => json_member(*doc, name@).is_none(),
        },
{
    doc.get(name)
}

/// Calls `Value::as_str`: the text where `doc` is a JSON string, `None` otherwise.
#[verifier::external_body]
pub(crate) fn string_of<'a>(doc: &'a serde_json::Value) -> (r: Option<&'a str>)
    ensures
        match r {
            Some(text) => json_string(*doc) == Some(text@),
            None => json_string(*doc).is_none(),
        },
{
    doc.as_str()
}

/// Calls `Value::as_u64`: the number where `doc` is an integer that fits `u64`,
/// `None` for any other value, a negative or fractional number included.
#[verifier::external_body]
pub(crate) fn unsigned_of(doc: &serde_json::Value) -> (r: Option<u64>)
    ensures
        r == json_u64(*doc),
{
    doc.as_u64()
}

/// Calls `Value::as_array`: the elements where `doc` is a JSON array, `None`
/// otherwise.
#[verifier::external_body]
pub(crate) fn items_of<'a>(doc: &'a serde_json::Value) -> (r: Option<&'a Vec<serde_json::Value>>)
    ensures
        match r {
            Some(items) => json_items(*doc) == Some(items@),
            None => json_items(*doc).is_none(),
        },
{
    doc.as_array()
}

/// Calls `Value::is_null`.
#[verifier::external_body]
pub(crate) fn is_null(doc: &serde_json::Value) -> (r: bool)
    ensures
        r == json_is_null(*doc),
{
    doc.is_null()
}

/// Calls `Value::as_f64`, which turns any JSON number into a double and gives
/// `None` for every other value, and hands the double out as its bits.
#[verifier::external_body]
pub(crate) fn number_bits_of(doc: &serde_json::Value) -> (r: Option<u64>)
    ensures
        r == json_number_bits(*doc),
{
    doc.as_f64().map(|x| x.to_bits())
}

/// Renders a parse error with its `Display` impl, through `to_string`.
#[verifier::external_body]
pub(crate) fn error_text(e: &serde_json::Error) -> (r: String)
    ensures
        r@ == json_error_text(*e),
{
    e.to_string()
}

} // verus!
