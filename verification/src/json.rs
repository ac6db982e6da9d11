//! JSON values as trees.

use vstd::prelude::*;
use vstd::utf8::{decode_utf8, encode_utf8, encode_utf8_decode_utf8, encode_utf8_valid_utf8, valid_utf8};

verus! {

/// A JSON value as mathematics sees it. A number is known as far as it is a natural number of 64
/// bits.
pub enum Json {
    Null,
    Bool(bool),
    Number(Option<u64>),
    Text(Seq<char>),
    Array(Seq<Json>),
    Object(Map<Seq<char>, Json>),
}

/// A JSON value.
#[verifier::external_type_specification]
#[verifier::external_body]
pub struct ExValue(serde_json::Value);

/// What a JSON value holds.
pub uninterp spec fn tree(value: serde_json::Value) -> Json;

/// What `serde_json::from_str` makes of a text: a value, or the words of its error.
pub uninterp spec fn parsed(text: Seq<char>) -> Result<Json, Seq<char>>;

/// `serde_json::from_str` into a `serde_json::Value`: the value that the text writes, or what the
/// error says where the text is refused.
#[verifier::external_body]
pub(crate) fn parse(text: &str) -> (r: Result<serde_json::Value, String>)
    ensures
        match r {
            Ok(value) => parsed(text@) == Ok::<Json, Seq<char>>(tree(value)),
            Err(e) => parsed(text@) == Err::<Json, Seq<char>>(e@),
        },
{
    serde_json::from_str(text).map_err(|e: serde_json::Error| e.to_string())
}

/// The member of an object under a name.
pub open spec fn member(json: Json, name: Seq<char>) -> Option<Json> {
    match json {
        Json::Object(members) => if members.dom().contains(name) {
            Some(members[name])
        } else {
            None
        },
        _ => None,
    }
}

/// `serde_json::Value::get` with a string: the member of an object under that name. Any other value
/// has no members.
#[verifier::external_body]
pub(crate) fn get<'a>(value: &'a serde_json::Value, name: &str) -> (r: Option<&'a serde_json::Value>)
    ensures
        match r {
            Some(found) => member(tree(*value), name@) == Some(tree(*found)),
            None => member(tree(*value), name@) is None,
        },
{
    value.get(name)
}

/// `serde_json::Value::as_str`: the text of a string, and of nothing else.
#[verifier::external_body]
pub(crate) fn as_str(value: &serde_json::Value) -> (r: Option<&str>)
    ensures
        match r {
            Some(s) => tree(*value) == Json::Text(s@),
            None => !(tree(*value) is Text),
        },
{
    value.as_str()
}

/// `serde_json::Value::as_array`: the items of an array, and of nothing else.
#[verifier::external_body]
pub(crate) fn as_array(value: &serde_json::Value) -> (r: Option<&Vec<serde_json::Value>>)
    ensures
        match r {
            Some(items) => tree(*value) == Json::Array(trees(items@)),
            None => !(tree(*value) is Array),
        },
{
    value.as_array()
}

/// What each of several values holds.
pub open spec fn trees(values: Seq<serde_json::Value>) -> Seq<Json> {
    Seq::new(values.len(), |i: int| tree(values[i]))
}

/// `serde_json::Value::as_u64`: a number that is a natural number of 64 bits, and nothing else.
#[verifier::external_body]
pub(crate) fn as_u64(value: &serde_json::Value) -> (r: Option<u64>)
    ensures
        r == match tree(*value) {
            Json::Number(n) => n,
            _ => None,
        },
{
    value.as_u64()
}

/// What `std::string::FromUtf8Error` says of bytes that are not valid UTF-8.
pub uninterp spec fn utf8_error(bytes: Seq<u8>) -> Seq<char>;

/// `String::from_utf8`: the text that the bytes encode where they are valid UTF-8, and otherwise what
/// the error says of them.
#[verifier::external_body]
pub(crate) fn from_utf8(bytes: Vec<u8>) -> (r: Result<String, String>)
    ensures
        match r {
            Ok(s) => encode_utf8(s@) == bytes@,
            Err(e) => !valid_utf8(bytes@) && e@ == utf8_error(bytes@),
        },
{
    String::from_utf8(bytes).map_err(|e| e.to_string())
}

/// The text that bytes encode, or what is wrong with them.
pub open spec fn text_of(bytes: Seq<u8>) -> Result<Seq<char>, Seq<char>> {
    if valid_utf8(bytes) {
        Ok(decode_utf8(bytes))
    } else {
        Err(utf8_error(bytes))
    }
}

/// Reads bytes as UTF-8.
pub fn decode(bytes: Vec<u8>) -> (r: Result<String, String>)
    ensures
        match r {
            Ok(s) => text_of(bytes@) == Ok::<Seq<char>, Seq<char>>(s@),
            Err(e) => text_of(bytes@) == Err::<Seq<char>, Seq<char>>(e@),
        },
{
    let r = from_utf8(bytes);
    proof {
        if r is Ok {
            encode_utf8_valid_utf8(r->Ok_0@);
            encode_utf8_decode_utf8(r->Ok_0@);
        }
    }
    r
}

} // verus!
