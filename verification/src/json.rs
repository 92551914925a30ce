//! JSON values as `serde_json` holds them, and the calls into that crate.
//!
//! Nothing in this file is proved: each item states what the outside code
//! does, over the picture [`Json`] of a `serde_json::Value`.

use vstd::prelude::*;
use vstd::string::StringSliceAdditionalSpecFns;
use vstd::utf8::valid_utf8;

verus! {

/// A JSON number, in the three forms that `serde_json` tells apart.
pub enum JsonNumber {
    /// A non-negative integer that fits 64 bits.
    Unsigned(u64),
    /// An integer below zero.
    Negative(i64),
    /// Any other finite number, by the bits of its double-precision form.
    Fraction(u64),
}

/// The mathematical picture of a JSON value. An object is the sequence of
/// its members, each a key with its value, in the order in which they were
/// put in; that is also the order in which they are written.
pub enum Json {
    Null,
    Bool(bool),
    Number(JsonNumber),
    Text(Seq<char>),
    Array(Seq<Json>),
    Object(Seq<(Seq<char>, Json)>),
}

/// The position of the member under `key`, if there is one.
pub open spec fn member_index(members: Seq<(Seq<char>, Json)>, key: Seq<char>) -> Option<int>
    decreases members.len(),
{
    if members.len() == 0 {
        None
    } else {
        match member_index(members.drop_last(), key) {
            Some(i) => Some(i),
            None => if members.last().0 == key {
                Some(members.len() - 1)
            } else {
                None
            },
        }
    }
}

/// The value of the member under `key`, if there is one.
pub open spec fn member_of(members: Seq<(Seq<char>, Json)>, key: Seq<char>) -> Option<Json> {
    match member_index(members, key) {
        Some(i) => Some(members[i].1),
        None => None,
    }
}

/// The members after `key` has been given `value`: a member that is there
/// keeps its place and takes the value, a new one goes to the end.
pub open spec fn with_member(members: Seq<(Seq<char>, Json)>, key: Seq<char>, value: Json) -> Seq<
    (Seq<char>, Json),
> {
    match member_index(members, key) {
        Some(i) => members.update(i, (key, value)),
        None => members.push((key, value)),
    }
}

/// Why `serde_json` gave up on a text, in its own four categories.
#[derive(Debug, Clone, Copy, PartialEq, Eq, Structural)]
pub enum FaultKind {
    /// Bytes could not be read or written.
    Io,
    /// The text is not JSON.
    Syntax,
    /// The text is JSON, but not what was to be read.
    Data,
    /// The text ends too early.
    Eof,
}

/// Where and why `serde_json` gave up on a text. Lines and columns count
/// from one.
#[derive(Debug, Clone, Copy, PartialEq, Eq, Structural)]
pub struct JsonFault {
    pub kind: FaultKind,
    pub line: usize,
    pub column: usize,
}

/// Whether the first `n` bytes are the longest beginning of `bytes` that is
/// well-formed UTF-8.
pub open spec fn is_valid_up_to(bytes: Seq<u8>, n: int) -> bool {
    &&& 0 <= n <= bytes.len()
    &&& valid_utf8(bytes.subrange(0, n))
    &&& forall|m: int| n < m <= bytes.len() ==> !valid_utf8(#[trigger] bytes.subrange(0, m))
}

#[verifier::external_type_specification]
#[verifier::external_body]
pub struct ExValue(serde_json::Value);

#[verifier::external_type_specification]
#[verifier::external_body]
pub struct ExJsonError(serde_json::Error);

#[verifier::external_type_specification]
#[verifier::external_body]
pub struct ExUtf8Error(core::str::Utf8Error);

/// What a `serde_json::Value` holds.
pub uninterp spec fn json_of(value: serde_json::Value) -> Json;

/// What a `serde_json::Error` holds: where and why reading gave up.
pub uninterp spec fn fault_of(error: serde_json::Error) -> JsonFault;

/// What a `Utf8Error` holds: how many bytes were well-formed.
pub uninterp spec fn valid_up_to_of(error: core::str::Utf8Error) -> usize;

/// What `serde_json::from_str` makes of a text: the value that it reads, or
/// where and why it gives up.
pub uninterp spec fn json_parse(text: Seq<char>) -> Result<Json, JsonFault>;

/// The bytes that `serde_json::to_vec` writes for a value: an object's
/// members come out in the order of the picture.
pub uninterp spec fn json_text(value: Json) -> Seq<u8>;

/// `core::str::from_utf8`: succeeds exactly on well-formed UTF-8, and the
/// text it returns has the given bytes as its encoding. On failure the
/// error holds the length of the longest beginning that is well-formed.
#[verifier::external_body]
pub(crate) fn utf8_text<'a>(bytes: &'a [u8]) -> (r: Result<&'a str, core::str::Utf8Error>)
    ensures
        r is Ok <==> valid_utf8(bytes@),
        r matches Ok(text) ==> text.spec_bytes() == bytes@,
        r matches Err(e) ==> is_valid_up_to(bytes@, valid_up_to_of(e) as int),
{
    core::str::from_utf8(bytes)
}

/// `Utf8Error::valid_up_to`: the index that the error holds.
pub assume_specification[ core::str::Utf8Error::valid_up_to ](
    error: &core::str::Utf8Error,
) -> (r: usize)
    ensures
        r == valid_up_to_of(*error),
;

/// `Error::line`: the line that the error holds.
pub assume_specification[ serde_json::Error::line ](error: &serde_json::Error) -> (r: usize)
    ensures
        r == fault_of(*error).line,
;

/// `Error::column`: the column that the error holds.
pub assume_specification[ serde_json::Error::column ](error: &serde_json::Error) -> (r: usize)
    ensures
        r == fault_of(*error).column,
;

/// `Error::classify`: the category that the error holds.
#[verifier::external_body]
pub(crate) fn fault_kind(error: &serde_json::Error) -> (r: FaultKind)
    ensures
        r == fault_of(*error).kind,
{
    match error.classify() {
        serde_json::error::Category::Io => FaultKind::Io,
        serde_json::error::Category::Syntax => FaultKind::Syntax,
        serde_json::error::Category::Data => FaultKind::Data,
        serde_json::error::Category::Eof => FaultKind::Eof,
    }
}

/// `serde_json::from_str` at type `Value`: on success the value is the one
/// that the text denotes, and a failure means that the text denotes none
/// and tells where and why reading gave up.
#[verifier::external_body]
pub(crate) fn read_value(text: &str) -> (r: Result<serde_json::Value, serde_json::Error>)
    ensures
        match r {
            Ok(value) => json_parse(text@) == Ok::<Json, JsonFault>(json_of(value)),
            Err(e) => json_parse(text@) == Err::<Json, JsonFault>(fault_of(e)),
        },
{
    serde_json::from_str::<serde_json::Value>(text)
}

/// `serde_json::to_vec` on a `Value`: it never fails, since a `Value` has
/// strings for keys and finite numbers and the bytes go to a vector, and
/// the bytes written are the JSON text of the value.
#[verifier::external_body]
pub(crate) fn write_value(value: &serde_json::Value) -> (r: Result<Vec<u8>, serde_json::Error>)
    ensures
        r is Ok,
        r matches Ok(bytes) ==> bytes@ == json_text(json_of(*value)),
{
    serde_json::to_vec(value)
}

/// `Value::get` with a string index: the member under `key` where the
/// value is an object that has one, nothing otherwise.
#[verifier::external_body]
pub(crate) fn member<'a>(value: &'a serde_json::Value, key: &str) -> (r: Option<
    &'a serde_json::Value,
>)
    ensures
        match json_of(*value) {
            Json::Object(members) => match member_of(members, key@) {
                Some(held) => r matches Some(found) && json_of(*found) == held,
                None => r is None,
            },
            _ => r is None,
        },
{
    value.get(key)
}

/// `Value::as_str`: the text of a string value, nothing for any other.
pub assume_specification<'a>[ serde_json::Value::as_str ](value: &'a serde_json::Value) -> (r:
    Option<&'a str>)
    ensures
        match json_of(*value) {
            Json::Text(text) => r matches Some(found) && found@ == text,
            _ => r is None,
        },
;

/// `Value::as_u64`: the number of a value that is a non-negative integer
/// within 64 bits, nothing for any other.
pub assume_specification[ serde_json::Value::as_u64 ](value: &serde_json::Value) -> (r: Option<
    u64,
>)
    ensures
        r == (match json_of(*value) {
            Json::Number(JsonNumber::Unsigned(n)) => Some(n),
            _ => None,
        }),
;

/// `Value::as_bool`: the truth value of a boolean, nothing for any other.
pub assume_specification[ serde_json::Value::as_bool ](value: &serde_json::Value) -> (r: Option<
    bool,
>)
    ensures
        r == (match json_of(*value) {
            Json::Bool(b) => Some(b),
            _ => None,
        }),
;

/// `Value::is_null`: whether the value is `null`.
pub assume_specification[ serde_json::Value::is_null ](value: &serde_json::Value) -> (r: bool)
    ensures
        r == (json_of(*value) is Null),
;

/// `Value::is_object`: whether the value is an object.
pub assume_specification[ serde_json::Value::is_object ](value: &serde_json::Value) -> (r: bool)
    ensures
        r == (json_of(*value) is Object),
;

/// `Value::Null`.
#[verifier::external_body]
pub(crate) fn null_value() -> (r: serde_json::Value)
    ensures
        json_of(r) == Json::Null,
{
    serde_json::Value::Null
}

/// `Value::Bool`.
#[verifier::external_body]
pub(crate) fn flag_value(flag: bool) -> (r: serde_json::Value)
    ensures
        json_of(r) == Json::Bool(flag),
{
    serde_json::Value::Bool(flag)
}

/// `Value::from` on a `u64`: the number, as a non-negative integer.
#[verifier::external_body]
pub(crate) fn unsigned_value(number: u64) -> (r: serde_json::Value)
    ensures
        json_of(r) == Json::Number(JsonNumber::Unsigned(number)),
{
    serde_json::Value::from(number)
}

/// `Value::String`, on a copy of the text.
#[verifier::external_body]
pub(crate) fn text_value(text: &str) -> (r: serde_json::Value)
    ensures
        json_of(r) == Json::Text(text@),
{
    serde_json::Value::String(text.to_owned())
}

/// `Value::Object` on `Map::new()`: an object without members.
#[verifier::external_body]
pub(crate) fn empty_object() -> (r: serde_json::Value)
    ensures
        json_of(r) == Json::Object(Seq::<(Seq<char>, Json)>::empty()),
{
    serde_json::Value::Object(serde_json::Map::new())
}

/// `Map::insert` on the members of an object, which keep the order of
/// insertion: a key that is there keeps its place and takes `value`, a new
/// key goes to the end with it, and every other member is as before.
#[verifier::external_body]
pub(crate) fn insert_member(object: &mut serde_json::Value, key: &str, value: serde_json::Value)
    requires
        json_of(*old(object)) is Object,
    ensures
        json_of(*final(object)) == Json::Object(
            with_member(json_of(*old(object))->Object_0, key@, json_of(value)),
        ),
{
    if let serde_json::Value::Object(members) = object {
        members.insert(key.to_owned(), value);
    }
}

} // verus!
