//! JSON documents, as `serde_json` holds them.
//!
//! Reading and writing JSON text is `serde_json`'s work. This module gives a
//! document a mathematical model, [`Json`], and states of each `serde_json`
//! function that the library calls what it does to that model. Nothing in this
//! module is proved: every contract here is taken from `serde_json`'s source.

use vstd::prelude::*;

verus! {

/// What a JSON document holds.
pub enum Json {
    /// `null`.
    Null,
    /// `true` or `false`.
    Bool(bool),
    /// A number that `serde_json` holds as a 64-bit integer, signed or not.
    Integer(int),
    /// Any other number, by the bit pattern of the double that holds it.
    Real(u64),
    /// A string, by its characters.
    Text(Seq<char>),
    /// An array, in order.
    List(Seq<Json>),
    /// An object, by key. A key occurs once.
    Object(Map<Seq<char>, Json>),
}

impl Json {
    /// The member of an object under `key`, if the document is an object that
    /// has one.
    pub open spec fn member(self, key: Seq<char>) -> Option<Json> {
        match self {
            Json::Object(members) => if members.contains_key(key) {
                Some(members[key])
            } else {
                None
            },
            _ => None,
        }
    }

    /// The number as an `i64`, if the document is an integer in that range.
    pub open spec fn as_i64(self) -> Option<i64> {
        match self {
            Json::Integer(n) => if i64::MIN <= n <= i64::MAX {
                Some(n as i64)
            } else {
                None
            },
            _ => None,
        }
    }

    /// The characters of the string, if the document is a string.
    pub open spec fn as_text(self) -> Option<Seq<char>> {
        match self {
            Json::Text(text) => Some(text),
            _ => None,
        }
    }

    /// The items of the array, if the document is an array.
    pub open spec fn as_list(self) -> Option<Seq<Json>> {
        match self {
            Json::List(items) => Some(items),
            _ => None,
        }
    }
}

/// `serde_json::Value`, a JSON document. What is inside is not seen here:
/// [`value_content`] stands for it.
#[verifier::external_type_specification]
#[verifier::external_body]
pub struct ExValue(serde_json::Value);

/// `serde_json::Map`, the members of a JSON object. What is inside is not seen
/// here: [`map_members`] stands for it.
#[verifier::external_type_specification]
#[verifier::external_body]
#[verifier::reject_recursive_types(K)]
#[verifier::reject_recursive_types(V)]
pub struct ExMembers<K, V>(serde_json::Map<K, V>);

/// `serde_json::Error`, why reading or writing JSON failed. What is inside is
/// not seen here: [`error_text`] stands for its message.
#[verifier::external_type_specification]
#[verifier::external_body]
pub struct ExError(serde_json::Error);

/// What a `serde_json::Value` holds.
pub uninterp spec fn value_content(value: serde_json::Value) -> Json;

/// What a `serde_json::Map` holds: each key with what its value holds.
pub uninterp spec fn map_members(map: serde_json::Map<String, serde_json::Value>) -> Map<
    Seq<char>,
    Json,
>;

/// The message that a `serde_json::Error` prints.
pub uninterp spec fn error_text(error: serde_json::Error) -> Seq<char>;

/// What `serde_json::from_slice` makes of `bytes`: the document that they
/// spell, or the message of the error that it reports.
pub uninterp spec fn json_parse(bytes: Seq<u8>) -> Result<Json, Seq<char>>;

/// The compact text that `serde_json::to_string` writes for a document.
pub uninterp spec fn json_text(document: Json) -> Seq<char>;

/// An object's members where it has none.
pub open spec fn no_members() -> Map<Seq<char>, Json> {
    Map::empty()
}

/// What each of `values` holds, in order.
pub open spec fn contents(values: Seq<serde_json::Value>) -> Seq<Json> {
    values.map_values(|value: serde_json::Value| value_content(value))
}

/// `serde_json::from_slice::<Value>`: reads one JSON document that takes up
/// the whole of `bytes`, or reports why it cannot. The result depends on the
/// bytes alone; [`json_parse`] names it.
#[verifier::external_body]
pub(crate) fn from_slice(bytes: &[u8]) -> (parsed: Result<serde_json::Value, serde_json::Error>)
    ensures
        json_parse(bytes@) == match parsed {
            Ok(value) => Ok(value_content(value)),
            Err(error) => Err(error_text(error)),
        },
{
    serde_json::from_slice::<serde_json::Value>(bytes)
}

/// `serde_json::to_string` on a `Value`: writes the document as compact JSON
/// text. It fails only where a `Serialize` impl chooses to, or on a map whose
/// keys are not strings; a `Value` does neither, so the result is `Ok`.
/// [`json_text`] names the text.
#[verifier::external_body]
pub(crate) fn to_string(value: &serde_json::Value) -> (written: Result<String, serde_json::Error>)
    ensures
        written is Ok,
        written.unwrap()@ == json_text(value_content(*value)),
{
    serde_json::to_string(value)
}

/// `Display` for `serde_json::Error`: the error's message, with the line and
/// the column at which reading stopped. [`error_text`] names it.
#[verifier::external_body]
pub(crate) fn error_message(error: &serde_json::Error) -> (message: String)
    ensures
        message@ == error_text(*error),
{
    error.to_string()
}

/// `Value::is_object`: whether the value is an object.
#[verifier::external_body]
pub(crate) fn is_object(value: &serde_json::Value) -> (yes: bool)
    ensures
        yes == (value_content(*value) is Object),
{
    value.is_object()
}

/// `Value::get` with a string index: the member under `key` where the value is
/// an object that has one, `None` on a missing key and on any other value.
#[verifier::external_body]
pub(crate) fn get<'a>(value: &'a serde_json::Value, key: &str) -> (found: Option<
    &'a serde_json::Value,
>)
    ensures
        match found {
            Some(member) => value_content(*value).member(key@) == Some(value_content(*member)),
            None => value_content(*value).member(key@) is None,
        },
{
    value.get(key)
}

/// `Value::as_i64`: the number where the value is an integer that fits an
/// `i64`, `None` otherwise.
#[verifier::external_body]
pub(crate) fn as_i64(value: &serde_json::Value) -> (number: Option<i64>)
    ensures
        number == value_content(*value).as_i64(),
{
    value.as_i64()
}

/// `Value::as_str`: the string where the value is one, `None` otherwise.
#[verifier::external_body]
pub(crate) fn as_str<'a>(value: &'a serde_json::Value) -> (found: Option<&'a str>)
    ensures
        match found {
            Some(text) => value_content(*value).as_text() == Some(text@),
            None => value_content(*value).as_text() is None,
        },
{
    value.as_str()
}

/// `Value::as_array`: the items where the value is an array, `None`
/// otherwise.
#[verifier::external_body]
pub(crate) fn as_array<'a>(value: &'a serde_json::Value) -> (found: Option<
    &'a Vec<serde_json::Value>,
>)
    ensures
        match found {
            Some(items) => value_content(*value).as_list() == Some(contents(items@)),
            None => value_content(*value).as_list() is None,
        },
{
    value.as_array()
}

/// `Value::from` on an `i64`: the number as a JSON integer.
#[verifier::external_body]
pub(crate) fn integer(number: i64) -> (value: serde_json::Value)
    ensures
        value_content(value) == Json::Integer(number as int),
{
    serde_json::Value::from(number)
}

/// `Value::String`: the string as a JSON string.
#[verifier::external_body]
pub(crate) fn string(text: String) -> (value: serde_json::Value)
    ensures
        value_content(value) == Json::Text(text@),
{
    serde_json::Value::String(text)
}

/// `Value::Array`: the values as a JSON array, in order.
#[verifier::external_body]
pub(crate) fn array(items: Vec<serde_json::Value>) -> (value: serde_json::Value)
    ensures
        value_content(value) == Json::List(contents(items@)),
{
    serde_json::Value::Array(items)
}

/// `Value::Object`: the map as a JSON object.
#[verifier::external_body]
pub(crate) fn object(members: serde_json::Map<String, serde_json::Value>) -> (value:
    serde_json::Value)
    ensures
        value_content(value) == Json::Object(map_members(members)),
{
    serde_json::Value::Object(members)
}

/// `Map::new`: a map without entries.
#[verifier::external_body]
pub(crate) fn new_map() -> (fresh: serde_json::Map<String, serde_json::Value>)
    ensures
        map_members(fresh) == no_members(),
{
    serde_json::Map::new()
}

/// `Map::insert`: puts `value` under `key`, in place of what the key held
/// before.
#[verifier::external_body]
pub(crate) fn insert(
    members: &mut serde_json::Map<String, serde_json::Value>,
    key: String,
    value: serde_json::Value,
)
    ensures
        map_members(*final(members)) == map_members(*old(members)).insert(
            key@,
            value_content(value),
        ),
{
    members.insert(key, value);
}

} // verus!
