//! The JSON reader: `serde_json` behind trusted wrappers, a model of what a
//! parsed document holds, and typed lookups of an object's members.

use vstd::prelude::*;

verus! {

/// `serde_json::Value`, a parsed JSON value. Contracts see what it holds
/// through [`json_of`].
#[verifier::external_type_specification]
#[verifier::external_body]
pub struct ExJsonValue(serde_json::Value);

/// `serde_json::Error`, the error of a parse that failed. Contracts see its
/// message through [`error_text`].
#[verifier::external_type_specification]
#[verifier::external_body]
pub struct ExJsonError(serde_json::Error);

/// What a JSON value holds.
pub enum Json {
    Null,
    Bool(bool),
    /// A number, with its value where it is an integer that fits `u64`.
    Number(Option<u64>),
    Text(Seq<char>),
    Array(Seq<Json>),
    Object(Map<Seq<char>, Json>),
}

impl Json {
    /// The member under `key`, if this is an object that has one.
    pub open spec fn member(self, key: Seq<char>) -> Option<Json> {
        match self {
            Json::Object(members) => if members.contains_key(key) {
                Some(members[key])
            } else {
                None
            },
            _ => None,
        }
    }

    /// The value, if this is an integer that fits `u64`.
    pub open spec fn as_unsigned(self) -> Option<u64> {
        match self {
            Json::Number(n) => n,
            _ => None,
        }
    }

    /// The characters, if this is a string.
    pub open spec fn as_text(self) -> Option<Seq<char>> {
        match self {
            Json::Text(text) => Some(text),
            _ => None,
        }
    }
}

/// What `value` holds.
pub uninterp spec fn json_of(value: serde_json::Value) -> Json;

/// The message that `error` displays.
pub uninterp spec fn error_text(error: serde_json::Error) -> Seq<char>;

/// What parsing `text` as one JSON document gives: what the document holds,
/// or the message of the error.
pub uninterp spec fn parsed(text: Seq<char>) -> Result<Json, Seq<char>>;

/// Parses `text` with `serde_json::from_str`.
///
/// Trusted: whether the text parses, and then what the value holds, or else
/// what the error displays, is a function of the text alone.
#[verifier::external_body]
pub(crate) fn parse(text: &str) -> (r: Result<serde_json::Value, serde_json::Error>)
    ensures
        match r {
            Ok(doc) => parsed(text@) == Ok::<Json, Seq<char>>(json_of(doc)),
            Err(error) => parsed(text@) == Err::<Json, Seq<char>>(error_text(error)),
        },
{
    serde_json::from_str(text)
}

/// Looks `key` up with `serde_json::Value::get`.
///
/// Trusted: an object that has a member under the key yields that member;
/// an object without one, and any value that is no object, yields nothing.
#[verifier::external_body]
pub(crate) fn get<'a>(doc: &'a serde_json::Value, key: &str) -> (r: Option<&'a serde_json::Value>)
    ensures
        match r {
            Some(value) => json_of(*doc).member(key@) == Some(json_of(*value)),
            None => json_of(*doc).member(key@) is None,
        },
{
    doc.get(key)
}

/// Reads `value` with `serde_json::Value::as_u64`.
///
/// Trusted: a number that is an integer and fits `u64` yields its value,
/// anything else nothing.
#[verifier::external_body]
pub(crate) fn get_unsigned(value: &serde_json::Value) -> (r: Option<u64>)
    ensures
        r == json_of(*value).as_unsigned(),
{
    value.as_u64()
}

/// Reads `value` with `serde_json::Value::as_str`.
///
/// Trusted: a string yields its characters, anything else nothing.
#[verifier::external_body]
pub(crate) fn get_text<'a>(value: &'a serde_json::Value) -> (r: Option<&'a str>)
    ensures
        match r {
            Some(text) => json_of(*value).as_text() == Some(text@),
            None => json_of(*value).as_text() is None,
        },
{
    value.as_str()
}

/// Renders `error` through its `Display` impl.
///
/// Trusted: the message is a function of the error alone.
#[verifier::external_body]
pub(crate) fn describe(error: &serde_json::Error) -> (message: String)
    ensures
        message@ == error_text(*error),
{
    error.to_string()
}

/// What a typed lookup of an object member finds.
#[derive(Debug, Clone, PartialEq, Eq)]
pub enum Lookup<T> {
    /// The document has no such member.
    Missing,
    /// The member is there, but not of the type asked for.
    Mistyped,
    /// The member, read as the type asked for.
    Found(T),
}

impl<T: View> View for Lookup<T> {
    type V = Lookup<T::V>;

    open spec fn view(&self) -> Lookup<T::V> {
        match self {
            Lookup::Missing => Lookup::Missing,
            Lookup::Mistyped => Lookup::Mistyped,
            Lookup::Found(t) => Lookup::Found(t@),
        }
    }
}

impl<T> Lookup<T> {
    /// The lookup without the value: missing, mistyped or found.
    pub open spec fn standing(self) -> Lookup<()> {
        match self {
            Lookup::Missing => Lookup::Missing,
            Lookup::Mistyped => Lookup::Mistyped,
            Lookup::Found(_) => Lookup::Found(()),
        }
    }
}

/// The member of `doc` under `key`, read as an unsigned integer.
pub open spec fn unsigned_member(doc: Json, key: Seq<char>) -> Lookup<u64> {
    match doc.member(key) {
        None => Lookup::Missing,
        Some(value) => match value.as_unsigned() {
            None => Lookup::Mistyped,
            Some(n) => Lookup::Found(n),
        },
    }
}

/// The member of `doc` under `key`, read as a string.
pub open spec fn text_member(doc: Json, key: Seq<char>) -> Lookup<Seq<char>> {
    match doc.member(key) {
        None => Lookup::Missing,
        Some(value) => match value.as_text() {
            None => Lookup::Mistyped,
            Some(text) => Lookup::Found(text),
        },
    }
}

/// Looks up the member of `doc` under `key` and reads it as an unsigned integer.
pub(crate) fn find_unsigned(doc: &serde_json::Value, key: &str) -> (r: Lookup<u64>)
    ensures
        r == unsigned_member(json_of(*doc), key@),
{
    match get(doc, key) {
        None => Lookup::Missing,
        Some(value) => match get_unsigned(value) {
            None => Lookup::Mistyped,
            Some(n) => Lookup::Found(n),
        },
    }
}

/// Looks up the member of `doc` under `key` and reads it as a string.
pub(crate) fn find_text(doc: &serde_json::Value, key: &str) -> (r: Lookup<String>)
    ensures
        r@ == text_member(json_of(*doc), key@),
{
    match get(doc, key) {
        None => Lookup::Missing,
        Some(value) => match get_text(value) {
            None => Lookup::Mistyped,
            Some(text) => Lookup::Found(text.to_owned()),
        },
    }
}

} // verus!
