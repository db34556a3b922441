//! JSON values, as `serde_json` holds them, and the few operations on them
//! that the rest of the library needs. Nothing here is proved: each
//! function states what the call it makes is documented to do.

use vstd::prelude::*;

verus! {

/// `serde_json::Value`: a JSON value. Nothing is known of what is inside
/// one but what the functions below say.
#[verifier::external_type_specification]
#[verifier::external_body]
pub struct ExValue(serde_json::Value);

/// `serde_json::Error`: why a text could not be read or a value not be
/// written. It is only passed on.
#[verifier::external_type_specification]
#[verifier::external_body]
pub struct ExJsonError(serde_json::Error);

/// The value that a text denotes, where it is well-formed JSON.
pub uninterp spec fn parsed(text: Seq<char>) -> Option<serde_json::Value>;

/// The members of a value that is an object; absent for any other value.
pub uninterp spec fn members_of(v: serde_json::Value) -> Option<Map<Seq<char>, serde_json::Value>>;

/// The elements of a value that is an array; absent for any other value.
pub uninterp spec fn elements_of(v: serde_json::Value) -> Option<Seq<serde_json::Value>>;

/// The text of a value that is a string; absent for any other value.
pub uninterp spec fn string_of(v: serde_json::Value) -> Option<Seq<char>>;

/// The compact JSON text of a value, where it can be written as one.
pub uninterp spec fn rendered(v: serde_json::Value) -> Option<Seq<char>>;

/// The member of `v` under `key`: absent where `v` is no object or has no
/// such member.
pub open spec fn member_of(v: serde_json::Value, key: Seq<char>) -> Option<serde_json::Value> {
    match members_of(v) {
        Some(m) => if m.contains_key(key) {
            Some(m[key])
        } else {
            None
        },
        None => None,
    }
}

/// Calls `serde_json::from_str` for a `Value`: the result is the value that
/// the text denotes, or an error where it denotes none.
#[verifier::external_body]
pub(crate) fn parse(text: &str) -> (r: Result<serde_json::Value, serde_json::Error>)
    ensures
        match r {
            Ok(v) => parsed(text@) == Some(v),
            Err(_) => parsed(text@) is None,
        },
{
    serde_json::from_str::<serde_json::Value>(text)
}

/// Calls `Value::get` with a text as index: the member under that key of
/// an object, and nothing for any other value or a key that is not there.
#[verifier::external_body]
pub(crate) fn member<'a>(v: &'a serde_json::Value, key: &str) -> (r: Option<&'a serde_json::Value>)
    ensures
        match r {
            Some(m) => member_of(*v, key@) == Some(*m),
            None => member_of(*v, key@) is None,
        },
{
    v.get(key)
}

/// Calls `Value::as_str`: the text of a string, and nothing for any other
/// value.
#[verifier::external_body]
pub(crate) fn as_text<'a>(v: &'a serde_json::Value) -> (r: Option<&'a str>)
    ensures
        match r {
            Some(s) => string_of(*v) == Some(s@),
            None => string_of(*v) is None,
        },
{
    v.as_str()
}

/// Calls `Value::as_array`: the elements of an array, and nothing for any
/// other value.
#[verifier::external_body]
pub(crate) fn elements<'a>(v: &'a serde_json::Value) -> (r: Option<&'a Vec<serde_json::Value>>)
    ensures
        match r {
            Some(items) => elements_of(*v) == Some(items@),
            None => elements_of(*v) is None,
        },
{
    v.as_array()
}

/// Calls `Value::is_object`.
#[verifier::external_body]
pub(crate) fn is_object(v: &serde_json::Value) -> (r: bool)
    ensures
        r == members_of(*v) is Some,
{
    v.is_object()
}

/// Calls `Value::clone`: the copy is the same value.
#[verifier::external_body]
pub(crate) fn copy_of(v: &serde_json::Value) -> (r: serde_json::Value)
    ensures
        r == *v,
{
    v.clone()
}

/// Makes `Value::Object` of `Map::new()`: an object without members.
#[verifier::external_body]
pub(crate) fn empty_object() -> (r: serde_json::Value)
    ensures
        members_of(r) == Some(Map::<Seq<char>, serde_json::Value>::empty()),
{
    serde_json::Value::Object(serde_json::Map::new())
}

/// Makes `Value::String` of a text.
#[verifier::external_body]
pub(crate) fn text_value(s: String) -> (r: serde_json::Value)
    ensures
        string_of(r) == Some(s@),
{
    serde_json::Value::String(s)
}

/// Calls `Map::insert` on the members of an object: the member under `key`
/// is now `val`, whether or not there was one, and the others are as before.
#[verifier::external_body]
pub(crate) fn set_member(obj: &mut serde_json::Value, key: String, val: serde_json::Value)
    requires
        members_of(*old(obj)) is Some,
    ensures
        members_of(*final(obj)) == Some(members_of(*old(obj)).unwrap().insert(key@, val)),
{
    if let Some(m) = obj.as_object_mut() {
        m.insert(key, val);
    }
}

/// Calls `serde_json::to_string`: the result is the compact text of the
/// value, or an error where it has none. Whether there is one is not said.
#[verifier::external_body]
pub(crate) fn render(v: &serde_json::Value) -> (r: Result<String, serde_json::Error>)
    ensures
        match r {
            Ok(text) => rendered(*v) == Some(text@),
            Err(_) => rendered(*v) is None,
        },
{
    serde_json::to_string(v)
}

} // verus!
