//! The JSON documents that the backend sends, as `serde_json` reads them.
//!
//! What this module says of `serde_json` is believed, not proved. It declares
//! the two `serde_json` types that the library handles, gives a name to what
//! each `serde_json` function it calls returns, and wraps each of those
//! functions in one that is stated to return exactly that. The rest of the
//! library is verified against these statements.

use vstd::prelude::*;

verus! {

/// `serde_json::Value`, a parsed JSON value. Verus sees nothing inside it.
#[verifier::external_type_specification]
#[verifier::external_body]
pub struct ExJsonValue(serde_json::Value);

/// `serde_json::Error`, the reason a text was refused. Verus sees nothing
/// inside it.
#[verifier::external_type_specification]
#[verifier::external_body]
pub struct ExJsonError(serde_json::Error);

/// The value that `serde_json::from_str` reads from `text`, or `None` where
/// it refuses the text.
pub uninterp spec fn json_document(text: Seq<char>) -> Option<serde_json::Value>;

/// The member that `serde_json::Value::get` finds under `key`: `None` where
/// `value` is not an object or has no such member.
pub uninterp spec fn json_member(value: serde_json::Value, key: Seq<char>) -> Option<
    serde_json::Value,
>;

/// What `serde_json::Value::as_str` returns: the characters of `value` where
/// it is a string, `None` otherwise.
pub uninterp spec fn json_string(value: serde_json::Value) -> Option<Seq<char>>;

/// What `serde_json::Value::as_u64` returns: the number that `value` is
/// where it is an integer that fits, `None` otherwise.
pub uninterp spec fn json_u64(value: serde_json::Value) -> Option<u64>;

/// What `serde_json::Value::is_null` returns: whether `value` is `null`.
pub uninterp spec fn json_is_null(value: serde_json::Value) -> bool;

/// What `serde_json::Value::as_array` returns: the elements of `value` in
/// order where it is an array, `None` otherwise.
pub uninterp spec fn json_elements(value: serde_json::Value) -> Option<Seq<serde_json::Value>>;

/// What `serde_json::Value::as_object` returns, as the names and values of
/// the object's members in the order in which the object hands them out:
/// `None` where `value` is not an object.
pub uninterp spec fn json_members(value: serde_json::Value) -> Option<
    Seq<(Seq<char>, serde_json::Value)>,
>;

/// Calls `serde_json::from_str` for a `serde_json::Value`. It succeeds
/// exactly on the texts for which [`json_document`] is defined, and then
/// returns that value.
#[verifier::external_body]
pub(crate) fn parse_document(text: &str) -> (r: Result<serde_json::Value, serde_json::Error>)
    ensures
        r matches Ok(value) ==> json_document(text@) == Some(value),
        r is Err <==> json_document(text@) is None,
{
    serde_json::from_str::<serde_json::Value>(text)
}

/// Calls `serde_json::Value::get` with a string key. It returns the member
/// that [`json_member`] names, and `None` exactly where there is none.
#[verifier::external_body]
pub(crate) fn member<'a>(value: &'a serde_json::Value, key: &str) -> (r: Option<
    &'a serde_json::Value,
>)
    ensures
        r matches Some(found) ==> json_member(*value, key@) == Some(*found),
        r is None <==> json_member(*value, key@) is None,
{
    value.get(key)
}

/// Calls `serde_json::Value::as_str`. It returns the string that
/// [`json_string`] names, and `None` exactly where there is none.
#[verifier::external_body]
pub(crate) fn string_of<'a>(value: &'a serde_json::Value) -> (r: Option<&'a str>)
    ensures
        r matches Some(s) ==> json_string(*value) == Some(s@),
        r is None <==> json_string(*value) is None,
{
    value.as_str()
}

/// Calls `serde_json::Value::as_u64`.
#[verifier::external_body]
pub(crate) fn u64_of(value: &serde_json::Value) -> (r: Option<u64>)
    ensures
        r == json_u64(*value),
{
    value.as_u64()
}

/// Calls `serde_json::Value::is_null`.
#[verifier::external_body]
pub(crate) fn is_null(value: &serde_json::Value) -> (r: bool)
    ensures
        r == json_is_null(*value),
{
    value.is_null()
}

/// Calls `serde_json::Value::as_array`. It returns the elements that
/// [`json_elements`] names, and `None` exactly where there are none.
#[verifier::external_body]
pub(crate) fn elements_of<'a>(value: &'a serde_json::Value) -> (r: Option<
    &'a Vec<serde_json::Value>,
>)
    ensures
        r matches Some(items) ==> json_elements(*value) == Some(items@),
        r is None <==> json_elements(*value) is None,
{
    value.as_array()
}

/// Calls `serde_json::Value::as_object` and collects the members that the
/// object's `iter` hands out, each as its name and its value. It returns the
/// members that [`json_members`] names, and `None` exactly where there are
/// none.
#[verifier::external_body]
pub(crate) fn members_of<'a>(value: &'a serde_json::Value) -> (r: Option<
    Vec<(&'a str, &'a serde_json::Value)>,
>)
    ensures
        r matches Some(items) ==> json_members(*value) == Some(
            items@.map_values(|item: (&str, &serde_json::Value)| (item.0@, *item.1)),
        ),
        r is None <==> json_members(*value) is None,
{
    value.as_object().map(
        |object| object.iter().map(|(name, item)| (name.as_str(), item)).collect(),
    )
}

/// The string member of `value` under `key`, where there is one.
pub open spec fn json_string_member(value: serde_json::Value, key: Seq<char>) -> Option<
    Seq<char>,
> {
    match json_member(value, key) {
        Some(found) => json_string(found),
        None => None,
    }
}

/// The string member of `value` under `key`, where there is one.
pub(crate) fn string_member<'a>(value: &'a serde_json::Value, key: &str) -> (r: Option<&'a str>)
    ensures
        r matches Some(s) ==> json_string_member(*value, key@) == Some(s@),
        r is None <==> json_string_member(*value, key@) is None,
{
    match member(value, key) {
        Some(found) => string_of(found),
        None => None,
    }
}

} // verus!
