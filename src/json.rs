use vstd::prelude::*;

verus! {

/// The rows that serde_json reads out of the array at JSON pointer `pointer`
/// in the JSON text `text`. `None` when serde_json does not accept `text` as
/// one JSON value (also when it nests deeper than serde_json's recursion
/// limit). `Some(None)` when the pointer addresses no value, or a value that
/// is not an array. Otherwise one row per element, in order: for each name in
/// `keys`, that member's string, or `None` where the element has no such
/// member, is not an object, or the member is not a string.
pub uninterp spec fn json_array_rows(
    text: Seq<char>,
    pointer: Seq<char>,
    keys: Seq<Seq<char>>,
) -> Option<Option<Seq<Seq<Option<Seq<char>>>>>>;

/// The members that serde_json reads out of the single JSON value in `text`.
/// `None` when serde_json does not accept `text` as one JSON value (also when
/// it nests deeper than serde_json's recursion limit). Otherwise, for each
/// name in `keys`, that member's string, or `None` where the value is not an
/// object, has no such member, or the member is not a string.
pub uninterp spec fn json_members(text: Seq<char>, keys: Seq<Seq<char>>) -> Option<
    Seq<Option<Seq<char>>>,
>;

/// Relies on serde_json::from_str into a `Value`, and on `Value::pointer`,
/// `Value::as_array`, `Value::get` and `Value::as_str` to read
/// `json_array_rows(text, pointer, keys)` out of it.
#[verifier::external_body]
pub(crate) fn array_rows(text: &str, pointer: &str, keys: &[&str]) -> (r: Option<
    Option<Vec<Vec<Option<String>>>>,
>)
    ensures
        r.deep_view() == json_array_rows(text@, pointer@, keys.deep_view()),
{
    let value: serde_json::Value = serde_json::from_str(text).ok()?;
    let items = value.pointer(pointer).and_then(serde_json::Value::as_array);
    let read = |rec: &serde_json::Value, k: &str| {
        rec.get(k).and_then(serde_json::Value::as_str).map(String::from)
    };
    Some(items.map(|items| items.iter().map(|rec| keys.iter().map(|k| read(rec, k)).collect()).collect()))
}

/// Relies on serde_json::from_str into a `Value`, and on `Value::get` and
/// `Value::as_str` to read `json_members(text, keys)` out of it.
#[verifier::external_body]
pub(crate) fn members(text: &str, keys: &[&str]) -> (r: Option<Vec<Option<String>>>)
    ensures
        r.deep_view() == json_members(text@, keys.deep_view()),
{
    let value: serde_json::Value = serde_json::from_str(text).ok()?;
    Some(keys.iter().map(|k| value.get(*k).and_then(serde_json::Value::as_str).map(String::from)).collect())
}

} // verus!
