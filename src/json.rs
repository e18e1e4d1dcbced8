//! The JSON values that event payloads and API answers arrive as. The library
//! carries them through and reads single fields by JSON pointer.
use vstd::prelude::*;

verus! {

#[verifier::external_type_specification]
#[verifier::external_body]
pub struct ExValue(serde_json::Value);

/// The view of an optional text.
pub open spec fn text_view(text: Option<&str>) -> Option<Seq<char>> {
    match text {
        Some(t) => Some(t@),
        None => None,
    }
}

/// The string that `pointer` leads to in `v`; none where it leads nowhere or
/// to a value that is not a string.
pub uninterp spec fn str_at(v: serde_json::Value, pointer: Seq<char>) -> Option<Seq<char>>;

/// The integer that `pointer` leads to in `v`; none where it leads nowhere or
/// to a value that is not an integer within `i64`.
pub uninterp spec fn i64_at(v: serde_json::Value, pointer: Seq<char>) -> Option<i64>;

/// Relies on serde_json::Value::pointer and serde_json::Value::as_str: the
/// value found depends on the value and the pointer alone.
#[verifier::external_body]
pub(crate) fn lookup_str<'a>(v: &'a serde_json::Value, pointer: &str) -> (r: Option<&'a str>)
    ensures
        text_view(r) == str_at(*v, pointer@),
{
    v.pointer(pointer).and_then(serde_json::Value::as_str)
}

/// Relies on serde_json::Value::pointer and serde_json::Value::as_i64: the
/// value found depends on the value and the pointer alone.
#[verifier::external_body]
pub(crate) fn lookup_i64(v: &serde_json::Value, pointer: &str) -> (r: Option<i64>)
    ensures
        r == i64_at(*v, pointer@),
{
    v.pointer(pointer).and_then(serde_json::Value::as_i64)
}

} // verus!
