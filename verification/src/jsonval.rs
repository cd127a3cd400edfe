//! The trusted boundary to `serde_json`: named results for what the JSON
//! parser finds at a given location of a given document, and the wrappers
//! that compute them. Each wrapper parses the document with
//! `serde_json::from_str::<Value>` and walks to one location with
//! `Value::pointer` (a JSON Pointer: `/`-separated object keys and array
//! indices), both deterministic, so every result below is a function of the
//! document and location texts alone; that is what licenses the names. The
//! wrappers are believed, not verified; each doc comment names the
//! `serde_json` functions it relies on.

use vstd::prelude::*;

verus! {

/// Whether a string is a well-formed JSON document: whether
/// `serde_json::from_str::<Value>` succeeds on it.
pub uninterp spec fn json_parses(s: Seq<char>) -> bool;

/// The contents of the JSON string at `ptr` in document `s`; `None` when
/// the document does not parse, the location is absent, or it holds
/// anything but a string.
pub uninterp spec fn json_string_at(s: Seq<char>, ptr: Seq<char>) -> Option<Seq<char>>;

/// The JSON number at `ptr` in document `s`, rendered back to decimal text
/// with the standard default float formatting; `None` when the document
/// does not parse, the location is absent, or it holds a non-number.
pub uninterp spec fn json_number_text_at(s: Seq<char>, ptr: Seq<char>) -> Option<Seq<char>>;

/// The JSON integer at `ptr` in document `s`, when it is whole and fits in
/// `i64`; `None` otherwise.
pub uninterp spec fn json_i64_at(s: Seq<char>, ptr: Seq<char>) -> Option<int>;

/// The length of the JSON array at `ptr` in document `s`; `None` when the
/// document does not parse, the location is absent, or it holds anything
/// but an array.
pub uninterp spec fn json_array_len_at(s: Seq<char>, ptr: Seq<char>) -> Option<int>;

/// Whether document `s` parses and holds any value at all at `ptr`.
pub uninterp spec fn json_present_at(s: Seq<char>, ptr: Seq<char>) -> bool;

/// Whether document `s` parses and holds JSON `null` at `ptr`.
pub uninterp spec fn json_null_at(s: Seq<char>, ptr: Seq<char>) -> bool;

/// The contents of the string field `field` of element `idx` of the array
/// under the top-level key `arr` of document `s`; `None` when any step of
/// that walk fails or the field holds a non-string.
pub uninterp spec fn json_elem_string_at(
    s: Seq<char>,
    arr: Seq<char>,
    idx: int,
    field: Seq<char>,
) -> Option<Seq<char>>;

/// The integer field `field` of element `idx` of the array under the
/// top-level key `arr` of document `s`, when whole and within `i64`;
/// `None` otherwise.
pub uninterp spec fn json_elem_i64_at(
    s: Seq<char>,
    arr: Seq<char>,
    idx: int,
    field: Seq<char>,
) -> Option<int>;

/// Relies on `serde_json::from_str::<Value>`: parsing succeeds exactly on
/// well-formed JSON text; on failure the parser's diagnostic is returned.
#[verifier::external_body]
pub(crate) fn json_parse_check(s: &str) -> (r: Result<(), String>)
    ensures
        r is Ok <==> json_parses(s@),
{
    match serde_json::from_str::<serde_json::Value>(s) {
        Ok(_) => Ok(()),
        Err(e) => Err(e.to_string()),
    }
}

/// Relies on `serde_json::from_str`, `Value::pointer` and `Value::as_str`.
#[verifier::external_body]
pub(crate) fn string_at(body: &str, ptr: &str) -> (r: Option<String>)
    ensures
        r matches Some(t) ==> json_string_at(body@, ptr@) == Some(t@),
        r is None ==> json_string_at(body@, ptr@) is None,
{
    let v = serde_json::from_str::<serde_json::Value>(body).ok()?;
    Some(v.pointer(ptr)?.as_str()?.to_owned())
}

/// Relies on `serde_json::from_str`, `Value::pointer` and `Value::as_f64`;
/// the number's text comes from the standard default float formatting.
#[verifier::external_body]
pub(crate) fn number_text_at(body: &str, ptr: &str) -> (r: Option<String>)
    ensures
        r matches Some(t) ==> json_number_text_at(body@, ptr@) == Some(t@),
        r is None ==> json_number_text_at(body@, ptr@) is None,
{
    let v = serde_json::from_str::<serde_json::Value>(body).ok()?;
    Some(format!("{}", v.pointer(ptr)?.as_f64()?))
}

/// Relies on `serde_json::from_str`, `Value::pointer` and `Value::as_i64`.
#[verifier::external_body]
pub(crate) fn i64_at(body: &str, ptr: &str) -> (r: Option<i64>)
    ensures
        r matches Some(n) ==> json_i64_at(body@, ptr@) == Some(n as int),
        r is None ==> json_i64_at(body@, ptr@) is None,
{
    let v = serde_json::from_str::<serde_json::Value>(body).ok()?;
    v.pointer(ptr)?.as_i64()
}

/// Relies on `serde_json::from_str`, `Value::pointer` and `Value::as_array`.
#[verifier::external_body]
pub(crate) fn array_len_at(body: &str, ptr: &str) -> (r: Option<usize>)
    ensures
        r matches Some(n) ==> json_array_len_at(body@, ptr@) == Some(n as int),
        r is None ==> json_array_len_at(body@, ptr@) is None,
{
    let v = serde_json::from_str::<serde_json::Value>(body).ok()?;
    Some(v.pointer(ptr)?.as_array()?.len())
}

/// Relies on `serde_json::from_str` and `Value::pointer`.
#[verifier::external_body]
pub(crate) fn present_at(body: &str, ptr: &str) -> (r: bool)
    ensures
        r == json_present_at(body@, ptr@),
{
    match serde_json::from_str::<serde_json::Value>(body) {
        Ok(v) => v.pointer(ptr).is_some(),
        Err(_) => false,
    }
}

/// Relies on `serde_json::from_str`, `Value::pointer` and `Value::is_null`.
#[verifier::external_body]
pub(crate) fn null_at(body: &str, ptr: &str) -> (r: bool)
    ensures
        r == json_null_at(body@, ptr@),
{
    match serde_json::from_str::<serde_json::Value>(body) {
        Ok(v) => match v.pointer(ptr) {
            Some(x) => x.is_null(),
            None => false,
        },
        Err(_) => false,
    }
}

/// Relies on `serde_json::from_str`, `Value::pointer` (the pointer built
/// from the array key, index and field) and `Value::as_str`.
#[verifier::external_body]
pub(crate) fn elem_string_at(body: &str, arr: &str, idx: usize, field: &str) -> (r: Option<String>)
    ensures
        r matches Some(t) ==> json_elem_string_at(body@, arr@, idx as int, field@) == Some(t@),
        r is None ==> json_elem_string_at(body@, arr@, idx as int, field@) is None,
{
    let v = serde_json::from_str::<serde_json::Value>(body).ok()?;
    Some(v.pointer(&format!("/{}/{}/{}", arr, idx, field))?.as_str()?.to_owned())
}

/// Relies on `serde_json::from_str`, `Value::pointer` (the pointer built
/// from the array key, index and field) and `Value::as_i64`.
#[verifier::external_body]
pub(crate) fn elem_i64_at(body: &str, arr: &str, idx: usize, field: &str) -> (r: Option<i64>)
    ensures
        r matches Some(n) ==> json_elem_i64_at(body@, arr@, idx as int, field@) == Some(n as int),
        r is None ==> json_elem_i64_at(body@, arr@, idx as int, field@) is None,
{
    let v = serde_json::from_str::<serde_json::Value>(body).ok()?;
    v.pointer(&format!("/{}/{}/{}", arr, idx, field))?.as_i64()
}

} // verus!
