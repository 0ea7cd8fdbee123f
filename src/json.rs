//! Reading fields out of JSON documents, through serde_json. A field is named
//! by a JSON Pointer (RFC 6901), such as `/items/0/name`.
use vstd::prelude::*;
use serde_json::Value;

verus! {

/// Whether `text` is a JSON document.
pub uninterp spec fn json_parses(text: Seq<char>) -> bool;

/// The string at `pointer` in the JSON document `text`, where `text` is JSON
/// and a string stands there.
pub uninterp spec fn json_str(text: Seq<char>, pointer: Seq<char>) -> Option<Seq<char>>;

/// The boolean at `pointer`, where `text` is JSON and a boolean stands there.
pub uninterp spec fn json_bool(text: Seq<char>, pointer: Seq<char>) -> Option<bool>;

/// Whether nothing, or `null`, stands at `pointer` in the JSON document `text`;
/// false where `text` is not JSON.
pub uninterp spec fn json_null(text: Seq<char>, pointer: Seq<char>) -> bool;

/// For each element of the array at `pointer`, in order, the string at each of
/// `fields` (pointers relative to the element), where one stands there; `None`
/// where `text` is not JSON or no array stands at `pointer`.
pub uninterp spec fn json_rows(text: Seq<char>, pointer: Seq<char>, fields: Seq<Seq<char>>) -> Option<
    Seq<Seq<Option<Seq<char>>>>,
>;

/// An optional text as an optional character sequence.
pub open spec fn opt_view(o: Option<String>) -> Option<Seq<char>> {
    match o {
        Some(s) => Some(s@),
        None => None,
    }
}

/// A row of optional texts as optional character sequences.
pub open spec fn opt_row_view(row: Seq<Option<String>>) -> Seq<Option<Seq<char>>> {
    row.map_values(|c: Option<String>| opt_view(c))
}

/// A table of optional texts as character sequences.
pub open spec fn opt_table_view(t: Seq<Vec<Option<String>>>) -> Seq<Seq<Option<Seq<char>>>> {
    t.map_values(|row: Vec<Option<String>>| opt_row_view(row@))
}

/// Relies on `serde_json::from_str`.
#[verifier::external_body]
pub(crate) fn parses_as_json(text: &str) -> (r: bool)
    ensures
        r == json_parses(text@),
{
    serde_json::from_str::<Value>(text).is_ok()
}

/// Relies on `serde_json::from_str`, `Value::pointer` and `Value::as_str`.
#[verifier::external_body]
pub(crate) fn string_at(text: &str, pointer: &str) -> (r: Option<String>)
    ensures
        opt_view(r) == json_str(text@, pointer@),
{
    let v: Value = serde_json::from_str(text).ok()?;
    v.pointer(pointer)?.as_str().map(|s| s.to_string())
}

/// Relies on `serde_json::from_str`, `Value::pointer` and `Value::as_bool`.
#[verifier::external_body]
pub(crate) fn bool_at(text: &str, pointer: &str) -> (r: Option<bool>)
    ensures
        r == json_bool(text@, pointer@),
{
    let v: Value = serde_json::from_str(text).ok()?;
    v.pointer(pointer)?.as_bool()
}

/// Relies on `serde_json::from_str`, `Value::pointer` and `Value::is_null`.
#[verifier::external_body]
pub(crate) fn null_at(text: &str, pointer: &str) -> (r: bool)
    ensures
        r == json_null(text@, pointer@),
{
    match serde_json::from_str::<Value>(text) {
        Ok(v) => v.pointer(pointer).map_or(true, |f| f.is_null()),
        Err(_) => false,
    }
}

/// Relies on `serde_json::from_str`, `Value::pointer`, `Value::as_array` and
/// `Value::as_str`.
#[verifier::external_body]
pub(crate) fn rows_at(text: &str, pointer: &str, fields: &Vec<&str>) -> (r: Option<Vec<Vec<Option<String>>>>)
    ensures
        r matches Some(t) ==> json_rows(text@, pointer@, crate::markup::selectors_view(fields@))
            == Some(opt_table_view(t@)),
        r is None ==> json_rows(text@, pointer@, crate::markup::selectors_view(fields@)) is None,
{
    let v: Value = serde_json::from_str(text).ok()?;
    let items = v.pointer(pointer)?.as_array()?;
    Some(items.iter().map(|item| {
        fields.iter().map(|f| item.pointer(f).and_then(|x| x.as_str()).map(|s| s.to_string())).collect()
    }).collect())
}

} // verus!
