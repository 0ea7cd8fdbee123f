//! The regular expressions that some couriers' pages call for, through regex.
use vstd::prelude::*;
use regex::Regex;
use crate::text::collapse_from;

verus! {

/// What the regex `(var trackingInfo = )(.+)(;)` captures as its second group
/// at its first match in `s`.
pub uninterp spec fn tracking_info_capture(s: Seq<char>) -> Option<Seq<char>>;

/// What the regex `<td>(.+)<br>` captures as its first group at its first match in `s`.
pub uninterp spec fn first_cell_capture(s: Seq<char>) -> Option<Seq<char>>;

/// Relies on regex's `Regex::captures` with `(var trackingInfo = )(.+)(;)`.
#[verifier::external_body]
pub(crate) fn capture_tracking_info(s: &str) -> (r: Option<String>)
    ensures
        r matches Some(t) ==> tracking_info_capture(s@) == Some(t@),
        r is None ==> tracking_info_capture(s@) is None,
{
    let re = Regex::new("(var trackingInfo = )(.+)(;)").unwrap();
    re.captures(s).and_then(|c| c.get(2)).map(|m| m.as_str().to_string())
}

/// Relies on regex's `Regex::captures` with `<td>(.+)<br>`.
#[verifier::external_body]
pub(crate) fn capture_first_cell(s: &str) -> (r: Option<String>)
    ensures
        r matches Some(t) ==> first_cell_capture(s@) == Some(t@),
        r is None ==> first_cell_capture(s@) is None,
{
    let re = Regex::new("<td>(.+)<br>").unwrap();
    re.captures(s).and_then(|c| c.get(1)).map(|m| m.as_str().to_string())
}

/// Relies on regex's `Regex::replace_all` with `\s+` and a single space.
#[verifier::external_body]
pub(crate) fn collapse_spaces(s: &str) -> (r: String)
    ensures
        r@ == collapse_from(s@, false, false),
{
    Regex::new(r"\s+").unwrap().replace_all(s, " ").to_string()
}

/// Relies on regex's `Regex::replace_all` with `[\n|\t|\s]+` (white space and
/// the bar) and a single space.
#[verifier::external_body]
pub(crate) fn collapse_spaces_and_bars(s: &str) -> (r: String)
    ensures
        r@ == collapse_from(s@, true, false),
{
    Regex::new(r"[\n|\t|\s]+").unwrap().replace_all(s, " ").to_string()
}

} // verus!
