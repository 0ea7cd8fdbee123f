//! Structural selection over HTML pages, through nipper.
use vstd::prelude::*;
use nipper::Document;

verus! {

/// A list of texts as character sequences.
pub open spec fn texts_view(v: Seq<String>) -> Seq<Seq<char>> {
    v.map_values(|s: String| s@)
}

/// A list of selectors as character sequences.
pub open spec fn selectors_view(v: Seq<&str>) -> Seq<Seq<char>> {
    v.map_values(|s: &str| s@)
}

/// A table of texts as character sequences.
pub open spec fn table_view(v: Seq<Vec<String>>) -> Seq<Seq<Seq<char>>> {
    v.map_values(|row: Vec<String>| texts_view(row@))
}

/// The text of every element of the page `html` that `sel` selects, joined
/// in document order: empty where none is, or where `sel` is not a CSS selector.
pub uninterp spec fn html_text(html: Seq<char>, sel: Seq<char>) -> Seq<char>;

/// The markup of the first element that `sel` selects: empty where none is,
/// or where `sel` is not a CSS selector.
pub uninterp spec fn html_markup(html: Seq<char>, sel: Seq<char>) -> Seq<char>;

/// The attribute `attr` of the first element that `sel` selects, where there
/// is one and it has that attribute.
pub uninterp spec fn html_attr(html: Seq<char>, sel: Seq<char>, attr: Seq<char>) -> Option<
    Seq<char>,
>;

/// For each element that `rows` selects, in document order: its markup,
/// followed by the text of what each of `cells` selects inside it (as
/// `html_text` reads a page).
pub uninterp spec fn html_rows(html: Seq<char>, rows: Seq<char>, cells: Seq<Seq<char>>) -> Seq<
    Seq<Seq<char>>,
>;

/// Relies on nipper's `Document::from`, `try_select` and `Selection::text`.
#[verifier::external_body]
pub(crate) fn select_text(html: &str, sel: &str) -> (r: String)
    ensures
        r@ == html_text(html@, sel@),
{
    let doc = Document::from(html);
    let found = doc.try_select(sel);
    found.map(|s| s.text().to_string()).unwrap_or_default()
}

/// Relies on nipper's `Document::from`, `try_select` and `Selection::html`.
#[verifier::external_body]
pub(crate) fn select_markup(html: &str, sel: &str) -> (r: String)
    ensures
        r@ == html_markup(html@, sel@),
{
    let doc = Document::from(html);
    let found = doc.try_select(sel);
    found.map(|s| s.html().to_string()).unwrap_or_default()
}

/// Relies on nipper's `Document::from`, `try_select` and `Selection::attr`.
#[verifier::external_body]
pub(crate) fn select_attr(html: &str, sel: &str, attr: &str) -> (r: Option<String>)
    ensures
        r matches Some(t) ==> html_attr(html@, sel@, attr@) == Some(t@),
        r is None ==> html_attr(html@, sel@, attr@) is None,
{
    let doc = Document::from(html);
    let found = doc.try_select(sel)?;
    found.attr(attr).map(|a| a.to_string())
}

/// Relies on nipper's `Document::from`, `try_select`, `Selection::iter`,
/// `html` and `text`.
#[verifier::external_body]
pub(crate) fn select_rows(html: &str, rows: &str, cells: &Vec<&str>) -> (r: Vec<Vec<String>>)
    ensures
        table_view(r@) == html_rows(html@, rows@, selectors_view(cells@)),
{
    let doc = Document::from(html);
    let Some(found) = doc.try_select(rows) else { return Vec::new() };
    found.iter().map(|row| {
        let mut out = vec![row.html().to_string()];
        for c in cells.iter() {
            out.push(row.try_select(c).map(|s| s.text().to_string()).unwrap_or_default());
        }
        out
    }).collect()
}

} // verus!
