//! Element selection in HTML pages, done by the `scraper` crate.
//!
//! Each function here parses a page (as a whole document or as a fragment), selects elements
//! with a CSS selector, and hands back plain text: element texts (all descendant text nodes,
//! concatenated) or attribute values, in document order. What the HTML parser and the selector
//! engine make of a page takes pages to state, so the results are named, not described: the
//! contracts claim only that the same arguments give the same result. A selector that does not
//! parse selects nothing.
use vstd::prelude::*;

use crate::models::song_title::opt_view;

verus! {

/// The views of a list of strings.
pub open spec fn texts_view(v: Seq<String>) -> Seq<Seq<char>> {
    v.map_values(|s: String| s@)
}

/// The views of a list of optional strings.
pub open spec fn opt_texts_view(v: Seq<Option<String>>) -> Seq<Option<Seq<char>>> {
    v.map_values(|o: Option<String>| opt_view(o))
}

/// The views of a list of lists of strings.
pub open spec fn nested_texts_view(v: Seq<Vec<String>>) -> Seq<Seq<Seq<char>>> {
    v.map_values(|x: Vec<String>| texts_view(x@))
}

/// The views of a list of lists of optional strings.
pub open spec fn nested_opt_texts_view(v: Seq<Vec<Option<String>>>) -> Seq<Seq<Option<Seq<char>>>> {
    v.map_values(|x: Vec<Option<String>>| opt_texts_view(x@))
}

/// The texts of the elements of a document that a selector matches.
pub uninterp spec fn document_texts_of(html: Seq<char>, selector: Seq<char>) -> Seq<Seq<char>>;

/// For each element of a document that `outer` matches, the texts of its descendants that
/// `inner` matches.
pub uninterp spec fn document_nested_texts_of(
    html: Seq<char>,
    outer: Seq<char>,
    inner: Seq<char>,
) -> Seq<Seq<Seq<char>>>;

/// For each element of a document that `outer` matches, the attribute `attr` of its descendants
/// that `inner` matches.
pub uninterp spec fn document_nested_attrs_of(
    html: Seq<char>,
    outer: Seq<char>,
    inner: Seq<char>,
    attr: Seq<char>,
) -> Seq<Seq<Option<Seq<char>>>>;

/// For each element of a document that `outer` matches, the attribute `attr` of the element
/// itself.
pub uninterp spec fn document_attrs_of(html: Seq<char>, outer: Seq<char>, attr: Seq<char>) -> Seq<
    Option<Seq<char>>,
>;

/// For each element of a document that `outer` matches, and for each of its ancestor elements
/// (nearest first), the attribute `attr` of the first descendant of that ancestor that `inner`
/// matches (none when nothing matches).
pub uninterp spec fn document_ancestor_attrs_of(
    html: Seq<char>,
    outer: Seq<char>,
    inner: Seq<char>,
    attr: Seq<char>,
) -> Seq<Seq<Option<Seq<char>>>>;

/// As `document_nested_texts_of`, for an HTML fragment.
pub uninterp spec fn fragment_nested_texts_of(
    html: Seq<char>,
    outer: Seq<char>,
    inner: Seq<char>,
) -> Seq<Seq<Seq<char>>>;

/// As `document_nested_attrs_of`, for an HTML fragment.
pub uninterp spec fn fragment_nested_attrs_of(
    html: Seq<char>,
    outer: Seq<char>,
    inner: Seq<char>,
    attr: Seq<char>,
) -> Seq<Seq<Option<Seq<char>>>>;

/// `scraper`: `Html::parse_document`, `Selector::parse`, `select`, and each match's text.
#[verifier::external_body]
pub(crate) fn document_texts(html: &str, selector: &str) -> (r: Vec<String>)
    ensures
        texts_view(r@) == document_texts_of(html@, selector@),
{
    let sel = match scraper::Selector::parse(selector) {
        Ok(sel) => sel,
        Err(_) => return Vec::new(),
    };
    scraper::Html::parse_document(html).select(&sel).map(|e| e.text().collect::<String>()).collect()
}

/// `scraper`: the texts of `inner` matches within each `outer` match of a parsed document.
#[verifier::external_body]
pub(crate) fn document_nested_texts(html: &str, outer: &str, inner: &str) -> (r: Vec<Vec<String>>)
    ensures
        nested_texts_view(r@) == document_nested_texts_of(html@, outer@, inner@),
{
    let (o, i) = match (scraper::Selector::parse(outer), scraper::Selector::parse(inner)) {
        (Ok(o), Ok(i)) => (o, i),
        _ => return Vec::new(),
    };
    let doc = scraper::Html::parse_document(html);
    doc.select(&o).map(|e| e.select(&i).map(|x| x.text().collect::<String>()).collect()).collect()
}

/// `scraper`: the attribute `attr` of `inner` matches within each `outer` match of a parsed
/// document.
#[verifier::external_body]
pub(crate) fn document_nested_attrs(html: &str, outer: &str, inner: &str, attr: &str) -> (r: Vec<
    Vec<Option<String>>,
>)
    ensures
        nested_opt_texts_view(r@) == document_nested_attrs_of(html@, outer@, inner@, attr@),
{
    let (o, i) = match (scraper::Selector::parse(outer), scraper::Selector::parse(inner)) {
        (Ok(o), Ok(i)) => (o, i),
        _ => return Vec::new(),
    };
    let doc = scraper::Html::parse_document(html);
    doc.select(&o).map(|e| e.select(&i).map(|x| x.attr(attr).map(str::to_string)).collect()).collect()
}

/// `scraper`: the attribute `attr` of each `outer` match of a parsed document.
#[verifier::external_body]
pub(crate) fn document_attrs(html: &str, outer: &str, attr: &str) -> (r: Vec<Option<String>>)
    ensures
        opt_texts_view(r@) == document_attrs_of(html@, outer@, attr@),
{
    let sel = match scraper::Selector::parse(outer) {
        Ok(sel) => sel,
        Err(_) => return Vec::new(),
    };
    let doc = scraper::Html::parse_document(html);
    doc.select(&sel).map(|e| e.attr(attr).map(str::to_string)).collect()
}

/// `scraper`: for each `outer` match of a parsed document, walking its ancestor elements
/// (`ElementRef::ancestors`, nearest first), the attribute `attr` of the first `inner` match
/// within each ancestor.
#[verifier::external_body]
pub(crate) fn document_ancestor_attrs(html: &str, outer: &str, inner: &str, attr: &str) -> (r: Vec<
    Vec<Option<String>>,
>)
    ensures
        nested_opt_texts_view(r@) == document_ancestor_attrs_of(html@, outer@, inner@, attr@),
{
    let (o, i) = match (scraper::Selector::parse(outer), scraper::Selector::parse(inner)) {
        (Ok(o), Ok(i)) => (o, i),
        _ => return Vec::new(),
    };
    let doc = scraper::Html::parse_document(html);
    doc.select(&o).map(|e| e.ancestors().filter_map(scraper::ElementRef::wrap).map(|a| a.select(
        &i,
    ).next().and_then(|x| x.attr(attr)).map(str::to_string)).collect()).collect()
}

/// `scraper`: as `document_nested_texts`, parsing `html` as a fragment.
#[verifier::external_body]
pub(crate) fn fragment_nested_texts(html: &str, outer: &str, inner: &str) -> (r: Vec<Vec<String>>)
    ensures
        nested_texts_view(r@) == fragment_nested_texts_of(html@, outer@, inner@),
{
    let (o, i) = match (scraper::Selector::parse(outer), scraper::Selector::parse(inner)) {
        (Ok(o), Ok(i)) => (o, i),
        _ => return Vec::new(),
    };
    let doc = scraper::Html::parse_fragment(html);
    doc.select(&o).map(|e| e.select(&i).map(|x| x.text().collect::<String>()).collect()).collect()
}

/// `scraper`: as `document_nested_attrs`, parsing `html` as a fragment.
#[verifier::external_body]
pub(crate) fn fragment_nested_attrs(html: &str, outer: &str, inner: &str, attr: &str) -> (r: Vec<
    Vec<Option<String>>,
>)
    ensures
        nested_opt_texts_view(r@) == fragment_nested_attrs_of(html@, outer@, inner@, attr@),
{
    let (o, i) = match (scraper::Selector::parse(outer), scraper::Selector::parse(inner)) {
        (Ok(o), Ok(i)) => (o, i),
        _ => return Vec::new(),
    };
    let doc = scraper::Html::parse_fragment(html);
    doc.select(&o).map(|e| e.select(&i).map(|x| x.attr(attr).map(str::to_string)).collect()).collect()
}

} // verus!
