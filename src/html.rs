//! What the logic reads out of an HTML page, through the scraper crate.
//! Each name below is what scraper yields for a page's text and a CSS
//! selector; an invalid selector matches nothing.

use vstd::prelude::*;

use crate::summary::opt_chars;

verus! {

/// The text of every element that `selector` matches in `page`, in document
/// order.
pub uninterp spec fn selected_texts(page: Seq<char>, selector: Seq<char>) -> Seq<Seq<char>>;

/// The value of attribute `attr` on every element that `selector` matches
/// in `page`, in document order.
pub uninterp spec fn selected_attrs(page: Seq<char>, selector: Seq<char>, attr: Seq<char>) -> Seq<
    Option<Seq<char>>,
>;

/// For every element that `outer` matches in `page`, in document order, the
/// text of every element inside it that `inner` matches.
pub uninterp spec fn nested_texts(page: Seq<char>, outer: Seq<char>, inner: Seq<char>) -> Seq<
    Seq<Seq<char>>,
>;

/// For every element that `outer` matches in `page`, in document order, the
/// value of attribute `attr` on every element inside it that `inner`
/// matches.
pub uninterp spec fn nested_attrs(
    page: Seq<char>,
    outer: Seq<char>,
    inner: Seq<char>,
    attr: Seq<char>,
) -> Seq<Seq<Option<Seq<char>>>>;

pub open spec fn texts_view(v: Vec<String>) -> Seq<Seq<char>> {
    v@.map_values(|s: String| s@)
}

pub open spec fn attrs_view(v: Vec<Option<String>>) -> Seq<Option<Seq<char>>> {
    v@.map_values(|o: Option<String>| opt_chars(o))
}

/// Relies on scraper's Html::parse_document, Selector::parse, Html::select
/// and ElementRef::text.
#[verifier::external_body]
pub(crate) fn select_texts(page: &str, selector: &str) -> (r: Vec<String>)
    ensures
        texts_view(r) == selected_texts(page@, selector@),
{
    let doc = scraper::Html::parse_document(page);
    match scraper::Selector::parse(selector) {
        Ok(sel) => doc.select(&sel).map(|el| el.text().collect()).collect(),
        Err(_) => Vec::new(),
    }
}

/// Relies on scraper's Html::parse_document, Selector::parse, Html::select
/// and ElementRef::attr.
#[verifier::external_body]
pub(crate) fn select_attrs(page: &str, selector: &str, attr: &str) -> (r: Vec<Option<String>>)
    ensures
        attrs_view(r) == selected_attrs(page@, selector@, attr@),
{
    let doc = scraper::Html::parse_document(page);
    match scraper::Selector::parse(selector) {
        Ok(sel) => doc.select(&sel).map(|el| el.attr(attr).map(String::from)).collect(),
        Err(_) => Vec::new(),
    }
}

/// Relies on scraper's Html::parse_document, Selector::parse, Html::select,
/// ElementRef::select and ElementRef::text.
#[verifier::external_body]
pub(crate) fn select_nested_texts(page: &str, outer: &str, inner: &str) -> (r: Vec<Vec<String>>)
    ensures
        r@.map_values(|g: Vec<String>| texts_view(g)) == nested_texts(page@, outer@, inner@),
{
    let doc = scraper::Html::parse_document(page);
    let (Ok(outer_sel), Ok(inner_sel)) = (
        scraper::Selector::parse(outer),
        scraper::Selector::parse(inner),
    ) else {
        return Vec::new();
    };
    doc.select(&outer_sel).map(|o| o.select(&inner_sel).map(|el| el.text().collect()).collect()).collect()
}

/// Relies on scraper's Html::parse_document, Selector::parse, Html::select,
/// ElementRef::select and ElementRef::attr.
#[verifier::external_body]
pub(crate) fn select_nested_attrs(page: &str, outer: &str, inner: &str, attr: &str) -> (r: Vec<
    Vec<Option<String>>,
>)
    ensures
        r@.map_values(|g: Vec<Option<String>>| attrs_view(g)) == nested_attrs(
            page@,
            outer@,
            inner@,
            attr@,
        ),
{
    let doc = scraper::Html::parse_document(page);
    let (Ok(outer_sel), Ok(inner_sel)) = (
        scraper::Selector::parse(outer),
        scraper::Selector::parse(inner),
    ) else {
        return Vec::new();
    };
    doc.select(&outer_sel)
        .map(|o| o.select(&inner_sel).map(|el| el.attr(attr).map(String::from)).collect())
        .collect()
}

} // verus!
