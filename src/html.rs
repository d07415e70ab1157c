//! Queries on an HTML page, answered by the `scraper` crate.
//!
//! A page is its source text. Its elements are numbered in document order
//! from 0 (the root `html` element), and an element is named by that number.
//! What a query returns is named below as a function of the page text and
//! the query alone.
use vstd::prelude::*;
use scraper::{Html, Selector};

verus! {

/// `sel` parses as a CSS selector.
pub uninterp spec fn selector_parses(sel: Seq<char>) -> bool;

/// The elements that selector `sel` picks in `page`: among the descendants
/// of element `scope`, or in the whole page when `scope` is `None`.
pub uninterp spec fn selected(page: Seq<char>, scope: Option<usize>, sel: Seq<char>) -> Seq<usize>;

/// The markup inside element `i` of `page` (empty when there is none).
pub uninterp spec fn inner_html_at(page: Seq<char>, i: usize) -> Seq<char>;

/// All text inside element `i` of `page`, concatenated.
pub uninterp spec fn text_at(page: Seq<char>, i: usize) -> Seq<char>;

/// The first text node inside element `i` of `page`, or empty.
pub uninterp spec fn first_text_at(page: Seq<char>, i: usize) -> Seq<char>;

/// The value of attribute `name` of element `i` of `page`.
pub uninterp spec fn attr_at(page: Seq<char>, i: usize, name: Seq<char>) -> Option<Seq<char>>;

pub open spec fn first_of(s: Seq<usize>) -> Option<usize> {
    if s.len() > 0 {
        Some(s[0])
    } else {
        None
    }
}

/// Relies on `scraper::Selector::parse`: whether the selector text parses.
#[verifier::external_body]
pub(crate) fn selector_ok(sel: &str) -> (r: bool)
    ensures
        r == selector_parses(sel@),
{
    Selector::parse(sel).is_ok()
}

/// Relies on `scraper::Html::parse_document` and on `select` of `Html` and
/// of `ElementRef`: the elements that `sel` picks, in the order that
/// scraper yields them, each given as its number in document order.
#[verifier::external_body]
pub(crate) fn select_in(page: &str, scope: Option<usize>, sel: &str) -> (r: Vec<usize>)
    ensures
        r@ == selected(page@, scope, sel@),
{
    let html = Html::parse_document(page);
    let Ok(selector) = Selector::parse(sel) else { return Vec::new() };
    let ids: Vec<_> = html.root_element().descendent_elements().map(|e| e.id()).collect();
    let hits: Vec<_> = match scope {
        None => html.select(&selector).map(|e| e.id()).collect(),
        Some(i) => html.root_element().descendent_elements().nth(i)
            .map(|e| e.select(&selector).map(|d| d.id()).collect()).unwrap_or_default(),
    };
    hits.iter().map(|h| ids.iter().position(|x| x == h).unwrap_or(ids.len())).collect()
}

/// Relies on `scraper::ElementRef::inner_html`.
#[verifier::external_body]
pub(crate) fn inner_html_of(page: &str, i: usize) -> (r: String)
    ensures
        r@ == inner_html_at(page@, i),
{
    let html = Html::parse_document(page);
    let element = html.root_element().descendent_elements().nth(i);
    element.map(|e| e.inner_html()).unwrap_or_default()
}

/// Relies on `scraper::ElementRef::text`, all of it collected.
#[verifier::external_body]
pub(crate) fn text_of(page: &str, i: usize) -> (r: String)
    ensures
        r@ == text_at(page@, i),
{
    let html = Html::parse_document(page);
    let element = html.root_element().descendent_elements().nth(i);
    element.map(|e| e.text().collect()).unwrap_or_default()
}

/// Relies on `scraper::ElementRef::text`, its first item.
#[verifier::external_body]
pub(crate) fn first_text_of(page: &str, i: usize) -> (r: String)
    ensures
        r@ == first_text_at(page@, i),
{
    let html = Html::parse_document(page);
    let element = html.root_element().descendent_elements().nth(i);
    element.and_then(|e| e.text().next().map(|t| t.to_string())).unwrap_or_default()
}

/// Relies on `scraper::node::Element::attr`.
#[verifier::external_body]
pub(crate) fn attr_of(page: &str, i: usize, name: &str) -> (r: Option<String>)
    ensures
        match r {
            Some(v) => attr_at(page@, i, name@) == Some(v@),
            None => attr_at(page@, i, name@) is None,
        },
{
    let html = Html::parse_document(page);
    let element = html.root_element().descendent_elements().nth(i);
    element.and_then(|e| e.value().attr(name).map(|v| v.to_string()))
}

/// The markup inside the first element that `sel` picks inside `scope`,
/// or empty when there is none.
pub open spec fn first_inner_html(page: Seq<char>, scope: usize, sel: Seq<char>) -> Seq<char> {
    match first_of(selected(page, Some(scope), sel)) {
        Some(j) => inner_html_at(page, j),
        None => seq![],
    }
}

pub(crate) fn select_first(page: &str, scope: Option<usize>, sel: &str) -> (r: Option<usize>)
    ensures
        r == first_of(selected(page@, scope, sel@)),
{
    let found = select_in(page, scope, sel);
    if found.len() > 0 {
        Some(found[0])
    } else {
        None
    }
}

pub(crate) fn first_inner_html_of(page: &str, scope: usize, sel: &str) -> (r: String)
    ensures
        r@ == first_inner_html(page@, scope, sel@),
{
    match select_first(page, Some(scope), sel) {
        Some(j) => inner_html_of(page, j),
        None => String::new(),
    }
}

} // verus!
