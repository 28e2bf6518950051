//! Parsed documents, the structural queries run on them, and the markup
//! compiled from what the queries find.
//!
//! Parsing, selecting and serializing are the work of the `scraper` crate. Its
//! trees, elements and selectors pass through here unopened, and what it returns
//! has a name in the contracts, not a definition. A contract speaks of an element
//! as a value, whatever the time for which it is borrowed, and so writes its type
//! with the `'static` lifetime.

use crate::mode::{part_query, part_query_text, section_query_text, suggestion_query, suggestion_query_text, Mode};
use crate::slicer::{slice_document, sliced};
use crate::text::{concatenate, concatenation, texts_of};
use scraper::error::SelectorErrorKind;
use scraper::{ElementRef, Html, Selector};
use vstd::prelude::*;

verus! {

/// A parsed HTML tree of the `scraper` crate. Nothing inside it is visible here.
#[verifier::external_type_specification]
#[verifier::external_body]
pub struct ExHtml(scraper::Html);

/// A reference to one element of a parsed tree of the `scraper` crate.
#[verifier::external_type_specification]
#[verifier::external_body]
pub struct ExElementRef<'a>(scraper::ElementRef<'a>);

/// A compiled group of CSS selectors of the `scraper` crate.
#[verifier::external_type_specification]
#[verifier::external_body]
pub struct ExSelector(scraper::Selector);

/// The error with which the `scraper` crate rejects a group of selectors.
#[verifier::external_type_specification]
#[verifier::external_body]
pub struct ExSelectorErrorKind(scraper::error::SelectorErrorKind);

/// The tree that `scraper::Html::parse_fragment` builds from `text`.
pub uninterp spec fn parsed_fragment(text: Seq<char>) -> Html;

/// What `scraper::Selector::parse` makes of `query`: the selector, or the error
/// with which it rejects the query.
pub uninterp spec fn compiled_query(query: Seq<char>) -> Result<Selector, SelectorErrorKind>;

/// The elements that `scraper::Html::select` yields for `selector` on `document`, in
/// the order in which it yields them.
pub uninterp spec fn document_matches(document: Html, selector: Selector) -> Seq<ElementRef<'static>>;

/// The elements that `scraper::ElementRef::select` yields for `selector` below
/// `element`, in the order in which it yields them.
pub uninterp spec fn element_matches(element: ElementRef<'static>, selector: Selector) -> Seq<ElementRef<'static>>;

/// The markup that `scraper::ElementRef::html` serializes `element` to.
pub uninterp spec fn element_markup(element: ElementRef<'static>) -> Seq<char>;

/// Calls `scraper::Html::parse_fragment`. Parsing never fails: the crate builds a
/// tree from any text. The contract only names the tree.
#[verifier::external_body]
fn parse_fragment(text: &str) -> (document: Html)
    ensures
        document == parsed_fragment(text@),
{
    Html::parse_fragment(text)
}

/// Calls `scraper::Selector::parse`. The contract only names the outcome.
#[verifier::external_body]
fn parse_selector(query: &str) -> (outcome: Result<Selector, SelectorErrorKind>)
    ensures
        outcome == compiled_query(query@),
{
    Selector::parse(query)
}

/// Calls `scraper::Html::select` and collects what the iterator yields. The
/// contract only names the elements.
#[verifier::external_body]
fn select_in_document<'a>(document: &'a Html, selector: &Selector) -> (found: Vec<ElementRef<'a>>)
    ensures
        found@ == document_matches(*document, *selector),
{
    document.select(selector).collect()
}

/// Calls `scraper::ElementRef::select` and collects what the iterator yields. The
/// contract only names the elements.
#[verifier::external_body]
fn select_in_element<'a>(element: &ElementRef<'a>, selector: &Selector) -> (found: Vec<ElementRef<'a>>)
    ensures
        found@ == element_matches(*element, *selector),
{
    element.select(selector).collect()
}

/// Calls `scraper::ElementRef::html`. The contract only names the markup.
#[verifier::external_body]
fn element_html(element: &ElementRef<'_>) -> (markup: String)
    ensures
        markup@ == element_markup(*element),
{
    element.html()
}

/// The markup of each of `elements`.
pub open spec fn markup_of_each(elements: Seq<ElementRef<'static>>) -> Seq<Seq<char>> {
    elements.map_values(|element: ElementRef<'static>| element_markup(element))
}

/// The markup of `elements`, one after the other.
pub open spec fn joined_markup(elements: Seq<ElementRef<'static>>) -> Seq<char> {
    concatenation(markup_of_each(elements))
}

/// The elements that `query` finds in `document`, or nothing where the selector
/// engine rejects `query`.
pub open spec fn found_in_document(document: Html, query: Seq<char>) -> Option<Seq<ElementRef<'static>>> {
    match compiled_query(query) {
        Ok(selector) => Some(document_matches(document, selector)),
        Err(_) => None,
    }
}

/// The entry sections of `document` in `mode`.
pub open spec fn sections_of(document: Html, mode: Mode) -> Option<Seq<ElementRef<'static>>> {
    found_in_document(document, section_query_text(mode))
}

/// The markup compiled from `sections` in `mode`: for an etymology every section
/// whole; for a definition the kept parts of the first section. Nothing where the
/// selector engine rejects the query for the parts.
pub open spec fn compiled_markup(mode: Mode, sections: Seq<ElementRef<'static>>) -> Option<Seq<char>> {
    match mode {
        Mode::Etymology => Some(joined_markup(sections)),
        Mode::Definition => match compiled_query(part_query_text()) {
            Ok(selector) => Some(joined_markup(element_matches(sections[0], selector))),
            Err(_) => None,
        },
    }
}

/// Slices a fetched page for `mode` and parses what is kept.
pub fn take_chunk(response_text: &str, mode: Mode) -> (document: Html)
    ensures
        document == parsed_fragment(sliced(response_text@, mode)),
{
    let slice = slice_document(response_text, mode);
    parse_fragment(slice.as_str())
}

/// Runs `query` on `document`. Returns nothing exactly where the selector engine
/// rejects `query`.
pub fn select_all<'a>(document: &'a Html, query: &str) -> (found: Option<Vec<ElementRef<'a>>>)
    ensures
        match found {
            Some(elements) => found_in_document(*document, query@) == Some(elements@),
            None => found_in_document(*document, query@) is None,
        },
{
    match parse_selector(query) {
        Ok(selector) => Some(select_in_document(document, &selector)),
        Err(_) => None,
    }
}

/// The entry sections of `document` in `mode`, in the order in which the query
/// yields them. Returns nothing exactly where the selector engine rejects the
/// query of `mode`.
pub fn get_section_vec<'a>(mode: Mode, parsed_chunk: &'a Html) -> (found: Option<Vec<ElementRef<'a>>>)
    ensures
        match found {
            Some(sections) => sections_of(*parsed_chunk, mode) == Some(sections@),
            None => sections_of(*parsed_chunk, mode) is None,
        },
{
    select_all(parsed_chunk, mode.section_query())
}

/// The similar words that `document` offers, as list items. Returns nothing exactly
/// where the selector engine rejects the query for them.
pub fn get_suggestion_vec<'a>(parsed_chunk: &'a Html) -> (found: Option<Vec<ElementRef<'a>>>)
    ensures
        match found {
            Some(items) => found_in_document(*parsed_chunk, suggestion_query_text()) == Some(items@),
            None => found_in_document(*parsed_chunk, suggestion_query_text()) is None,
        },
{
    select_all(parsed_chunk, suggestion_query())
}

/// Serializes each of `elements`.
pub fn serialize_each(elements: &Vec<ElementRef<'_>>) -> (pieces: Vec<String>)
    ensures
        texts_of(pieces@) == markup_of_each(elements@),
{
    let mut pieces: Vec<String> = Vec::new();
    let mut i: usize = 0;
    while i < elements.len()
        invariant
            i <= elements.len(),
            pieces@.len() == i,
            forall|k: int| 0 <= k < i ==> (#[trigger] pieces@[k])@ == element_markup(elements@[k]),
        decreases elements.len() - i,
    {
        pieces.push(element_html(&elements[i]));
        i += 1;
    }
    proof {
        assert(texts_of(pieces@) =~= markup_of_each(elements@));
    }
    pieces
}

/// Serializes `elements` one after the other into one string.
pub fn join_markup(elements: &Vec<ElementRef<'_>>) -> (markup: String)
    ensures
        markup@ == joined_markup(elements@),
{
    let pieces = serialize_each(elements);
    concatenate(&pieces)
}

/// Compiles the selected sections into one string of markup. For an etymology this
/// is every section, serialized whole; for a definition it is what the query for the
/// kept parts yields below the first section. Returns nothing exactly where the
/// selector engine rejects that query.
pub fn compile_results(mode: Mode, section_vec: Vec<ElementRef<'_>>) -> (markup: Option<String>)
    requires
        mode == Mode::Definition ==> section_vec@.len() > 0,
    ensures
        match markup {
            Some(text) => compiled_markup(mode, section_vec@) == Some(text@),
            None => compiled_markup(mode, section_vec@) is None,
        },
{
    match mode {
        Mode::Etymology => Some(join_markup(&section_vec)),
        Mode::Definition => match parse_selector(part_query()) {
            Ok(selector) => {
                let parts = select_in_element(&section_vec[0], &selector);
                Some(join_markup(&parts))
            },
            Err(_) => None,
        },
    }
}

} // verus!
