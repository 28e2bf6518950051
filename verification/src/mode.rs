//! The two kinds of lookup and the data that each one fixes.

use vstd::prelude::*;

verus! {

/// What is looked up for a word: its dictionary definition or its etymology.
#[derive(Clone, Copy, Debug, PartialEq, Eq, Structural)]
pub enum Mode {
    Definition,
    Etymology,
}

/// The query that finds the entry sections of a page.
pub open spec fn section_query_text(mode: Mode) -> Seq<char> {
    match mode {
        Mode::Definition => "div#Definition section[data-src=\"hm\"]"@,
        Mode::Etymology => "h2.scroll-m-16 span, section.-mt-4"@,
    }
}

/// The query that finds, inside a definition section, the parts that are kept.
pub open spec fn part_query_text() -> Seq<char> {
    "div.pseg, h2, hr.hmsep"@
}

/// The query that finds the similar words offered when a definition is missing.
pub open spec fn suggestion_query_text() -> Seq<char> {
    "ul.suggestions li"@
}

/// The message reported when nothing was found.
pub open spec fn not_found_text(mode: Mode) -> Seq<char> {
    match mode {
        Mode::Definition => "Definition not found"@,
        Mode::Etymology => "Etymology not found"@,
    }
}

impl Mode {
    /// The query that finds the entry sections of a page.
    pub fn section_query(self) -> (query: &'static str)
        ensures
            query@ == section_query_text(self),
    {
        match self {
            Mode::Definition => "div#Definition section[data-src=\"hm\"]",
            Mode::Etymology => "h2.scroll-m-16 span, section.-mt-4",
        }
    }

    /// The message reported when nothing was found.
    pub fn not_found_message(self) -> (message: &'static str)
        ensures
            message@ == not_found_text(self),
    {
        match self {
            Mode::Definition => "Definition not found",
            Mode::Etymology => "Etymology not found",
        }
    }
}

/// The query that finds, inside a definition section, the parts that are kept.
pub fn part_query() -> (query: &'static str)
    ensures
        query@ == part_query_text(),
{
    "div.pseg, h2, hr.hmsep"
}

/// The query that finds the similar words offered when a definition is missing.
pub fn suggestion_query() -> (query: &'static str)
    ensures
        query@ == suggestion_query_text(),
{
    "ul.suggestions li"
}

} // verus!
