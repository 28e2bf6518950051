//! Cuts a fetched page down to the part worth parsing.

use crate::mode::Mode;
use crate::text::{chars_of, matches_at, occurs, occurs_at};
use vstd::prelude::*;
use vstd::string::StrSliceExecFns;

verus! {

/// The literal that opens the section of a definition page that is never used.
pub open spec fn marker_text() -> Seq<char> {
    "<div id=\"Thesaurus\">"@
}

/// The literal that opens the section of a definition page that is never used.
pub fn marker() -> (literal: &'static str)
    ensures
        literal@ == marker_text(),
{
    "<div id=\"Thesaurus\">"
}

/// Whether `cut` is where `text` is cut for `pattern`: the start of the first
/// occurrence of `pattern`, or the end of `text` where there is none.
pub open spec fn is_cut_point(text: Seq<char>, pattern: Seq<char>, cut: int) -> bool {
    &&& 0 <= cut <= text.len()
    &&& forall|at: int| 0 <= at < cut ==> !occurs_at(text, pattern, at)
    &&& cut == text.len() || occurs_at(text, pattern, cut)
}

/// The number of characters that slicing keeps of `text` in `mode`.
pub open spec fn kept_length(text: Seq<char>, mode: Mode) -> int {
    match mode {
        Mode::Definition => choose|cut: int| is_cut_point(text, marker_text(), cut),
        Mode::Etymology => text.len() as int,
    }
}

/// The part of `text` that is parsed in `mode`.
pub open spec fn sliced(text: Seq<char>, mode: Mode) -> Seq<char> {
    text.take(kept_length(text, mode))
}

/// There is one cut point at most.
pub proof fn lemma_cut_point_unique(text: Seq<char>, pattern: Seq<char>, a: int, b: int)
    requires
        is_cut_point(text, pattern, a),
        is_cut_point(text, pattern, b),
    ensures
        a == b,
{
    if a < b {
        assert(occurs_at(text, pattern, a));
    } else if b < a {
        assert(occurs_at(text, pattern, b));
    }
}

/// Where the first occurrence of `pattern` in `text` starts, or the length of `text`
/// where there is none.
pub fn cut_point(text: &Vec<char>, pattern: &Vec<char>) -> (cut: usize)
    ensures
        is_cut_point(text@, pattern@, cut as int),
{
    let mut at: usize = 0;
    while at < text.len()
        invariant
            at <= text.len(),
            forall|k: int| 0 <= k < at ==> !occurs_at(text@, pattern@, k),
        decreases text.len() - at,
    {
        if matches_at(text, pattern, at) {
            return at;
        }
        at += 1;
    }
    at
}

/// The part of a fetched page that is parsed. For a definition this is the text
/// before the first occurrence of the marker, or all of it where the marker is
/// absent; for an etymology it is the whole page.
pub fn slice_document(raw: &str, mode: Mode) -> (slice: String)
    ensures
        slice@ == sliced(raw@, mode),
        mode == Mode::Etymology ==> slice@ == raw@,
        mode == Mode::Definition ==> is_cut_point(raw@, marker_text(), slice@.len() as int),
        !occurs(raw@, marker_text()) ==> slice@ == raw@,
        mode == Mode::Definition ==> !occurs(slice@, marker_text()),
{
    match mode {
        Mode::Etymology => {
            proof {
                assert(raw@.take(raw@.len() as int) =~= raw@);
            }
            raw.to_owned()
        },
        Mode::Definition => {
            let chars = chars_of(raw);
            let wanted = chars_of(marker());
            let cut = cut_point(&chars, &wanted);
            proof {
                lemma_cut_is_kept(raw@, cut as int);
            }
            raw.substring_char(0, cut).to_owned()
        },
    }
}

/// What cutting a definition page at its cut point gives: the kept part is the one
/// that `sliced` names, and it holds no marker.
pub proof fn lemma_cut_is_kept(text: Seq<char>, cut: int)
    requires
        is_cut_point(text, marker_text(), cut),
    ensures
        text.subrange(0, cut) == sliced(text, Mode::Definition),
        kept_length(text, Mode::Definition) == cut,
        !occurs(sliced(text, Mode::Definition), marker_text()),
        !occurs(text, marker_text()) ==> sliced(text, Mode::Definition) == text,
{
    let chosen = kept_length(text, Mode::Definition);
    lemma_cut_point_unique(text, marker_text(), cut, chosen);
    let kept = text.take(cut);
    assert(text.subrange(0, cut) =~= kept);
    reveal_strlit("<div id=\"Thesaurus\">");
    let marker = marker_text();
    assert(marker.len() > 0);
    assert forall|at: int| !occurs_at(kept, marker, at) by {
        if occurs_at(kept, marker, at) {
            assert(at < cut);
            assert(kept.subrange(at, at + marker.len()) =~= text.subrange(at, at + marker.len()));
            assert(occurs_at(text, marker, at));
        }
    }
    if !occurs(text, marker) {
        assert(!occurs_at(text, marker, cut));
        assert(text.take(text.len() as int) =~= text);
    }
}

/// Every text has a cut point. `from` is how far the text is known to hold no
/// occurrence; it is 0 for a text of which nothing is known.
pub proof fn lemma_cut_point_exists(text: Seq<char>, pattern: Seq<char>, from: int)
    requires
        0 <= from <= text.len(),
        forall|at: int| 0 <= at < from ==> !occurs_at(text, pattern, at),
    ensures
        exists|cut: int| is_cut_point(text, pattern, cut),
    decreases text.len() - from,
{
    if from == text.len() || occurs_at(text, pattern, from) {
        assert(is_cut_point(text, pattern, from));
    } else {
        lemma_cut_point_exists(text, pattern, from + 1);
    }
}

/// The boundary of a slice. What is kept of a page is a prefix of it. Of a
/// definition page that holds the marker, the kept part ends where the first marker
/// starts, so that the marker and all that follows it are left out, and the kept
/// part holds no marker itself. A definition page without the marker, and every
/// etymology page, is kept whole.
pub proof fn lemma_slice_boundary(text: Seq<char>)
    ensures
        sliced(text, Mode::Definition) == text.take(kept_length(text, Mode::Definition)),
        0 <= kept_length(text, Mode::Definition) <= text.len(),
        occurs(text, marker_text()) ==> occurs_at(
            text,
            marker_text(),
            kept_length(text, Mode::Definition),
        ),
        forall|at: int| 0 <= at < kept_length(text, Mode::Definition) ==> !occurs_at(text, marker_text(), at),
        !occurs(sliced(text, Mode::Definition), marker_text()),
        !occurs(text, marker_text()) ==> sliced(text, Mode::Definition) == text,
        sliced(text, Mode::Etymology) == text,
{
    lemma_cut_point_exists(text, marker_text(), 0);
    let cut = kept_length(text, Mode::Definition);
    lemma_cut_is_kept(text, cut);
    assert(text.take(text.len() as int) =~= text);
    if occurs(text, marker_text()) {
        let at = choose|at: int| occurs_at(text, marker_text(), at);
        reveal_strlit("<div id=\"Thesaurus\">");
        assert(at < text.len());
        if cut == text.len() {
            assert(!occurs_at(text, marker_text(), at));
        }
    }
}

} // verus!
