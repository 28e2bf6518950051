//! Character-level helpers on strings: occurrences of a literal and their replacement.

use vstd::prelude::*;
use vstd::string::StringExecFns;

verus! {

/// `String::push` appends one character to the end of the string.
pub assume_specification[ String::push ](s: &mut String, c: char)
    ensures
        final(s)@ == old(s)@.push(c),
;

/// Whether `pattern` stands in `text` starting at index `at`.
pub open spec fn occurs_at(text: Seq<char>, pattern: Seq<char>, at: int) -> bool {
    &&& 0 <= at
    &&& at + pattern.len() <= text.len()
    &&& text.subrange(at, at + pattern.len()) == pattern
}

/// Whether `pattern` stands anywhere in `text`.
pub open spec fn occurs(text: Seq<char>, pattern: Seq<char>) -> bool {
    exists|at: int| occurs_at(text, pattern, at)
}

/// `text` with every occurrence of `pattern` replaced, scanning from the left; an
/// occurrence that overlaps an earlier one is not replaced.
pub open spec fn replaced(text: Seq<char>, pattern: Seq<char>, replacement: Seq<char>) -> Seq<char>
    decreases text.len(),
{
    if pattern.len() == 0 || text.len() < pattern.len() {
        text
    } else if occurs_at(text, pattern, 0) {
        replacement + replaced(text.skip(pattern.len() as int), pattern, replacement)
    } else {
        seq![text[0]] + replaced(text.skip(1), pattern, replacement)
    }
}

/// The texts of `pieces`, one after the other.
pub open spec fn concatenation(pieces: Seq<Seq<char>>) -> Seq<char>
    decreases pieces.len(),
{
    if pieces.len() == 0 {
        Seq::empty()
    } else {
        concatenation(pieces.drop_last()) + pieces.last()
    }
}

/// The texts that the strings of `pieces` hold.
pub open spec fn texts_of(pieces: Seq<String>) -> Seq<Seq<char>> {
    pieces.map_values(|piece: String| piece@)
}

/// A text shorter than the pattern holds no occurrence of it and is left unchanged.
pub proof fn lemma_short_text_unchanged(text: Seq<char>, pattern: Seq<char>, replacement: Seq<char>)
    requires
        text.len() < pattern.len(),
    ensures
        replaced(text, pattern, replacement) == text,
{
}

/// The characters of `s`, in order.
pub fn chars_of(s: &str) -> (out: Vec<char>)
    ensures
        out@ == s@,
{
    let mut out: Vec<char> = Vec::new();
    let chars = s.chars();
    for c in it: chars
        invariant
            it.seq() == s@,
            out@ == s@.take(it.index()),
    {
        out.push(c);
        proof {
            assert(s@.take(it.index() + 1) =~= s@.take(it.index()).push(s@[it.index()]));
        }
    }
    proof {
        assert(s@.take(s@.len() as int) =~= s@);
    }
    out
}

/// Whether `pattern` stands in `text` starting at index `at`.
pub fn matches_at(text: &Vec<char>, pattern: &Vec<char>, at: usize) -> (found: bool)
    ensures
        found == occurs_at(text@, pattern@, at as int),
{
    if pattern.len() > text.len() || at > text.len() - pattern.len() {
        return false;
    }
    let mut j: usize = 0;
    while j < pattern.len()
        invariant
            at + pattern.len() <= text.len(),
            j <= pattern.len(),
            forall|k: int| 0 <= k < j ==> text@[at + k] == pattern@[k],
        decreases pattern.len() - j,
    {
        if text[at + j] != pattern[j] {
            proof {
                assert(text@.subrange(at as int, at + pattern.len())[j as int] == text@[at + j]);
            }
            return false;
        }
        j += 1;
    }
    proof {
        assert(text@.subrange(at as int, at + pattern.len()) =~= pattern@);
    }
    true
}

/// Joins `pieces` into one string, in their order and with nothing between them.
pub fn concatenate(pieces: &Vec<String>) -> (out: String)
    ensures
        out@ == concatenation(texts_of(pieces@)),
{
    let mut out = String::new();
    let mut i: usize = 0;
    while i < pieces.len()
        invariant
            i <= pieces.len(),
            out@ == concatenation(texts_of(pieces@).take(i as int)),
        decreases pieces.len() - i,
    {
        out.append(pieces[i].as_str());
        proof {
            let texts = texts_of(pieces@);
            assert(texts.take(i + 1).drop_last() =~= texts.take(i as int));
            assert(texts.take(i + 1).last() == pieces@[i as int]@);
        }
        i += 1;
    }
    proof {
        assert(texts_of(pieces@).take(pieces@.len() as int) =~= texts_of(pieces@));
    }
    out
}

/// Replaces every occurrence of `pattern` in `text` by `replacement`, scanning from
/// the left without overlap. With an empty pattern the text is returned as it is.
pub fn replace_literal(text: &str, pattern: &str, replacement: &str) -> (out: String)
    ensures
        out@ == replaced(text@, pattern@, replacement@),
{
    let chars = chars_of(text);
    let wanted = chars_of(pattern);
    if wanted.len() == 0 {
        return text.to_owned();
    }
    let mut out = String::new();
    let mut i: usize = 0;
    proof {
        assert(text@.skip(0) =~= text@);
        assert(out@ + replaced(text@, pattern@, replacement@) =~= replaced(
            text@,
            pattern@,
            replacement@,
        ));
    }
    while i < chars.len()
        invariant
            chars@ == text@,
            wanted@ == pattern@,
            wanted@.len() > 0,
            i <= chars.len(),
            out@ + replaced(text@.skip(i as int), pattern@, replacement@) == replaced(
                text@,
                pattern@,
                replacement@,
            ),
        decreases chars.len() - i,
    {
        let ghost rest = text@.skip(i as int);
        let ghost before = out@;
        let hit = matches_at(&chars, &wanted, i);
        proof {
            if i + pattern@.len() <= text@.len() {
                assert(text@.subrange(i as int, i + pattern@.len()) =~= rest.subrange(
                    0,
                    pattern@.len() as int,
                ));
            }
            assert(hit == occurs_at(rest, pattern@, 0));
        }
        if hit {
            out.append(replacement);
            proof {
                let tail = replaced(text@.skip(i + pattern@.len()), pattern@, replacement@);
                assert(rest.skip(pattern@.len() as int) =~= text@.skip(i + pattern@.len()));
                assert((before + replacement@) + tail =~= before + (replacement@ + tail));
            }
            i += wanted.len();
        } else {
            out.push(chars[i]);
            proof {
                let tail = replaced(text@.skip(i + 1), pattern@, replacement@);
                assert(rest.skip(1) =~= text@.skip(i + 1));
                if rest.len() < pattern@.len() {
                    lemma_short_text_unchanged(rest, pattern@, replacement@);
                    lemma_short_text_unchanged(text@.skip(i + 1), pattern@, replacement@);
                    assert(rest =~= seq![rest[0]] + text@.skip(i + 1));
                }
                assert(before.push(text@[i as int]) + tail =~= before + (seq![rest[0]] + tail));
            }
            i += 1;
        }
    }
    proof {
        assert(text@.skip(text@.len() as int) =~= Seq::<char>::empty());
        assert(out@ + Seq::<char>::empty() =~= out@);
    }
    out
}

} // verus!
