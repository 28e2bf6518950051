//! The address that a word is fetched from, and the lower case that a word is put
//! in before it is looked up.

use crate::mode::Mode;
use crate::text::{replace_literal, replaced};
use vstd::prelude::*;
use vstd::string::StringExecFns;

verus! {

/// What `str::to_lowercase` returns for `text`.
pub uninterp spec fn lowercased(text: Seq<char>) -> Seq<char>;

/// Calls `str::to_lowercase`, which maps each character to its lowercase form by
/// the Unicode tables of the standard library. The contract only names the result.
#[verifier::external_body]
pub(crate) fn to_lowercase(text: &str) -> (lower: String)
    ensures
        lower@ == lowercased(text@),
{
    text.to_lowercase()
}

/// The address that the pages of `mode` start with.
pub open spec fn address_prefix(mode: Mode) -> Seq<char> {
    match mode {
        Mode::Definition => "https://www.thefreedictionary.com/"@,
        Mode::Etymology => "https://www.etymonline.com/word/"@,
    }
}

/// What stands for a space in an address of `mode`.
pub open spec fn space_code(mode: Mode) -> Seq<char> {
    match mode {
        Mode::Definition => seq!['+'],
        Mode::Etymology => seq!['%', '2', '0'],
    }
}

/// The address of the page for `word` in `mode`: the prefix of the site, then the
/// word with each space replaced by the site's code for it.
pub open spec fn address_text(mode: Mode, word: Seq<char>) -> Seq<char> {
    address_prefix(mode) + replaced(word, seq![' '], space_code(mode))
}

/// The address of the page for `word` in `mode`.
pub fn lookup_url(mode: Mode, word: &str) -> (url: String)
    ensures
        url@ == address_text(mode, word@),
{
    let space = " ";
    proof {
        reveal_strlit(" ");
        assert(space@ =~= seq![' ']);
    }
    match mode {
        Mode::Definition => {
            let code = "+";
            proof {
                reveal_strlit("+");
                assert(code@ =~= seq!['+']);
            }
            let escaped = replace_literal(word, space, code);
            let mut url = String::from_str("https://www.thefreedictionary.com/");
            url.append(escaped.as_str());
            url
        },
        Mode::Etymology => {
            let code = "%20";
            proof {
                reveal_strlit("%20");
                assert(code@ =~= seq!['%', '2', '0']);
            }
            let escaped = replace_literal(word, space, code);
            let mut url = String::from_str("https://www.etymonline.com/word/");
            url.append(escaped.as_str());
            url
        },
    }
}

} // verus!
