//! The cleanup rules applied around the two conversion stages, and the arguments
//! that each stage hands to the converter.
//!
//! The rules that match a pattern are the work of the `regex` crate: what it returns
//! has a name in the contracts, not a definition. The rule that replaces a literal
//! is worked out here.

use crate::mode::Mode;
use crate::text::{replace_literal, replaced};
use regex::Regex;
use vstd::prelude::*;

verus! {

/// A compiled regular expression of the `regex` crate. Nothing inside it is
/// visible here.
#[verifier::external_type_specification]
#[verifier::external_body]
pub struct ExRegex(regex::Regex);

/// The error with which the `regex` crate rejects a pattern.
#[verifier::external_type_specification]
#[verifier::external_body]
pub struct ExRegexError(regex::Error);

/// What `regex::Regex::new` makes of `pattern`: the compiled expression, or the
/// error with which it rejects the pattern.
pub uninterp spec fn compiled_pattern(pattern: Seq<char>) -> Result<Regex, regex::Error>;

/// What `regex::Regex::replace_all` returns for `text`: every match of `expression`,
/// found from the left without overlap, replaced by the expansion of `replacement`.
pub uninterp spec fn regex_replaced(expression: Regex, text: Seq<char>, replacement: Seq<char>) -> Seq<char>;

/// Calls `regex::Regex::new`. The contract only names the outcome.
#[verifier::external_body]
fn compile_pattern(pattern: &str) -> (outcome: Result<Regex, regex::Error>)
    ensures
        outcome == compiled_pattern(pattern@),
{
    Regex::new(pattern)
}

/// Calls `regex::Regex::replace_all` with a replacement string, in which `$name`
/// stands for a capture group. The contract only names the result.
#[verifier::external_body]
fn replace_matches(expression: &Regex, text: &str, replacement: &str) -> (out: String)
    ensures
        out@ == regex_replaced(*expression, text@, replacement@),
{
    expression.replace_all(text, replacement).into_owned()
}

/// One conversion that the external converter is asked for.
#[derive(Clone, Copy, Debug, PartialEq, Eq, Structural)]
pub enum Conversion {
    /// Markup to the line-oriented intermediate format, without line wrapping.
    MarkupToIntermediate,
    /// Cleaned intermediate text to plain text.
    IntermediateToPlain,
    /// Markup straight to plain text, as used for suggestions.
    MarkupToPlain,
}

/// The arguments that follow the input file's path on the converter's command line.
pub open spec fn argument_texts(conversion: Conversion) -> Seq<Seq<char>> {
    match conversion {
        Conversion::MarkupToIntermediate => seq![
            "-f"@,
            "html+smart-native_divs"@,
            "-t"@,
            "markdown"@,
            "--wrap=none"@,
        ],
        Conversion::IntermediateToPlain => seq!["-t"@, "plain"@],
        Conversion::MarkupToPlain => seq!["-f"@, "html+smart-native_divs"@, "-t"@, "plain"@],
    }
}

impl Conversion {
    /// The arguments that follow the input file's path on the converter's command
    /// line.
    pub fn arguments(self) -> (args: Vec<&'static str>)
        ensures
            args@.len() == argument_texts(self).len(),
            forall|i: int| 0 <= i < args@.len() ==> (#[trigger] args@[i])@ == argument_texts(self)[i],
    {
        let mut args: Vec<&'static str> = Vec::new();
        match self {
            Conversion::MarkupToIntermediate => {
                args.push("-f");
                args.push("html+smart-native_divs");
                args.push("-t");
                args.push("markdown");
                args.push("--wrap=none");
            },
            Conversion::IntermediateToPlain => {
                args.push("-t");
                args.push("plain");
            },
            Conversion::MarkupToPlain => {
                args.push("-f");
                args.push("html+smart-native_divs");
                args.push("-t");
                args.push("plain");
            },
        }
        args
    }
}

/// Matches an image reference that starts a paragraph, up to the end of its line.
pub open spec fn figure_pattern() -> Seq<char> {
    r"(?m)\n\n!\[.+$"@
}

/// Matches a bold numbered list label at the start of any line, the first line of
/// the text included.
pub open spec fn numbered_label_pattern() -> Seq<char> {
    r"(?m)^\*\*(?P<a>\d+\.)\*\*"@
}

/// What a bold numbered list label is replaced by: the bare label.
pub open spec fn numbered_label_replacement() -> Seq<char> {
    "$a"@
}

/// Matches a bold lettered list label at the start of any line, the first line of
/// the text included.
pub open spec fn lettered_label_pattern() -> Seq<char> {
    r"(?m)^\*\*(?P<b>[a-z]\.)\*\*"@
}

/// What a bold lettered list label is replaced by: the bare label, indented by four
/// spaces.
pub open spec fn lettered_label_replacement() -> Seq<char> {
    "    $b"@
}

/// Matches a part-of-speech tag in parentheses that ends a line directly behind a
/// character that is no white space.
pub open spec fn speech_tag_pattern() -> Seq<char> {
    r"(\S)(\([a-z]{1,3}\.\))\n"@
}

/// What such a tag is replaced by: the same text with one space before the tag.
pub open spec fn speech_tag_replacement() -> Seq<char> {
    "$1 $2\n"@
}

/// The escaped double quote that the converter leaves in its intermediate output:
/// two backslashes and the quote.
pub open spec fn escaped_quote() -> Seq<char> {
    seq!['\\', '\\', '"']
}

/// `text` with every escaped double quote replaced by a plain one.
pub open spec fn unescaped(text: Seq<char>) -> Seq<char> {
    replaced(text, escaped_quote(), seq!['"'])
}

/// `text` after one rule: every match of `pattern` replaced by `replacement`.
/// Nothing where the expression engine rejects `pattern`.
pub open spec fn rule_applied(pattern: Seq<char>, text: Seq<char>, replacement: Seq<char>) -> Option<Seq<char>> {
    match compiled_pattern(pattern) {
        Ok(expression) => Some(regex_replaced(expression, text, replacement)),
        Err(_) => None,
    }
}

/// The intermediate text after the list-label rules of a definition: first the
/// numbered labels, then the lettered ones.
pub open spec fn labels_cleaned(text: Seq<char>) -> Option<Seq<char>> {
    match rule_applied(numbered_label_pattern(), text, numbered_label_replacement()) {
        Some(numbered) => rule_applied(lettered_label_pattern(), numbered, lettered_label_replacement()),
        None => None,
    }
}

/// The intermediate text after the cleanup rules of `mode`, in their order.
pub open spec fn intermediate_cleaned(mode: Mode, text: Seq<char>) -> Option<Seq<char>> {
    match mode {
        Mode::Etymology => match rule_applied(figure_pattern(), text, Seq::empty()) {
            Some(bare) => Some(unescaped(bare)),
            None => None,
        },
        Mode::Definition => match labels_cleaned(text) {
            Some(labelled) => Some(unescaped(labelled)),
            None => None,
        },
    }
}

/// The plain text after the cleanup rule of `mode`: an etymology gets a space before
/// each part-of-speech tag that lacks one; a definition is left as it is.
pub open spec fn plain_cleaned(mode: Mode, text: Seq<char>) -> Option<Seq<char>> {
    match mode {
        Mode::Etymology => rule_applied(speech_tag_pattern(), text, speech_tag_replacement()),
        Mode::Definition => Some(text),
    }
}

/// Replaces every escaped double quote in `text` by a plain one.
pub fn unescape_quotes(text: &str) -> (out: String)
    ensures
        out@ == unescaped(text@),
{
    let pattern = "\\\\\"";
    let quote = "\"";
    proof {
        reveal_strlit("\\\\\"");
        reveal_strlit("\"");
        assert(pattern@ =~= escaped_quote());
        assert(quote@ =~= seq!['"']);
    }
    replace_literal(text, pattern, quote)
}

/// Applies one rule to `text`. Returns nothing exactly where the expression engine
/// rejects `pattern`.
pub fn apply_rule(pattern: &str, text: &str, replacement: &str) -> (out: Option<String>)
    ensures
        match out {
            Some(changed) => rule_applied(pattern@, text@, replacement@) == Some(changed@),
            None => rule_applied(pattern@, text@, replacement@) is None,
        },
{
    match compile_pattern(pattern) {
        Ok(expression) => Some(replace_matches(&expression, text, replacement)),
        Err(_) => None,
    }
}

/// Strips the bold markers from the list labels that start a line of a definition,
/// the first line included: numbered labels first, then lettered ones, which are
/// indented. Returns nothing exactly where the
/// expression engine rejects one of the two patterns.
pub fn clean_list_labels(text: &str) -> (out: Option<String>)
    ensures
        match out {
            Some(cleaned) => labels_cleaned(text@) == Some(cleaned@),
            None => labels_cleaned(text@) is None,
        },
{
    match apply_rule(r"(?m)^\*\*(?P<a>\d+\.)\*\*", text, "$a") {
        Some(numbered) => apply_rule(r"(?m)^\*\*(?P<b>[a-z]\.)\*\*", numbered.as_str(), "    $b"),
        None => None,
    }
}

/// Cleans the converter's intermediate output for `mode`, rule by rule. Returns
/// nothing exactly where the expression engine rejects a pattern of `mode`.
pub fn clean_intermediate(mode: Mode, text: &str) -> (out: Option<String>)
    ensures
        match out {
            Some(cleaned) => intermediate_cleaned(mode, text@) == Some(cleaned@),
            None => intermediate_cleaned(mode, text@) is None,
        },
{
    let stripped = match mode {
        Mode::Etymology => apply_rule(r"(?m)\n\n!\[.+$", text, ""),
        Mode::Definition => clean_list_labels(text),
    };
    proof {
        reveal_strlit("");
        assert(""@ =~= Seq::<char>::empty());
    }
    match stripped {
        Some(bare) => Some(unescape_quotes(bare.as_str())),
        None => None,
    }
}

/// Cleans the converter's plain output for `mode`. Returns nothing exactly where the
/// expression engine rejects the pattern of `mode`; a definition has none.
pub fn clean_plain(mode: Mode, text: &str) -> (out: Option<String>)
    ensures
        match out {
            Some(cleaned) => plain_cleaned(mode, text@) == Some(cleaned@),
            None => plain_cleaned(mode, text@) is None,
        },
        mode == Mode::Definition ==> out is Some,
{
    match mode {
        Mode::Etymology => apply_rule(r"(\S)(\([a-z]{1,3}\.\))\n", text, "$1 $2\n"),
        Mode::Definition => Some(text.to_owned()),
    }
}

} // verus!
