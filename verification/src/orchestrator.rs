//! The lookup as a state machine: from each answer of the outside world it decides
//! what is asked of it next. Whoever drives it performs the actions (reading the
//! cache, fetching, running the converter, writing the cache, printing) and hands
//! back what came of them.

use crate::cache::{lookup_statement, lookup_text, write_statement, write_text};
use crate::fetch::{address_text, lookup_url, lowercased, to_lowercase};
use crate::markup::{
    compile_results, compiled_markup, found_in_document, get_section_vec, get_suggestion_vec,
    join_markup, joined_markup, parsed_fragment, sections_of, take_chunk,
};
use crate::mode::{suggestion_query_text, Mode};
use crate::normalize::{clean_intermediate, clean_plain, intermediate_cleaned, plain_cleaned, Conversion};
use crate::slicer::sliced;
use vstd::prelude::*;
use vstd::string::StringExecFns;

verus! {

/// Why a lookup ended without a text.
#[derive(Clone, Copy, Debug, PartialEq, Eq, Structural)]
pub enum Failure {
    /// The page could not be fetched.
    Transport,
    /// The converter could not be run or its output could not be read.
    Conversion,
    /// The page holds no entry and, for a definition, no suggestions either.
    NotFound,
    /// The selector engine rejected one of the structural queries.
    QueryRejected,
    /// The expression engine rejected one of the cleanup patterns.
    PatternRejected,
    /// An answer arrived that the last action did not ask for.
    UnexpectedEvent,
}

/// What the lookup waits for.
#[derive(Clone, Copy, Debug, PartialEq, Eq, Structural)]
pub enum Phase {
    AwaitCache,
    AwaitFetch,
    AwaitIntermediate,
    AwaitPlain,
    AwaitSuggestions,
    AwaitCacheWrite,
    Finished,
}

/// What the outside world answers.
#[derive(Debug, PartialEq, Eq)]
pub enum Event {
    /// The cache was read: the entry found, or nothing on a miss or a cache failure.
    CacheAnswered { entry: Option<String> },
    /// The page was fetched.
    Fetched { body: String },
    /// The page could not be fetched.
    FetchFailed,
    /// The converter ran and this is its output.
    Converted { output: String },
    /// The converter could not be run or its output could not be read.
    ConversionFailed,
    /// The cache write was attempted, whether or not it succeeded.
    CacheWritten,
}

/// What the lookup asks of the outside world.
#[derive(Debug, PartialEq, Eq)]
pub enum Action {
    /// Run `statement` on the cache with `word` bound to its parameter.
    QueryCache { statement: String, word: String },
    /// Fetch the page at `url`.
    Fetch { url: String },
    /// Run the converter for `conversion` on `input`.
    Convert { conversion: Conversion, input: String },
    /// Run `statement` on the cache with `word` and `content` bound to its
    /// parameters, and ignore a failure.
    WriteCache { statement: String, word: String, content: String },
    /// Print `text`; the lookup is over.
    Emit { text: String },
    /// Report `failure`; the lookup is over.
    Fail { failure: Failure },
}

/// What an answer amounts to once the page behind it was read or its text was
/// cleaned: the plain facts from which the lookup decides.
#[derive(Debug, PartialEq, Eq)]
pub enum Observation {
    /// The cache was read: the entry found, or nothing.
    CacheAnswered { entry: Option<String> },
    /// The page could not be fetched.
    FetchFailed,
    /// The page holds an entry, compiled to `markup`.
    EntryFound { markup: String },
    /// The page holds no entry but suggestions, compiled to `markup`.
    SuggestionsFound { markup: String },
    /// The page holds neither an entry nor, where they count, suggestions.
    NothingFound,
    /// The selector engine rejected a structural query.
    QueryRejected,
    /// The first conversion ran and its output was cleaned to `text`.
    IntermediateReady { text: String },
    /// The second conversion ran and its output was cleaned to `text`.
    PlainReady { text: String },
    /// The suggestions were converted to `text`.
    SuggestionsReady { text: String },
    /// The expression engine rejected a cleanup pattern.
    PatternRejected,
    /// The converter could not be run or its output could not be read.
    ConversionFailed,
    /// The cache write was attempted.
    CacheWritten,
    /// The answer was not the one that the last action asked for.
    Unexpected,
}

/// An `Observation` as a mathematical value.
pub enum ObservationView {
    CacheAnswered { entry: Option<Seq<char>> },
    FetchFailed,
    EntryFound { markup: Seq<char> },
    SuggestionsFound { markup: Seq<char> },
    NothingFound,
    QueryRejected,
    IntermediateReady { text: Seq<char> },
    PlainReady { text: Seq<char> },
    SuggestionsReady { text: Seq<char> },
    PatternRejected,
    ConversionFailed,
    CacheWritten,
    Unexpected,
}

impl View for Observation {
    type V = ObservationView;

    open spec fn view(&self) -> ObservationView {
        match self {
            Observation::CacheAnswered { entry } => ObservationView::CacheAnswered {
                entry: match entry {
                    Some(text) => Some(text@),
                    None => None,
                },
            },
            Observation::FetchFailed => ObservationView::FetchFailed,
            Observation::EntryFound { markup } => ObservationView::EntryFound { markup: markup@ },
            Observation::SuggestionsFound { markup } => ObservationView::SuggestionsFound {
                markup: markup@,
            },
            Observation::NothingFound => ObservationView::NothingFound,
            Observation::QueryRejected => ObservationView::QueryRejected,
            Observation::IntermediateReady { text } => ObservationView::IntermediateReady {
                text: text@,
            },
            Observation::PlainReady { text } => ObservationView::PlainReady { text: text@ },
            Observation::SuggestionsReady { text } => ObservationView::SuggestionsReady {
                text: text@,
            },
            Observation::PatternRejected => ObservationView::PatternRejected,
            Observation::ConversionFailed => ObservationView::ConversionFailed,
            Observation::CacheWritten => ObservationView::CacheWritten,
            Observation::Unexpected => ObservationView::Unexpected,
        }
    }
}

/// An `Event` as a mathematical value.
pub enum EventView {
    CacheAnswered { entry: Option<Seq<char>> },
    Fetched { body: Seq<char> },
    FetchFailed,
    Converted { output: Seq<char> },
    ConversionFailed,
    CacheWritten,
}

/// An `Action` as a mathematical value.
pub enum ActionView {
    QueryCache { statement: Seq<char>, word: Seq<char> },
    Fetch { url: Seq<char> },
    Convert { conversion: Conversion, input: Seq<char> },
    WriteCache { statement: Seq<char>, word: Seq<char>, content: Seq<char> },
    Emit { text: Seq<char> },
    Fail { failure: Failure },
}

/// A `Lookup` as a mathematical value.
pub struct LookupView {
    pub mode: Mode,
    pub word: Seq<char>,
    pub refresh: bool,
    pub cache_available: bool,
    pub cache_hit: bool,
    pub phase: Phase,
    pub pending: Seq<char>,
}

impl View for Event {
    type V = EventView;

    open spec fn view(&self) -> EventView {
        match self {
            Event::CacheAnswered { entry } => EventView::CacheAnswered {
                entry: match entry {
                    Some(text) => Some(text@),
                    None => None,
                },
            },
            Event::Fetched { body } => EventView::Fetched { body: body@ },
            Event::FetchFailed => EventView::FetchFailed,
            Event::Converted { output } => EventView::Converted { output: output@ },
            Event::ConversionFailed => EventView::ConversionFailed,
            Event::CacheWritten => EventView::CacheWritten,
        }
    }
}

impl View for Action {
    type V = ActionView;

    open spec fn view(&self) -> ActionView {
        match self {
            Action::QueryCache { statement, word } => ActionView::QueryCache {
                statement: statement@,
                word: word@,
            },
            Action::Fetch { url } => ActionView::Fetch { url: url@ },
            Action::Convert { conversion, input } => ActionView::Convert {
                conversion: *conversion,
                input: input@,
            },
            Action::WriteCache { statement, word, content } => ActionView::WriteCache {
                statement: statement@,
                word: word@,
                content: content@,
            },
            Action::Emit { text } => ActionView::Emit { text: text@ },
            Action::Fail { failure } => ActionView::Fail { failure: *failure },
        }
    }
}

/// The line that stands before a list of suggestions, with the blank line after it.
pub open spec fn suggestion_header() -> Seq<char> {
    "Did you mean:\n\n"@
}

/// The state in which a lookup ends, from `state`.
pub open spec fn finished(state: LookupView) -> LookupView {
    LookupView { phase: Phase::Finished, ..state }
}

/// The state `state` in another phase.
pub open spec fn awaiting(state: LookupView, phase: Phase) -> LookupView {
    LookupView { phase, ..state }
}

/// The request to fetch the page of the lookup.
pub open spec fn fetch_step(state: LookupView) -> (LookupView, ActionView) {
    (
        awaiting(state, Phase::AwaitFetch),
        ActionView::Fetch { url: address_text(state.mode, state.word) },
    )
}

/// The end of a lookup with `failure`.
pub open spec fn fail_step(state: LookupView, failure: Failure) -> (LookupView, ActionView) {
    (finished(state), ActionView::Fail { failure })
}

/// Where a lookup starts: at the cache where there is one, else at the fetch.
pub open spec fn initial(
    mode: Mode,
    word: Seq<char>,
    refresh: bool,
    cache_available: bool,
) -> (LookupView, ActionView) {
    let state = LookupView {
        mode,
        word,
        refresh,
        cache_available,
        cache_hit: false,
        phase: Phase::AwaitCache,
        pending: Seq::empty(),
    };
    if cache_available {
        (state, ActionView::QueryCache { statement: lookup_text(mode), word })
    } else {
        fetch_step(state)
    }
}

/// What follows the cache's answer. A hit ends the lookup with the cached text,
/// unless a refresh was asked for: then the hit is recorded and the page is fetched
/// as on a miss.
pub open spec fn cache_step(state: LookupView, entry: Option<Seq<char>>) -> (LookupView, ActionView) {
    match entry {
        Some(text) => if state.refresh {
            fetch_step(LookupView { cache_hit: true, ..state })
        } else {
            (finished(state), ActionView::Emit { text })
        },
        None => fetch_step(state),
    }
}

/// What is found on a fetched page: it is sliced and parsed, and its entry sections
/// are selected and compiled. Where there is none, an etymology has nothing; for a
/// definition the suggestions of the page are compiled, if it holds any.
pub open spec fn surveyed(mode: Mode, body: Seq<char>) -> ObservationView {
    let document = parsed_fragment(sliced(body, mode));
    match sections_of(document, mode) {
        None => ObservationView::QueryRejected,
        Some(sections) => if sections.len() > 0 {
            match compiled_markup(mode, sections) {
                None => ObservationView::QueryRejected,
                Some(markup) => ObservationView::EntryFound { markup },
            }
        } else {
            match mode {
                Mode::Etymology => ObservationView::NothingFound,
                Mode::Definition => match found_in_document(document, suggestion_query_text()) {
                    None => ObservationView::QueryRejected,
                    Some(items) => if items.len() > 0 {
                        ObservationView::SuggestionsFound { markup: joined_markup(items) }
                    } else {
                        ObservationView::NothingFound
                    },
                },
            }
        },
    }
}

/// What a converter output amounts to once it was cleaned: the text is ready for
/// the next step of its stage, or the cleanup was rejected.
pub open spec fn cleaned_or_rejected(cleaned: Option<Seq<char>>, intermediate: bool) -> ObservationView {
    match cleaned {
        None => ObservationView::PatternRejected,
        Some(text) => if intermediate {
            ObservationView::IntermediateReady { text }
        } else {
            ObservationView::PlainReady { text }
        },
    }
}

/// What `event` amounts to for a lookup of `mode` that waits in `phase`: a fetched
/// page is read, a converter output is cleaned by the rules of its stage, and an
/// answer that the phase did not ask for is unexpected.
pub open spec fn observed(phase: Phase, mode: Mode, event: EventView) -> ObservationView {
    match (phase, event) {
        (Phase::AwaitCache, EventView::CacheAnswered { entry }) => ObservationView::CacheAnswered {
            entry,
        },
        (Phase::AwaitFetch, EventView::Fetched { body }) => surveyed(mode, body),
        (Phase::AwaitFetch, EventView::FetchFailed) => ObservationView::FetchFailed,
        (Phase::AwaitIntermediate, EventView::Converted { output }) => cleaned_or_rejected(
            intermediate_cleaned(mode, output),
            true,
        ),
        (Phase::AwaitPlain, EventView::Converted { output }) => cleaned_or_rejected(
            plain_cleaned(mode, output),
            false,
        ),
        (Phase::AwaitSuggestions, EventView::Converted { output }) => ObservationView::SuggestionsReady {
            text: output,
        },
        (Phase::AwaitIntermediate, EventView::ConversionFailed) => ObservationView::ConversionFailed,
        (Phase::AwaitPlain, EventView::ConversionFailed) => ObservationView::ConversionFailed,
        (Phase::AwaitSuggestions, EventView::ConversionFailed) => ObservationView::ConversionFailed,
        (Phase::AwaitCacheWrite, EventView::CacheWritten) => ObservationView::CacheWritten,
        _ => ObservationView::Unexpected,
    }
}

/// The request for a conversion of `input`, and the phase that waits for it.
pub open spec fn convert_step(
    state: LookupView,
    phase: Phase,
    conversion: Conversion,
    input: Seq<char>,
) -> (LookupView, ActionView) {
    (awaiting(state, phase), ActionView::Convert { conversion, input })
}

/// What follows the cleaned output of the second conversion: where there is a cache
/// the text is written to it first, as an update exactly where a refresh met a hit;
/// else the text is printed.
pub open spec fn plain_step(state: LookupView, text: Seq<char>) -> (LookupView, ActionView) {
    if state.cache_available {
        (
            LookupView { phase: Phase::AwaitCacheWrite, pending: text, ..state },
            ActionView::WriteCache {
                statement: write_text(state.mode, state.refresh && state.cache_hit),
                word: state.word,
                content: text,
            },
        )
    } else {
        (finished(state), ActionView::Emit { text })
    }
}

/// The next state and the action asked for, from a state and what the answer to its
/// last action amounts to. An observation that does not belong to the phase, or
/// suggestions for an etymology, end the lookup as unexpected.
pub open spec fn advanced(state: LookupView, observation: ObservationView) -> (LookupView, ActionView) {
    match (state.phase, observation) {
        (Phase::AwaitCache, ObservationView::CacheAnswered { entry }) => cache_step(state, entry),
        (Phase::AwaitFetch, ObservationView::FetchFailed) => fail_step(state, Failure::Transport),
        (Phase::AwaitFetch, ObservationView::EntryFound { markup }) => convert_step(
            state,
            Phase::AwaitIntermediate,
            Conversion::MarkupToIntermediate,
            markup,
        ),
        (Phase::AwaitFetch, ObservationView::SuggestionsFound { markup }) => match state.mode {
            Mode::Definition => convert_step(
                state,
                Phase::AwaitSuggestions,
                Conversion::MarkupToPlain,
                markup,
            ),
            Mode::Etymology => fail_step(state, Failure::UnexpectedEvent),
        },
        (Phase::AwaitFetch, ObservationView::NothingFound) => fail_step(state, Failure::NotFound),
        (Phase::AwaitFetch, ObservationView::QueryRejected) => fail_step(
            state,
            Failure::QueryRejected,
        ),
        (Phase::AwaitIntermediate, ObservationView::IntermediateReady { text }) => convert_step(
            state,
            Phase::AwaitPlain,
            Conversion::IntermediateToPlain,
            text,
        ),
        (Phase::AwaitIntermediate, ObservationView::PatternRejected) => fail_step(
            state,
            Failure::PatternRejected,
        ),
        (Phase::AwaitIntermediate, ObservationView::ConversionFailed) => fail_step(
            state,
            Failure::Conversion,
        ),
        (Phase::AwaitPlain, ObservationView::PlainReady { text }) => plain_step(state, text),
        (Phase::AwaitPlain, ObservationView::PatternRejected) => fail_step(
            state,
            Failure::PatternRejected,
        ),
        (Phase::AwaitPlain, ObservationView::ConversionFailed) => fail_step(
            state,
            Failure::Conversion,
        ),
        (Phase::AwaitSuggestions, ObservationView::SuggestionsReady { text }) => (
            finished(state),
            ActionView::Emit { text: suggestion_header() + text },
        ),
        (Phase::AwaitSuggestions, ObservationView::ConversionFailed) => fail_step(
            state,
            Failure::Conversion,
        ),
        (Phase::AwaitCacheWrite, ObservationView::CacheWritten) => (
            finished(state),
            ActionView::Emit { text: state.pending },
        ),
        _ => fail_step(state, Failure::UnexpectedEvent),
    }
}

/// The next state and the action asked for, from a state and the answer to its
/// last action.
pub open spec fn step_of(state: LookupView, event: EventView) -> (LookupView, ActionView) {
    advanced(state, observed(state.phase, state.mode, event))
}

/// The plain text that normalizing `markup` in `mode` gives with a converter that
/// answers each conversion of an input with one output: the first conversion, the
/// cleanup of the intermediate text, the second conversion, the cleanup of the plain
/// text. Nothing where the expression engine rejects a pattern of `mode`.
pub open spec fn normalized(
    mode: Mode,
    markup: Seq<char>,
    converter: spec_fn(Conversion, Seq<char>) -> Seq<char>,
) -> Option<Seq<char>> {
    match intermediate_cleaned(mode, converter(Conversion::MarkupToIntermediate, markup)) {
        None => None,
        Some(cleaned) => plain_cleaned(mode, converter(Conversion::IntermediateToPlain, cleaned)),
    }
}

/// The action that ends the normalization of `markup`, started in `state` once the
/// first conversion was asked for, when each conversion is answered by `converter`.
pub open spec fn normalization_run(
    state: LookupView,
    markup: Seq<char>,
    converter: spec_fn(Conversion, Seq<char>) -> Seq<char>,
) -> ActionView {
    let (middle, second) = step_of(
        awaiting(state, Phase::AwaitIntermediate),
        EventView::Converted { output: converter(Conversion::MarkupToIntermediate, markup) },
    );
    match second {
        ActionView::Convert { conversion, input } => step_of(
            middle,
            EventView::Converted { output: converter(conversion, input) },
        ).1,
        other => other,
    }
}

/// The text that an action carries to the cache or to the output, if it carries one.
pub open spec fn carried_text(action: ActionView) -> Option<Seq<char>> {
    match action {
        ActionView::WriteCache { content, .. } => Some(content),
        ActionView::Emit { text } => Some(text),
        _ => None,
    }
}

/// Normalizing the same markup again with the same converter gives the same text:
/// the text that a lookup writes or prints after its two conversions depends on the
/// mode, the markup and the converter alone, not on the word, the cache, the refresh
/// flag or an earlier run.
pub proof fn lemma_normalization_repeatable(
    first: LookupView,
    second: LookupView,
    markup: Seq<char>,
    converter: spec_fn(Conversion, Seq<char>) -> Seq<char>,
)
    requires
        first.mode == second.mode,
    ensures
        carried_text(normalization_run(first, markup, converter)) == normalized(
            first.mode,
            markup,
            converter,
        ),
        carried_text(normalization_run(first, markup, converter)) == carried_text(
            normalization_run(second, markup, converter),
        ),
{
}

/// A text is written to the cache only where there is a cache and the second
/// conversion of an entry has given it, and the write is an update exactly where a
/// refresh met a cache hit: suggestions and failures never reach the cache.
pub proof fn lemma_cache_write_only_after_plain(state: LookupView, observation: ObservationView)
    ensures
        match advanced(state, observation).1 {
            ActionView::WriteCache { statement, word, content } => {
                &&& state.phase == Phase::AwaitPlain
                &&& state.cache_available
                &&& observation == (ObservationView::PlainReady { text: content })
                &&& statement == write_text(state.mode, state.refresh && state.cache_hit)
                &&& word == state.word
            },
            _ => true,
        },
{
}

/// A cache hit under a refresh does not end the lookup: the page is fetched as on a
/// miss, and the hit is kept for the write.
pub proof fn lemma_refresh_fetches_on_hit(state: LookupView, entry: Seq<char>)
    requires
        state.phase == Phase::AwaitCache,
        state.refresh,
    ensures
        advanced(state, ObservationView::CacheAnswered { entry: Some(entry) }).1 == (
        ActionView::Fetch { url: address_text(state.mode, state.word) }),
        advanced(state, ObservationView::CacheAnswered { entry: Some(entry) }).0.cache_hit,
        advanced(state, ObservationView::CacheAnswered { entry: Some(entry) }).0.refresh,
{
}

/// The lookup hands texts to and from the cache as they are. The text that it has
/// written is the text that it then prints; the word that it writes under is the
/// word that a lookup started with the same word asks the cache for, in the table of
/// the same mode; and an entry that the cache answers with is printed unchanged,
/// unless a refresh was asked for.
pub proof fn lemma_cache_texts_pass_unchanged(state: LookupView, text: Seq<char>)
    ensures
        state.phase == Phase::AwaitPlain && state.cache_available ==> {
            let (waiting, write) = advanced(state, ObservationView::PlainReady { text });
            &&& write == (ActionView::WriteCache {
                statement: write_text(state.mode, state.refresh && state.cache_hit),
                word: state.word,
                content: text,
            })
            &&& advanced(waiting, ObservationView::CacheWritten).1 == (ActionView::Emit { text })
        },
        initial(state.mode, state.word, state.refresh, true).1 == (ActionView::QueryCache {
            statement: lookup_text(state.mode),
            word: state.word,
        }),
        state.phase == Phase::AwaitCache && !state.refresh ==> advanced(
            state,
            ObservationView::CacheAnswered { entry: Some(text) },
        ).1 == (ActionView::Emit { text }),
{
}

/// How many answers a lookup that waits in `phase` can still take before it is over.
pub open spec fn answers_left(phase: Phase) -> nat {
    match phase {
        Phase::AwaitCache => 5,
        Phase::AwaitFetch => 4,
        Phase::AwaitIntermediate => 3,
        Phase::AwaitPlain => 2,
        Phase::AwaitSuggestions => 1,
        Phase::AwaitCacheWrite => 1,
        Phase::Finished => 0,
    }
}

/// Whether `action` ends a lookup.
pub open spec fn is_final(action: ActionView) -> bool {
    action is Emit || action is Fail
}

/// Every answer brings a lookup nearer to its end, so that it is over after five
/// answers at most; it is over exactly when the action is to print or to report a
/// failure; and the mode, the word and the two flags it was started with never
/// change.
pub proof fn lemma_lookup_progresses(state: LookupView, observation: ObservationView)
    requires
        state.phase != Phase::Finished,
    ensures
        answers_left(advanced(state, observation).0.phase) < answers_left(state.phase),
        is_final(advanced(state, observation).1) <==> advanced(state, observation).0.phase
            == Phase::Finished,
        advanced(state, observation).0.mode == state.mode,
        advanced(state, observation).0.word == state.word,
        advanced(state, observation).0.refresh == state.refresh,
        advanced(state, observation).0.cache_available == state.cache_available,
{
}

/// A lookup that is over stays over: whatever arrives is reported as unexpected,
/// and nothing is printed, fetched, converted or written any more.
pub proof fn lemma_finished_is_final(state: LookupView, observation: ObservationView)
    requires
        state.phase == Phase::Finished,
    ensures
        advanced(state, observation) == (state, ActionView::Fail { failure: Failure::UnexpectedEvent }),
{
}

/// One lookup of one word.
#[derive(Debug)]
pub struct Lookup {
    mode: Mode,
    word: String,
    refresh: bool,
    cache_available: bool,
    cache_hit: bool,
    phase: Phase,
    pending: String,
}

impl View for Lookup {
    type V = LookupView;

    closed spec fn view(&self) -> LookupView {
        LookupView {
            mode: self.mode,
            word: self.word@,
            refresh: self.refresh,
            cache_available: self.cache_available,
            cache_hit: self.cache_hit,
            phase: self.phase,
            pending: self.pending@,
        }
    }
}

impl Lookup {
    /// Starts the lookup of `input` in `mode`: the word is the input in lower case.
    /// `refresh` asks for a fresh fetch even on a cache hit; `cache_available` says
    /// whether there is a cache to read and write. Returns the lookup and its first
    /// action.
    pub fn new(mode: Mode, input: &str, refresh: bool, cache_available: bool) -> (start: (Lookup, Action))
        ensures
            (start.0@, start.1@) == initial(mode, lowercased(input@), refresh, cache_available),
    {
        Lookup::with_word(mode, to_lowercase(input), refresh, cache_available)
    }

    /// Starts the lookup of `word`, taken as it is, in `mode`. Returns the lookup and
    /// its first action: the cache is asked where there is one, else the page is
    /// fetched.
    pub fn with_word(mode: Mode, word: String, refresh: bool, cache_available: bool) -> (start: (
        Lookup,
        Action,
    ))
        ensures
            (start.0@, start.1@) == initial(mode, word@, refresh, cache_available),
    {
        let mut lookup = Lookup {
            mode,
            word,
            refresh,
            cache_available,
            cache_hit: false,
            phase: Phase::AwaitCache,
            pending: String::new(),
        };
        if cache_available {
            let action = Action::QueryCache {
                statement: lookup_statement(mode),
                word: lookup.word.clone(),
            };
            (lookup, action)
        } else {
            let action = lookup.fetch();
            (lookup, action)
        }
    }

    /// The mode of the lookup.
    pub fn mode(&self) -> (mode: Mode)
        ensures
            mode == self@.mode,
    {
        self.mode
    }

    /// The word that is looked up.
    pub fn word(&self) -> (word: &str)
        ensures
            word@ == self@.word,
    {
        self.word.as_str()
    }

    /// What the lookup waits for.
    pub fn phase(&self) -> (phase: Phase)
        ensures
            phase == self@.phase,
    {
        self.phase
    }

    /// Whether a refresh met a cache hit, so that the cache write will be an update.
    pub fn cache_hit(&self) -> (hit: bool)
        ensures
            hit == self@.cache_hit,
    {
        self.cache_hit
    }

    /// Whether the lookup is over.
    pub fn is_finished(&self) -> (over: bool)
        ensures
            over == (self@.phase == Phase::Finished),
    {
        self.phase == Phase::Finished
    }

    fn fetch(&mut self) -> (action: Action)
        ensures
            (final(self)@, action@) == fetch_step(old(self)@),
    {
        self.phase = Phase::AwaitFetch;
        Action::Fetch { url: lookup_url(self.mode, self.word.as_str()) }
    }

    fn fail(&mut self, failure: Failure) -> (action: Action)
        ensures
            (final(self)@, action@) == fail_step(old(self)@, failure),
    {
        self.phase = Phase::Finished;
        Action::Fail { failure }
    }

    fn emit(&mut self, text: String) -> (action: Action)
        ensures
            final(self)@ == finished(old(self)@),
            action@ == (ActionView::Emit { text: text@ }),
    {
        self.phase = Phase::Finished;
        Action::Emit { text }
    }

    fn convert(&mut self, phase: Phase, conversion: Conversion, input: String) -> (action: Action)
        ensures
            final(self)@ == awaiting(old(self)@, phase),
            action@ == (ActionView::Convert { conversion, input: input@ }),
    {
        self.phase = phase;
        Action::Convert { conversion, input }
    }

    fn on_cache(&mut self, entry: Option<String>) -> (action: Action)
        ensures
            (final(self)@, action@) == cache_step(
                old(self)@,
                match entry {
                    Some(text) => Some(text@),
                    None => None,
                },
            ),
    {
        match entry {
            Some(text) => {
                if self.refresh {
                    self.cache_hit = true;
                    self.fetch()
                } else {
                    self.emit(text)
                }
            },
            None => self.fetch(),
        }
    }

    fn on_plain(&mut self, text: String) -> (action: Action)
        ensures
            (final(self)@, action@) == plain_step(old(self)@, text@),
    {
        if self.cache_available {
            let statement = write_statement(self.mode, self.refresh && self.cache_hit);
            let content = text.clone();
            self.pending = text;
            self.phase = Phase::AwaitCacheWrite;
            Action::WriteCache { statement, word: self.word.clone(), content }
        } else {
            self.emit(text)
        }
    }

    /// Reads `event` for the phase the lookup waits in: a fetched page is surveyed,
    /// a converter output is cleaned by the rules of its stage. The lookup itself is
    /// not changed.
    pub fn observe(&self, event: Event) -> (observation: Observation)
        ensures
            observation@ == observed(self@.phase, self@.mode, event@),
    {
        match self.phase {
            Phase::AwaitCache => match event {
                Event::CacheAnswered { entry } => Observation::CacheAnswered { entry },
                _ => Observation::Unexpected,
            },
            Phase::AwaitFetch => match event {
                Event::Fetched { body } => survey_page(self.mode, body.as_str()),
                Event::FetchFailed => Observation::FetchFailed,
                _ => Observation::Unexpected,
            },
            Phase::AwaitIntermediate => match event {
                Event::Converted { output } => ready_or_rejected(
                    clean_intermediate(self.mode, output.as_str()),
                    true,
                ),
                Event::ConversionFailed => Observation::ConversionFailed,
                _ => Observation::Unexpected,
            },
            Phase::AwaitPlain => match event {
                Event::Converted { output } => ready_or_rejected(
                    clean_plain(self.mode, output.as_str()),
                    false,
                ),
                Event::ConversionFailed => Observation::ConversionFailed,
                _ => Observation::Unexpected,
            },
            Phase::AwaitSuggestions => match event {
                Event::Converted { output } => Observation::SuggestionsReady { text: output },
                Event::ConversionFailed => Observation::ConversionFailed,
                _ => Observation::Unexpected,
            },
            Phase::AwaitCacheWrite => match event {
                Event::CacheWritten => Observation::CacheWritten,
                _ => Observation::Unexpected,
            },
            Phase::Finished => Observation::Unexpected,
        }
    }

    /// Decides from `observation` what is asked for next, and moves the lookup on.
    /// After `Emit` or `Fail` the lookup is over, and every further observation is
    /// unexpected.
    pub fn advance(&mut self, observation: Observation) -> (action: Action)
        ensures
            (final(self)@, action@) == advanced(old(self)@, observation@),
    {
        match self.phase {
            Phase::AwaitCache => match observation {
                Observation::CacheAnswered { entry } => self.on_cache(entry),
                _ => self.fail(Failure::UnexpectedEvent),
            },
            Phase::AwaitFetch => match observation {
                Observation::FetchFailed => self.fail(Failure::Transport),
                Observation::EntryFound { markup } => self.convert(
                    Phase::AwaitIntermediate,
                    Conversion::MarkupToIntermediate,
                    markup,
                ),
                Observation::SuggestionsFound { markup } => match self.mode {
                    Mode::Definition => self.convert(
                        Phase::AwaitSuggestions,
                        Conversion::MarkupToPlain,
                        markup,
                    ),
                    Mode::Etymology => self.fail(Failure::UnexpectedEvent),
                },
                Observation::NothingFound => self.fail(Failure::NotFound),
                Observation::QueryRejected => self.fail(Failure::QueryRejected),
                _ => self.fail(Failure::UnexpectedEvent),
            },
            Phase::AwaitIntermediate => match observation {
                Observation::IntermediateReady { text } => self.convert(
                    Phase::AwaitPlain,
                    Conversion::IntermediateToPlain,
                    text,
                ),
                Observation::PatternRejected => self.fail(Failure::PatternRejected),
                Observation::ConversionFailed => self.fail(Failure::Conversion),
                _ => self.fail(Failure::UnexpectedEvent),
            },
            Phase::AwaitPlain => match observation {
                Observation::PlainReady { text } => self.on_plain(text),
                Observation::PatternRejected => self.fail(Failure::PatternRejected),
                Observation::ConversionFailed => self.fail(Failure::Conversion),
                _ => self.fail(Failure::UnexpectedEvent),
            },
            Phase::AwaitSuggestions => match observation {
                Observation::SuggestionsReady { text } => {
                    let mut message = String::from_str("Did you mean:\n\n");
                    message.append(text.as_str());
                    self.emit(message)
                },
                Observation::ConversionFailed => self.fail(Failure::Conversion),
                _ => self.fail(Failure::UnexpectedEvent),
            },
            Phase::AwaitCacheWrite => match observation {
                Observation::CacheWritten => {
                    let text = self.pending.clone();
                    self.emit(text)
                },
                _ => self.fail(Failure::UnexpectedEvent),
            },
            Phase::Finished => self.fail(Failure::UnexpectedEvent),
        }
    }

    /// Takes the answer to the last action and returns the next one: the answer is
    /// read as by `observe`, and the lookup moves on as by `advance`.
    pub fn step(&mut self, event: Event) -> (action: Action)
        ensures
            (final(self)@, action@) == step_of(old(self)@, event@),
    {
        let observation = self.observe(event);
        self.advance(observation)
    }
}

/// Surveys a fetched page for `mode`: slices and parses it, selects its entry
/// sections and compiles them; where a definition page has none, compiles its
/// suggestions instead.
pub fn survey_page(mode: Mode, body: &str) -> (observation: Observation)
    ensures
        observation@ == surveyed(mode, body@),
{
    let document = take_chunk(body, mode);
    match get_section_vec(mode, &document) {
        None => Observation::QueryRejected,
        Some(sections) => {
            if sections.len() > 0 {
                match compile_results(mode, sections) {
                    None => Observation::QueryRejected,
                    Some(markup) => Observation::EntryFound { markup },
                }
            } else {
                match mode {
                    Mode::Etymology => Observation::NothingFound,
                    Mode::Definition => match get_suggestion_vec(&document) {
                        None => Observation::QueryRejected,
                        Some(items) => {
                            if items.len() > 0 {
                                Observation::SuggestionsFound { markup: join_markup(&items) }
                            } else {
                                Observation::NothingFound
                            }
                        },
                    },
                }
            }
        },
    }
}

/// What a cleaned converter output amounts to: the text is ready for the next step,
/// or the cleanup was rejected.
pub fn ready_or_rejected(cleaned: Option<String>, intermediate: bool) -> (observation: Observation)
    ensures
        observation@ == cleaned_or_rejected(
            match cleaned {
                Some(text) => Some(text@),
                None => None,
            },
            intermediate,
        ),
{
    match cleaned {
        None => Observation::PatternRejected,
        Some(text) => {
            if intermediate {
                Observation::IntermediateReady { text }
            } else {
                Observation::PlainReady { text }
            }
        },
    }
}

} // verus!
