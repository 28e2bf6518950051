//! Lookup and normalization pipeline for dictionary and etymology entries.
//!
//! A lookup fetches a page, cuts it down to the part worth parsing, selects the
//! sections that hold the entry, compiles them into one string of markup, and has
//! that converted to plain text in two stages with cleanup rules around them. The
//! result is kept in a cache keyed by mode and word. The library decides every step
//! of this; fetching, running the converter and the cache itself are left to the
//! caller, who is told what to do by a `Lookup`.

pub mod cache;
pub mod fetch;
pub mod markup;
pub mod mode;
pub mod normalize;
pub mod orchestrator;
pub mod slicer;
pub mod text;

pub use crate::markup::{compile_results, get_section_vec, take_chunk};
pub use crate::mode::Mode;
pub use crate::orchestrator::{Action, Event, Failure, Lookup, Observation, Phase};
