//! Verified core of a write-interception and translation pipeline.
//!
//! The library models a hook that inspects the byte payload of an
//! intercepted write call and, when the text is eligible, rewrites it:
//! recognized phrases are translated through a fixed lookup table and the
//! (original, translated) pair is wrapped in a compact envelope that is
//! staged back out to the caller.
//!
//! The pieces are:
//! - [`text`]: byte-level trimming, ASCII case folding and substring search;
//! - [`filter`]: the eligibility test for candidate texts;
//! - [`i18n`]: translation entries, the built-in vocabulary and the
//!   case-insensitive lookup;
//! - [`translation`]: the table type that owns the vocabulary;
//! - [`envelope`]: the fixed-grammar encoder and its decoder;
//! - [`arbiter`]: the single-owner try-acquire lock over the scratch buffer;
//! - [`buffer`]: the fixed-size scratch buffer split into input and output
//!   halves;
//! - [`monitor`]: address-range rejection and monotonic telemetry counters;
//! - [`hook`]: the per-invocation state machine that composes the stages;
//! - [`loader`]: the vocabulary-document model and the table builder.
//!
//! Crossings of the privilege boundary (the copy-in of the intercepted
//! bytes and the copy-out of the rewritten ones) are injected as arguments:
//! the pipeline is verified for every possible outcome of those copies.

pub mod arbiter;
pub mod buffer;
pub mod envelope;
pub mod filter;
pub mod hook;
pub mod i18n;
pub mod loader;
pub mod monitor;
pub mod text;
pub mod translation;
