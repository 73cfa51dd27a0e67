//! The lookup table type that owns a vocabulary.

use vstd::prelude::*;
use vstd::string::StringSliceAdditionalSpecFns;
use crate::i18n::lookup_spec;
use crate::i18n::translate;
use crate::i18n::TranslationEntry;

verus! {

/// An immutable ordered collection of translation entries, queried by
/// exact case-insensitive match of the trimmed candidate; insertion order
/// is the match-priority order.
pub struct TranslationTable {
    pub entries: Vec<TranslationEntry>,
}

impl TranslationTable {
    /// Wraps a vocabulary in a table.
    pub fn new(entries: Vec<TranslationEntry>) -> (r: TranslationTable)
        ensures
            r.entries == entries,
    {
        TranslationTable { entries }
    }

    /// Resolves `input` to the translation of the first entry whose
    /// original text equals the trimmed candidate case-insensitively;
    /// no-match otherwise. No partial or prefix matching.
    pub fn lookup(&self, input: &str) -> (r: Option<&'static str>)
        ensures
            r is Some <==> lookup_spec(self.entries@, input.spec_bytes()) is Some,
            r is Some ==> r->0 == lookup_spec(self.entries@, input.spec_bytes())->0.translated,
    {
        translate(&self.entries, input)
    }
}

} // verus!
