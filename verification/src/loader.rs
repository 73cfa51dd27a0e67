//! The vocabulary-document model and the table builder.
//!
//! A vocabulary document carries a language's (en, translated) mappings;
//! the builder collects those pairs and turns them into artifacts: the
//! source text of a static table, or a hash map for host-side tools.
//! Reading and parsing the documents themselves is host-side work and
//! happens outside this library; the builder receives plain values.

use std::collections::HashMap;
use vstd::prelude::*;
use vstd::string::StringExecFns;
use vstd::string::StrSliceExecFns;

verus! {

/// One mapping of a vocabulary document.
#[derive(Debug, Clone)]
pub struct MappingEntry {
    pub en: String,
    pub translated: String,
    pub context: Option<String>,
    pub category: Option<String>,
}

/// A whole vocabulary document for one target language.
#[derive(Debug)]
pub struct TranslationMap {
    pub language: String,
    pub language_code: String,
    pub version: String,
    pub author: Option<String>,
    pub description: Option<String>,
    pub mappings: Vec<MappingEntry>,
}

/// Collects (original, translated) pairs in priority order.
pub struct TranslationTableBuilder {
    pub entries: Vec<(String, String)>,
}

/// The pairs of a document's mappings, in document order.
pub open spec fn pairs_of(mappings: Seq<MappingEntry>) -> Seq<(String, String)> {
    mappings.map_values(|m: MappingEntry| (m.en, m.translated))
}

/// How one character is written inside a double-quoted source literal.
pub open spec fn escape_char(c: char) -> Seq<char> {
    if c == '\\' {
        "\\\\"@
    } else if c == '"' {
        "\\\""@
    } else if c == '\n' {
        "\\n"@
    } else if c == '\r' {
        "\\r"@
    } else if c == '\t' {
        "\\t"@
    } else {
        seq![c]
    }
}

/// How a whole text is written inside a double-quoted source literal.
pub open spec fn escape_chars(s: Seq<char>) -> Seq<char>
    decreases s.len(),
{
    if s.len() == 0 {
        Seq::empty()
    } else {
        escape_chars(s.drop_last()) + escape_char(s.last())
    }
}

/// Escapes a text for inclusion in a double-quoted source literal:
/// backslash, double quote, newline, carriage return and tab get their
/// two-character forms, every other character stands as itself.
pub fn escape_rust_string(s: &str) -> (r: String)
    ensures
        r@ == escape_chars(s@),
{
    let mut out = String::new();
    let n: usize = s.unicode_len();
    let mut i: usize = 0;
    while i < n
        invariant
            n == s@.len(),
            i <= n,
            out@ == escape_chars(s@.take(i as int)),
        decreases n - i,
    {
        let c = s.get_char(i);
        if c == '\\' {
            out.append("\\\\");
        } else if c == '"' {
            out.append("\\\"");
        } else if c == '\n' {
            out.append("\\n");
        } else if c == '\r' {
            out.append("\\r");
        } else if c == '\t' {
            out.append("\\t");
        } else {
            let piece = s.substring_char(i, i + 1);
            proof {
                assert(piece@ =~= seq![s@[i as int]]);
            }
            out.append(piece);
        }
        proof {
            assert(s@.take(i + 1).drop_last() =~= s@.take(i as int));
            assert(s@.take(i + 1).last() == s@[i as int]);
            assert(out@ =~= escape_chars(s@.take(i as int)) + escape_char(s@[i as int]));
        }
        i = i + 1;
    }
    proof {
        assert(s@.take(n as int) =~= s@);
    }
    out
}

/// The fixed lines above the generated table.
pub open spec fn gen_header() -> Seq<char> {
    "// Auto-generated translation table\n"@ + "// DO NOT EDIT MANUALLY\n\n"@
        + "use crate::i18n::TranslationEntry;\n\n"@
        + "pub const I18N_TABLE_KO: &[TranslationEntry] = &[\n"@
}

/// The generated line of one pair.
pub open spec fn gen_entry_line(o: Seq<char>, t: Seq<char>) -> Seq<char> {
    "    TranslationEntry::new(\""@ + escape_chars(o) + "\", \""@ + escape_chars(t) + "\"),\n"@
}

/// The generated lines of all pairs, in order.
pub open spec fn gen_lines(entries: Seq<(String, String)>) -> Seq<char>
    decreases entries.len(),
{
    if entries.len() == 0 {
        Seq::empty()
    } else {
        gen_lines(entries.drop_last()) + gen_entry_line(entries.last().0@, entries.last().1@)
    }
}

/// The whole generated source text for a set of pairs.
pub open spec fn generated_code(entries: Seq<(String, String)>) -> Seq<char> {
    gen_header() + gen_lines(entries) + "];\n"@
}

impl TranslationTableBuilder {
    /// A fresh builder with no pairs.
    pub fn new() -> (r: TranslationTableBuilder)
        ensures
            r.entries@.len() == 0,
    {
        TranslationTableBuilder { entries: Vec::new() }
    }

    /// Appends one pair; later pairs have lower match priority.
    pub fn push_entry(&mut self, en: String, translated: String)
        ensures
            final(self).entries@ == old(self).entries@.push((en, translated)),
    {
        self.entries.push((en, translated));
    }

    /// Takes every mapping of a vocabulary document into the builder, in
    /// document order.
    pub fn load_map(&mut self, map: TranslationMap)
        ensures
            final(self).entries@ == old(self).entries@ + pairs_of(map.mappings@),
    {
        let mut i: usize = 0;
        let mappings = map.mappings;
        let n: usize = mappings.len();
        while i < n
            invariant
                n == mappings@.len(),
                i <= n,
                self.entries@ == old(self).entries@ + pairs_of(mappings@.take(i as int)),
            decreases n - i,
        {
            let m = &mappings[i];
            let en = m.en.clone();
            let translated = m.translated.clone();
            proof {
                assert(en@ == mappings@[i as int].en@);
            }
            self.entries.push((en, translated));
            proof {
                assert(pairs_of(mappings@.take(i + 1)) =~= pairs_of(
                    mappings@.take(i as int),
                ).push((mappings@[i as int].en, mappings@[i as int].translated)));
                assert(self.entries@ =~= old(self).entries@ + pairs_of(mappings@.take(i + 1)));
            }
            i = i + 1;
        }
        proof {
            assert(mappings@.take(n as int) =~= mappings@);
        }
    }

    /// Writes the source text of a static table holding the collected
    /// pairs: a fixed header, one line per pair with both texts escaped,
    /// and the closing bracket.
    pub fn generate_rust_code(&self) -> (r: String)
        ensures
            r@ == generated_code(self.entries@),
    {
        let mut code = String::new();
        code.append("// Auto-generated translation table\n");
        code.append("// DO NOT EDIT MANUALLY\n\n");
        code.append("use crate::i18n::TranslationEntry;\n\n");
        code.append("pub const I18N_TABLE_KO: &[TranslationEntry] = &[\n");
        let n: usize = self.entries.len();
        let mut i: usize = 0;
        while i < n
            invariant
                n == self.entries@.len(),
                i <= n,
                code@ == gen_header() + gen_lines(self.entries@.take(i as int)),
            decreases n - i,
        {
            let eo = escape_rust_string(self.entries[i].0.as_str());
            let et = escape_rust_string(self.entries[i].1.as_str());
            code.append("    TranslationEntry::new(\"");
            code.append(eo.as_str());
            code.append("\", \"");
            code.append(et.as_str());
            code.append("\"),\n");
            proof {
                assert(self.entries@.take(i + 1).drop_last() =~= self.entries@.take(i as int));
                assert(self.entries@.take(i + 1).last() == self.entries@[i as int]);
                assert(code@ =~= gen_header() + gen_lines(self.entries@.take(i + 1)));
            }
            i = i + 1;
        }
        proof {
            assert(self.entries@.take(n as int) =~= self.entries@);
        }
        code.append("];\n");
        proof {
            assert(code@ =~= generated_code(self.entries@));
        }
        code
    }

    /// Collects the pairs into a hash map for host-side tools. Nothing is
    /// stated of the result: over text keys the map's behavior has no
    /// model here; the tests exercise it.
    pub fn build_hashmap(&self) -> HashMap<String, String> {
        let mut m: HashMap<String, String> = HashMap::new();
        let n: usize = self.entries.len();
        let mut i: usize = 0;
        while i < n
            invariant
                n == self.entries@.len(),
                i <= n,
            decreases n - i,
        {
            let k = self.entries[i].0.clone();
            let v = self.entries[i].1.clone();
            m.insert(k, v);
            i = i + 1;
        }
        m
    }
}

} // verus!
