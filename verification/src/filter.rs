//! Eligibility of a candidate text for translation, and the cheaper
//! keyword pre-filter.
//!
//! Two policies coexist: the exact-match policy (the eligibility test
//! here, followed by the table lookup) and a substring/keyword policy
//! that only classifies a text coarsely as error-like or warning-like.

use vstd::prelude::*;
use vstd::string::StringSliceAdditionalSpecFns;
use crate::text::contains_seq;
use crate::text::contains_sub;
use crate::text::is_ascii_upper;
use crate::text::starts_with;
use crate::text::starts_with_bytes;

verus! {

/// The bytes of the envelope's own signature prefix, `{"r":`.
pub open spec fn envelope_signature() -> Seq<u8> {
    seq![0x7bu8, 0x22u8, 0x72u8, 0x22u8, 0x3au8]
}

/// Eligibility of a candidate text (given in its trimmed form):
/// it must be at least two bytes long, must not begin with the envelope's
/// own signature (the anti-loop guarantee that keeps already-translated
/// output from being processed again), and must start with an ASCII
/// uppercase letter.
pub open spec fn eligible_spec(s: Seq<u8>) -> bool {
    s.len() >= 2 && !starts_with(s, envelope_signature()) && is_ascii_upper(s[0])
}

/// Decides eligibility of a candidate given as raw bytes.
///
/// Texts shorter than two bytes are never eligible; texts beginning with
/// the envelope signature `{"r":` are never eligible; texts whose first
/// byte is not an ASCII uppercase letter are never eligible.
pub fn eligible_bytes(bytes: &[u8]) -> (r: bool)
    ensures
        r == eligible_spec(bytes@),
{
    if bytes.len() < 2 {
        return false;
    }
    let sig: Vec<u8> = vec![0x7b, 0x22, 0x72, 0x22, 0x3a];
    proof {
        assert(sig@ =~= envelope_signature());
    }
    if starts_with_bytes(bytes, sig.as_slice()) {
        return false;
    }
    let first = bytes[0];
    0x41 <= first && first <= 0x5a
}

/// Decides whether a candidate text is eligible for translation; see
/// [`eligible_bytes`].
pub fn should_translate_text(text: &str) -> (r: bool)
    ensures
        r == eligible_spec(text.spec_bytes()),
{
    eligible_bytes(text.as_bytes())
}

/// Law: a candidate whose trimmed form is shorter than two bytes is
/// never eligible.
pub proof fn lemma_short_never_eligible(t: Seq<u8>)
    requires
        t.len() < 2,
    ensures
        !eligible_spec(t),
{
}

/// Law: a candidate whose first byte is not an ASCII uppercase letter is
/// never eligible.
pub proof fn lemma_lowercase_never_eligible(t: Seq<u8>)
    requires
        t.len() == 0 || !is_ascii_upper(t[0]),
    ensures
        !eligible_spec(t),
{
}

/// Law: a candidate that begins with the envelope's own signature is
/// never eligible, whatever else it holds.
pub proof fn lemma_translated_never_eligible(t: Seq<u8>)
    requires
        starts_with(t, envelope_signature()),
    ensures
        !eligible_spec(t),
{
}

/// The three spellings of the error marker that the keyword policy scans
/// for.
pub open spec fn error_markers() -> Seq<Seq<u8>> {
    seq![
        seq![0x72u8, 0x72u8, 0x6fu8, 0x72u8],  // rror
        seq![0x52u8, 0x52u8, 0x4fu8, 0x52u8],  // RROR
        seq![0x52u8, 0x72u8, 0x6fu8, 0x72u8],  // Rror
    ]
}

/// The three spellings of the warning marker that the keyword policy
/// scans for.
pub open spec fn warning_markers() -> Seq<Seq<u8>> {
    seq![
        seq![0x61u8, 0x72u8, 0x6eu8, 0x69u8],  // arni
        seq![0x41u8, 0x52u8, 0x4eu8, 0x49u8],  // ARNI
        seq![0x41u8, 0x72u8, 0x6eu8, 0x69u8],  // Arni
    ]
}

/// The text carries one of the error markers.
pub open spec fn has_error_marker(s: Seq<u8>) -> bool {
    exists|i: int| 0 <= i < error_markers().len() && contains_seq(s, #[trigger] error_markers()[i])
}

/// The text carries one of the warning markers.
pub open spec fn has_warning_marker(s: Seq<u8>) -> bool {
    exists|i: int|
        0 <= i < warning_markers().len() && contains_seq(s, #[trigger] warning_markers()[i])
}

/// Keyword policy, error side: a fixed-width window scan for the marker
/// substrings `rror`, `RROR` and `Rror`.
pub fn scan_error_keyword(data: &[u8]) -> (r: bool)
    ensures
        r == has_error_marker(data@),
{
    let m0: Vec<u8> = vec![0x72, 0x72, 0x6f, 0x72];
    let m1: Vec<u8> = vec![0x52, 0x52, 0x4f, 0x52];
    let m2: Vec<u8> = vec![0x52, 0x72, 0x6f, 0x72];
    proof {
        assert(m0@ =~= error_markers()[0]);
        assert(m1@ =~= error_markers()[1]);
        assert(m2@ =~= error_markers()[2]);
    }
    let r = contains_sub(data, m0.as_slice()) || contains_sub(data, m1.as_slice())
        || contains_sub(data, m2.as_slice());
    proof {
        if !r {
            assert forall|i: int| 0 <= i < error_markers().len() implies !contains_seq(
                data@,
                #[trigger] error_markers()[i],
            ) by {
                if i == 0 {
                } else if i == 1 {
                } else {
                    assert(i == 2);
                }
            }
        }
    }
    r
}

/// Keyword policy, warning side: a fixed-width window scan for the marker
/// substrings `arni`, `ARNI` and `Arni`.
pub fn scan_warning_keyword(data: &[u8]) -> (r: bool)
    ensures
        r == has_warning_marker(data@),
{
    let m0: Vec<u8> = vec![0x61, 0x72, 0x6e, 0x69];
    let m1: Vec<u8> = vec![0x41, 0x52, 0x4e, 0x49];
    let m2: Vec<u8> = vec![0x41, 0x72, 0x6e, 0x69];
    proof {
        assert(m0@ =~= warning_markers()[0]);
        assert(m1@ =~= warning_markers()[1]);
        assert(m2@ =~= warning_markers()[2]);
    }
    let r = contains_sub(data, m0.as_slice()) || contains_sub(data, m1.as_slice())
        || contains_sub(data, m2.as_slice());
    proof {
        if !r {
            assert forall|i: int| 0 <= i < warning_markers().len() implies !contains_seq(
                data@,
                #[trigger] warning_markers()[i],
            ) by {
                if i == 0 {
                } else if i == 1 {
                } else {
                    assert(i == 2);
                }
            }
        }
    }
    r
}

} // verus!
