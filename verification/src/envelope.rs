//! The envelope encoder and its decoder.
//!
//! Grammar, exactly: `{"r":"` + original bytes + `","t":"` + translated
//! bytes + `"}`. Embedded quote characters are not escaped (a documented
//! limitation). Encoding is all-or-nothing: when the envelope does not
//! fit the output region, nothing is written.

use vstd::prelude::*;
use vstd::slice::slice_to_vec;
use vstd::string::StringSliceAdditionalSpecFns;
use crate::buffer::write_at;
use crate::text::eq_bytes;
use crate::text::find_first;
use crate::text::find_first_spec;
use crate::text::lemma_find_first_exact;
use crate::text::starts_with;
use crate::text::starts_with_bytes;

verus! {

/// The bytes of the literal `{"r":"`.
pub open spec fn env_prefix() -> Seq<u8> {
    seq![0x7bu8, 0x22u8, 0x72u8, 0x22u8, 0x3au8, 0x22u8]
}

/// The bytes of the literal `","t":"`.
pub open spec fn env_middle() -> Seq<u8> {
    seq![0x22u8, 0x2cu8, 0x22u8, 0x74u8, 0x22u8, 0x3au8, 0x22u8]
}

/// The bytes of the literal `"}`.
pub open spec fn env_suffix() -> Seq<u8> {
    seq![0x22u8, 0x7du8]
}

/// The exact envelope of a pair.
pub open spec fn envelope_spec(o: Seq<u8>, t: Seq<u8>) -> Seq<u8> {
    env_prefix() + o + env_middle() + t + env_suffix()
}

/// The envelope carries the pair's bytes plus 15 bytes of grammar.
pub open spec fn envelope_len(o: Seq<u8>, t: Seq<u8>) -> nat {
    o.len() + t.len() + 15
}

fn env_prefix_exec() -> (r: Vec<u8>)
    ensures
        r@ == env_prefix(),
{
    let r: Vec<u8> = vec![0x7b, 0x22, 0x72, 0x22, 0x3a, 0x22];
    proof {
        assert(r@ =~= env_prefix());
    }
    r
}

fn env_middle_exec() -> (r: Vec<u8>)
    ensures
        r@ == env_middle(),
{
    let r: Vec<u8> = vec![0x22, 0x2c, 0x22, 0x74, 0x22, 0x3a, 0x22];
    proof {
        assert(r@ =~= env_middle());
    }
    r
}

fn env_suffix_exec() -> (r: Vec<u8>)
    ensures
        r@ == env_suffix(),
{
    let r: Vec<u8> = vec![0x22, 0x7d];
    proof {
        assert(r@ =~= env_suffix());
    }
    r
}

/// Builds the envelope of the pair in a fresh vector.
fn build_envelope(o: &[u8], t: &[u8]) -> (r: Vec<u8>)
    requires
        o@.len() + t@.len() + 15 <= usize::MAX,
    ensures
        r@ == envelope_spec(o@, t@),
{
    let prefix = env_prefix_exec();
    let middle = env_middle_exec();
    let suffix = env_suffix_exec();
    let mut env: Vec<u8> = Vec::new();
    env.extend_from_slice(prefix.as_slice());
    env.extend_from_slice(o);
    env.extend_from_slice(middle.as_slice());
    env.extend_from_slice(t);
    env.extend_from_slice(suffix.as_slice());
    proof {
        assert(env@ =~= envelope_spec(o@, t@));
    }
    env
}

/// Encodes the pair, given as raw bytes, into the output region,
/// all-or-nothing.
///
/// Succeeds and returns the encoded length exactly when the envelope
/// fits the region; the envelope then occupies the region's first bytes
/// and the rest of the region is unchanged. When the envelope does not
/// fit, the region is left entirely unchanged. The region's length never
/// changes.
pub fn encode_envelope(ob: &[u8], tb: &[u8], output: &mut Vec<u8>) -> (r: Result<usize, ()>)
    ensures
        final(output)@.len() == old(output)@.len(),
        envelope_len(ob@, tb@) <= old(output)@.len() ==> {
            &&& r is Ok
            &&& r->Ok_0 == envelope_len(ob@, tb@)
            &&& final(output)@ == envelope_spec(ob@, tb@) + old(output)@.skip(
                envelope_len(ob@, tb@) as int,
            )
        },
        envelope_len(ob@, tb@) > old(output)@.len() ==> {
            &&& r is Err
            &&& final(output)@ == old(output)@
        },
{
    let cap: usize = output.len();
    if cap < 15 {
        return Err(());
    }
    if ob.len() > cap - 15 {
        return Err(());
    }
    if tb.len() > cap - 15 - ob.len() {
        return Err(());
    }
    let env = build_envelope(ob, tb);
    let n = env.len();
    write_at(output, 0, env.as_slice());
    proof {
        assert(old(output)@.take(0) =~= Seq::<u8>::empty());
        assert(Seq::<u8>::empty() + env@ + old(output)@.skip(n as int) =~= env@ + old(
            output,
        )@.skip(n as int));
    }
    Ok(n)
}

/// Encodes the pair, given as texts, into the output region; see
/// [`encode_envelope`].
pub fn wrap_json(original: &str, translated: &str, output: &mut Vec<u8>) -> (r: Result<usize, ()>)
    ensures
        final(output)@.len() == old(output)@.len(),
        envelope_len(original.spec_bytes(), translated.spec_bytes()) <= old(output)@.len() ==> {
            &&& r is Ok
            &&& r->Ok_0 == envelope_len(original.spec_bytes(), translated.spec_bytes())
            &&& final(output)@ == envelope_spec(original.spec_bytes(), translated.spec_bytes())
                + old(output)@.skip(
                envelope_len(original.spec_bytes(), translated.spec_bytes()) as int,
            )
        },
        envelope_len(original.spec_bytes(), translated.spec_bytes()) > old(output)@.len() ==> {
            &&& r is Err
            &&& final(output)@ == old(output)@
        },
{
    encode_envelope(original.as_bytes(), translated.as_bytes(), output)
}

/// The envelope variant used by the keyword policy: the translated bytes
/// arrive NUL-terminated (the NUL is dropped) and the envelope ends with
/// `"}` and a newline.
pub open spec fn keyword_envelope_spec(o: Seq<u8>, t: Seq<u8>) -> Seq<u8> {
    env_prefix() + o + env_middle() + t.drop_last() + seq![0x22u8, 0x7du8, 0x0au8]
}

/// That envelope's length: both texts, minus the dropped NUL, plus 16
/// bytes of grammar.
pub open spec fn keyword_envelope_len(o: Seq<u8>, t: Seq<u8>) -> nat {
    o.len() + t.len() + 15
}

/// Encodes the pair in the keyword policy's envelope form, all-or-nothing
/// like [`wrap_json`]: the translated bytes must carry their trailing
/// NUL, which is not emitted.
pub fn simple_replace_json_bytes(original: &[u8], translated: &[u8], output: &mut Vec<u8>) -> (r:
    Option<usize>)
    requires
        translated@.len() >= 1,
    ensures
        final(output)@.len() == old(output)@.len(),
        keyword_envelope_len(original@, translated@) <= old(output)@.len() ==> {
            &&& r is Some
            &&& r->0 == keyword_envelope_len(original@, translated@)
            &&& final(output)@ == keyword_envelope_spec(original@, translated@) + old(
                output,
            )@.skip(keyword_envelope_len(original@, translated@) as int)
        },
        keyword_envelope_len(original@, translated@) > old(output)@.len() ==> {
            &&& r is None
            &&& final(output)@ == old(output)@
        },
{
    let cap: usize = output.len();
    if cap < 16 {
        return None;
    }
    if original.len() > cap - 16 {
        return None;
    }
    let tlen: usize = translated.len() - 1;
    if tlen > cap - 16 - original.len() {
        return None;
    }
    let prefix = env_prefix_exec();
    let middle = env_middle_exec();
    let tail: Vec<u8> = vec![0x22, 0x7d, 0x0a];
    let mut env: Vec<u8> = Vec::new();
    env.extend_from_slice(prefix.as_slice());
    env.extend_from_slice(original);
    env.extend_from_slice(middle.as_slice());
    env.extend_from_slice(&translated[0..tlen]);
    env.extend_from_slice(tail.as_slice());
    proof {
        assert(translated@.subrange(0, tlen as int) =~= translated@.drop_last());
        assert(tail@ =~= seq![0x22u8, 0x7du8, 0x0au8]);
        assert(env@ =~= keyword_envelope_spec(original@, translated@));
    }
    let n = env.len();
    write_at(output, 0, env.as_slice());
    proof {
        assert(output@ =~= env@ + old(output)@.skip(n as int));
    }
    Some(n)
}

/// What decoding a byte sequence in the envelope grammar yields: the
/// bytes between the prefix and the first occurrence of the middle
/// separator, and the bytes between that separator and the final `"}`.
pub open spec fn decode_spec(d: Seq<u8>) -> Option<(Seq<u8>, Seq<u8>)> {
    if starts_with(d, env_prefix()) {
        let rest = d.skip(6);
        match find_first_spec(rest, env_middle()) {
            Some(i) => {
                let after = rest.skip(i + 7);
                if after.len() >= 2 && after.skip(after.len() - 2) == env_suffix() {
                    Some((rest.take(i), after.take(after.len() - 2)))
                } else {
                    None
                }
            },
            None => None,
        }
    } else {
        None
    }
}

/// Decodes an envelope back into its (original, translated) pair.
pub fn decode_envelope(data: &[u8]) -> (r: Option<(Vec<u8>, Vec<u8>)>)
    ensures
        r is Some <==> decode_spec(data@) is Some,
        r is Some ==> (r->0).0@ == (decode_spec(data@)->0).0 && (r->0).1@ == (decode_spec(
            data@,
        )->0).1,
{
    let prefix = env_prefix_exec();
    let middle = env_middle_exec();
    let suffix = env_suffix_exec();
    if !starts_with_bytes(data, prefix.as_slice()) {
        return None;
    }
    let rest = &data[6..data.len()];
    proof {
        assert(rest@ =~= data@.skip(6));
    }
    match find_first(rest, middle.as_slice()) {
        Some(i) => {
            proof {
                crate::text::lemma_find_first_characterizes_contains(rest@, middle@);
            }
            let after = &rest[i + 7..rest.len()];
            proof {
                assert(after@ =~= rest@.skip(i + 7));
            }
            if after.len() < 2 {
                return None;
            }
            let alen = after.len();
            let end = &after[alen - 2..alen];
            proof {
                assert(end@ =~= after@.skip(after@.len() - 2));
            }
            if !eq_bytes(end, suffix.as_slice()) {
                return None;
            }
            let o = slice_to_vec(&rest[0..i]);
            let t = slice_to_vec(&after[0..alen - 2]);
            proof {
                assert(rest@.subrange(0, i as int) =~= rest@.take(i as int));
                assert(after@.subrange(0, alen - 2) =~= after@.take(after@.len() - 2));
            }
            Some((o, t))
        },
        None => None,
    }
}

/// Law: the grammar round-trips. Decoding the envelope of a pair gives
/// the pair back, for every pair whose original text does not itself
/// contain a spurious window equal to the middle separator (with
/// unescaped quotes such a window would make the split ambiguous; no
/// other pairs are excluded).
pub proof fn lemma_envelope_round_trip(o: Seq<u8>, t: Seq<u8>)
    requires
        forall|j: int| 0 <= j < o.len() ==> #[trigger] (o + env_middle()).subrange(j, j + 7)
            != env_middle(),
    ensures
        decode_spec(envelope_spec(o, t)) == Some((o, t)),
{
    let d = envelope_spec(o, t);
    assert(d.take(6) =~= env_prefix());
    let rest = d.skip(6);
    assert(rest =~= o + env_middle() + t + env_suffix());
    let k = o.len() as int;
    assert(rest.subrange(k, k + 7) =~= env_middle());
    assert forall|j: int| 0 <= j < k implies #[trigger] rest.subrange(j, j + 7) != env_middle() by {
        assert(rest.subrange(j, j + 7) =~= (o + env_middle()).subrange(j, j + 7));
    }
    lemma_find_first_exact(rest, env_middle(), k);
    let after = rest.skip(k + 7);
    assert(after =~= t + env_suffix());
    assert(after.len() == t.len() + 2);
    assert(after.skip(after.len() - 2) =~= env_suffix());
    assert(rest.take(k) =~= o);
    assert(after.take(after.len() - 2) =~= t);
}

} // verus!
