//! Byte-level text primitives shared by the pipeline stages: trailing
//! trimming, ASCII case folding, prefix tests and substring search.

use vstd::prelude::*;
use vstd::string::StringExecFns;
use vstd::utf8::valid_utf8;

verus! {

/// Bytes that are stripped from the end of a candidate text before it is
/// filtered and looked up: newline, carriage return, NUL and the ASCII
/// whitespace bytes.
pub open spec fn is_trim_byte(b: u8) -> bool {
    b == 0x0a || b == 0x0d || b == 0x00 || b == 0x20 || b == 0x09 || b == 0x0b || b == 0x0c
}

/// The candidate text with all trailing trim bytes removed.
pub open spec fn trim_end_spec(s: Seq<u8>) -> Seq<u8>
    decreases s.len(),
{
    if s.len() == 0 {
        s
    } else if is_trim_byte(s.last()) {
        trim_end_spec(s.drop_last())
    } else {
        s
    }
}

/// ASCII lower-casing of one byte; other bytes are unchanged.
pub open spec fn fold_byte(b: u8) -> u8 {
    if 0x41 <= b && b <= 0x5a {
        (b + 0x20) as u8
    } else {
        b
    }
}

/// ASCII lower-casing of a whole byte sequence: two sequences compare
/// equal case-insensitively exactly when their folds are equal.
pub open spec fn fold(s: Seq<u8>) -> Seq<u8> {
    s.map_values(|b: u8| fold_byte(b))
}

/// `s` begins with `p`.
pub open spec fn starts_with(s: Seq<u8>, p: Seq<u8>) -> bool {
    p.len() <= s.len() && s.take(p.len() as int) == p
}

/// `p` occurs somewhere in `s`.
pub open spec fn contains_seq(s: Seq<u8>, p: Seq<u8>) -> bool {
    exists|i: int| 0 <= i && i + p.len() <= s.len() && #[trigger] s.subrange(i, i + p.len()) == p
}

/// The position of the first occurrence of `p` in `s` at or after `i`.
pub open spec fn find_first_from(s: Seq<u8>, p: Seq<u8>, i: int) -> Option<int>
    decreases s.len() + 1 - i,
{
    if i < 0 || i + p.len() > s.len() {
        None
    } else if s.subrange(i, i + p.len()) == p {
        Some(i)
    } else {
        find_first_from(s, p, i + 1)
    }
}

/// The position of the first occurrence of `p` in `s`.
pub open spec fn find_first_spec(s: Seq<u8>, p: Seq<u8>) -> Option<int> {
    find_first_from(s, p, 0)
}

/// `b` is an ASCII uppercase letter.
pub open spec fn is_ascii_upper(b: u8) -> bool {
    0x41 <= b && b <= 0x5a
}

/// `b` is an ASCII letter.
pub open spec fn is_ascii_alpha(b: u8) -> bool {
    (0x41 <= b && b <= 0x5a) || (0x61 <= b && b <= 0x7a)
}

/// Executable form of [`fold_byte`].
pub fn fold_byte_exec(b: u8) -> (r: u8)
    ensures
        r == fold_byte(b),
{
    if 0x41 <= b && b <= 0x5a {
        b + 0x20
    } else {
        b
    }
}

/// Executable form of [`is_trim_byte`].
pub fn is_trim_byte_exec(b: u8) -> (r: bool)
    ensures
        r == is_trim_byte(b),
{
    b == 0x0a || b == 0x0d || b == 0x00 || b == 0x20 || b == 0x09 || b == 0x0b || b == 0x0c
}

/// Strips trailing trim bytes from `s`.
pub fn trim_end(s: &[u8]) -> (r: &[u8])
    ensures
        r@ == trim_end_spec(s@),
        r@.len() <= s@.len(),
{
    let mut end: usize = s.len();
    proof {
        assert(s@.take(end as int) =~= s@);
    }
    while end > 0 && is_trim_byte_exec(s[end - 1])
        invariant
            end <= s@.len(),
            trim_end_spec(s@) == trim_end_spec(s@.take(end as int)),
        decreases end,
    {
        proof {
            let t = s@.take(end as int);
            assert(t.last() == s@[end - 1]);
            assert(t.drop_last() =~= s@.take(end - 1));
        }
        end = end - 1;
    }
    proof {
        if end > 0 {
            assert(!is_trim_byte(s@.take(end as int).last()));
        }
        assert(trim_end_spec(s@.take(end as int)) == s@.take(end as int));
        assert(s@.subrange(0, end as int) =~= s@.take(end as int));
    }
    &s[0..end]
}

/// Plain equality of two byte slices.
pub fn eq_bytes(a: &[u8], b: &[u8]) -> (r: bool)
    ensures
        r == (a@ == b@),
{
    if a.len() != b.len() {
        proof {
            assert(a@.len() != b@.len());
        }
        return false;
    }
    let mut i: usize = 0;
    while i < a.len()
        invariant
            i <= a@.len(),
            a@.len() == b@.len(),
            forall|j: int| 0 <= j < i ==> a@[j] == b@[j],
        decreases a@.len() - i,
    {
        if a[i] != b[i] {
            return false;
        }
        i = i + 1;
    }
    proof {
        assert(a@ =~= b@);
    }
    true
}

/// Case-insensitive equality of two byte slices: true exactly when the
/// ASCII folds of the two sequences are equal.
pub fn eq_ignore_ascii_case_bytes(a: &[u8], b: &[u8]) -> (r: bool)
    ensures
        r == (fold(a@) == fold(b@)),
{
    if a.len() != b.len() {
        proof {
            assert(fold(a@).len() == a@.len());
            assert(fold(b@).len() == b@.len());
        }
        return false;
    }
    let mut i: usize = 0;
    while i < a.len()
        invariant
            i <= a@.len(),
            a@.len() == b@.len(),
            forall|j: int| 0 <= j < i ==> fold(a@)[j] == fold(b@)[j],
        decreases a@.len() - i,
    {
        if fold_byte_exec(a[i]) != fold_byte_exec(b[i]) {
            proof {
                assert(fold(a@)[i as int] != fold(b@)[i as int]);
            }
            return false;
        }
        i = i + 1;
    }
    proof {
        assert(fold(a@) =~= fold(b@));
    }
    true
}

/// `s` begins with `p`.
pub fn starts_with_bytes(s: &[u8], p: &[u8]) -> (r: bool)
    ensures
        r == starts_with(s@, p@),
{
    if p.len() > s.len() {
        return false;
    }
    let mut i: usize = 0;
    while i < p.len()
        invariant
            i <= p@.len(),
            p@.len() <= s@.len(),
            forall|j: int| 0 <= j < i ==> s@[j] == p@[j],
        decreases p@.len() - i,
    {
        if s[i] != p[i] {
            proof {
                assert(s@.take(p@.len() as int)[i as int] == s@[i as int]);
            }
            return false;
        }
        i = i + 1;
    }
    proof {
        assert(s@.take(p@.len() as int) =~= p@);
    }
    true
}

/// Folding commutes with taking a prefix.
pub proof fn lemma_fold_take(s: Seq<u8>, n: int)
    requires
        0 <= n <= s.len(),
    ensures
        fold(s.take(n)) == fold(s).take(n),
{
    assert(fold(s.take(n)) =~= fold(s).take(n));
}

/// `s` begins with `p` up to ASCII case.
pub fn starts_with_fold(s: &[u8], p: &[u8]) -> (r: bool)
    ensures
        r == starts_with(fold(s@), fold(p@)),
{
    if p.len() > s.len() {
        return false;
    }
    let r = eq_ignore_ascii_case_bytes(&s[0..p.len()], p);
    proof {
        lemma_fold_take(s@, p@.len() as int);
        assert(s@.subrange(0, p@.len() as int) == s@.take(p@.len() as int));
    }
    r
}

/// The decimal digit character of a value below ten.
pub open spec fn digit_str(d: nat) -> Seq<char> {
    if d == 0 {
        "0"@
    } else if d == 1 {
        "1"@
    } else if d == 2 {
        "2"@
    } else if d == 3 {
        "3"@
    } else if d == 4 {
        "4"@
    } else if d == 5 {
        "5"@
    } else if d == 6 {
        "6"@
    } else if d == 7 {
        "7"@
    } else if d == 8 {
        "8"@
    } else {
        "9"@
    }
}

/// The decimal writing of a number, most significant digit first, with
/// no leading zero except for the number zero itself.
pub open spec fn dec_spec(n: nat) -> Seq<char>
    decreases n,
{
    if n < 10 {
        digit_str(n)
    } else {
        dec_spec(n / 10) + digit_str(n % 10)
    }
}

fn append_digit(s: &mut String, d: u64)
    requires
        d < 10,
    ensures
        final(s)@ == old(s)@ + digit_str(d as nat),
{
    if d == 0 {
        s.append("0");
    } else if d == 1 {
        s.append("1");
    } else if d == 2 {
        s.append("2");
    } else if d == 3 {
        s.append("3");
    } else if d == 4 {
        s.append("4");
    } else if d == 5 {
        s.append("5");
    } else if d == 6 {
        s.append("6");
    } else if d == 7 {
        s.append("7");
    } else if d == 8 {
        s.append("8");
    } else {
        s.append("9");
    }
}

/// Writes a number in decimal.
pub fn u64_to_dec(n: u64) -> (r: String)
    ensures
        r@ == dec_spec(n as nat),
    decreases n,
{
    if n < 10 {
        let mut s = String::new();
        append_digit(&mut s, n);
        proof {
            assert(Seq::<char>::empty() + digit_str(n as nat) =~= digit_str(n as nat));
        }
        s
    } else {
        let mut s = u64_to_dec(n / 10);
        append_digit(&mut s, n % 10);
        s
    }
}

/// Decides UTF-8 well-formedness, scalar by scalar: each leading byte
/// announces its width, the right number of continuation bytes must
/// follow, and overlong encodings and surrogate codepoints are rejected.
pub fn validate_utf8(bytes: &[u8]) -> (r: bool)
    ensures
        r == valid_utf8(bytes@),
{
    let n: usize = bytes.len();
    let mut i: usize = 0;
    proof {
        assert(bytes@.skip(0) =~= bytes@);
    }
    while i < n
        invariant
            n == bytes@.len(),
            i <= n,
            valid_utf8(bytes@) == valid_utf8(bytes@.skip(i as int)),
        decreases n - i,
    {
        let ghost s = bytes@.skip(i as int);
        let b0 = bytes[i];
        proof {
            assert(s[0] == b0);
        }
        if b0 <= 0x7f {
            proof {
                assert(b0 & 0x7f == b0 && b0 <= 0x7f) by (bit_vector)
                    requires
                        b0 <= 0x7f,
                ;
                assert(vstd::utf8::valid_first_scalar(s));
                assert(vstd::utf8::pop_first_scalar(s) =~= bytes@.skip(i + 1));
            }
            i = i + 1;
        } else if 0xc0 <= b0 && b0 <= 0xdf {
            if n - i < 2 {
                proof {
                    assert(!vstd::utf8::valid_first_scalar(s));
                }
                return false;
            }
            let b1 = bytes[i + 1];
            proof {
                assert(s[1] == b1);
            }
            if !(0x80 <= b1 && b1 <= 0xbf) {
                proof {
                    assert(!vstd::utf8::valid_first_scalar(s));
                }
                return false;
            }
            let cp: u32 = (((b0 & 0x1f) as u32) << 6u32) | ((b1 & 0x3f) as u32);
            proof {
                assert(cp == vstd::utf8::codepoint_width_2(b0, b1));
                assert((((b0 & 0x1f) as u32) << 6u32) | ((b1 & 0x3f) as u32) <= 0x7ff)
                    by (bit_vector);
            }
            if cp < 0x80 {
                proof {
                    assert(!vstd::utf8::valid_first_scalar(s));
                }
                return false;
            }
            proof {
                assert(vstd::utf8::valid_first_scalar(s));
                assert(vstd::utf8::pop_first_scalar(s) =~= bytes@.skip(i + 2));
            }
            i = i + 2;
        } else if 0xe0 <= b0 && b0 <= 0xef {
            if n - i < 3 {
                proof {
                    assert(!vstd::utf8::valid_first_scalar(s));
                }
                return false;
            }
            let b1 = bytes[i + 1];
            let b2 = bytes[i + 2];
            proof {
                assert(s[1] == b1 && s[2] == b2);
            }
            if !(0x80 <= b1 && b1 <= 0xbf) || !(0x80 <= b2 && b2 <= 0xbf) {
                proof {
                    assert(!vstd::utf8::valid_first_scalar(s));
                }
                return false;
            }
            let cp: u32 = (((b0 & 0x0f) as u32) << 12u32) | (((b1 & 0x3f) as u32) << 6u32) | ((b2
                & 0x3f) as u32);
            proof {
                assert(cp == vstd::utf8::codepoint_width_3(b0, b1, b2));
            }
            if cp < 0x800 || (0xd800 <= cp && cp <= 0xdfff) {
                proof {
                    assert(!vstd::utf8::valid_first_scalar(s));
                }
                return false;
            }
            proof {
                assert(vstd::utf8::valid_first_scalar(s));
                assert(vstd::utf8::pop_first_scalar(s) =~= bytes@.skip(i + 3));
            }
            i = i + 3;
        } else if 0xf0 <= b0 && b0 <= 0xf7 {
            if n - i < 4 {
                proof {
                    assert(!vstd::utf8::valid_first_scalar(s));
                }
                return false;
            }
            let b1 = bytes[i + 1];
            let b2 = bytes[i + 2];
            let b3 = bytes[i + 3];
            proof {
                assert(s[1] == b1 && s[2] == b2 && s[3] == b3);
            }
            if !(0x80 <= b1 && b1 <= 0xbf) || !(0x80 <= b2 && b2 <= 0xbf) || !(0x80 <= b3 && b3
                <= 0xbf) {
                proof {
                    assert(!vstd::utf8::valid_first_scalar(s));
                }
                return false;
            }
            let cp: u32 = (((b0 & 0x07) as u32) << 18u32) | (((b1 & 0x3f) as u32) << 12u32) | (((
            b2 & 0x3f) as u32) << 6u32) | ((b3 & 0x3f) as u32);
            proof {
                assert(cp == vstd::utf8::codepoint_width_4(b0, b1, b2, b3));
            }
            if cp < 0x10000 || cp > 0x10ffff {
                proof {
                    assert(!vstd::utf8::valid_first_scalar(s));
                }
                return false;
            }
            proof {
                assert(vstd::utf8::valid_first_scalar(s));
                assert(vstd::utf8::pop_first_scalar(s) =~= bytes@.skip(i + 4));
            }
            i = i + 4;
        } else {
            proof {
                assert(!vstd::utf8::valid_first_scalar(s));
            }
            return false;
        }
    }
    proof {
        assert(bytes@.skip(n as int).len() == 0);
    }
    true
}

proof fn lemma_find_first_step(s: Seq<u8>, p: Seq<u8>, i: int)
    requires
        0 <= i,
        i + p.len() <= s.len(),
        s.subrange(i, i + p.len()) != p,
    ensures
        find_first_from(s, p, i) == find_first_from(s, p, i + 1),
{
}

/// The first occurrence of `p` in `s`, or `None` when `p` does not occur.
pub fn find_first(s: &[u8], p: &[u8]) -> (r: Option<usize>)
    ensures
        match r {
            Some(i) => find_first_spec(s@, p@) == Some(i as int),
            None => find_first_spec(s@, p@) is None,
        },
{
    let n: usize = s.len();
    let m: usize = p.len();
    if m > n {
        return None;
    }
    if m == 0 {
        proof {
            assert(s@.subrange(0, 0) =~= p@);
        }
        return Some(0);
    }
    let max: usize = n - m;
    let mut i: usize = 0;
    while i <= max
        invariant
            n == s@.len(),
            m == p@.len(),
            1 <= m <= n,
            max == n - m,
            i <= max + 1,
            find_first_spec(s@, p@) == find_first_from(s@, p@, i as int),
        decreases max + 1 - i,
    {
        if eq_bytes(&s[i..i + m], p) {
            proof {
                assert(s@.subrange(i as int, i + p@.len()) == p@);
            }
            return Some(i);
        }
        proof {
            lemma_find_first_step(s@, p@, i as int);
        }
        i = i + 1;
    }
    None
}

/// `p` occurs somewhere in `s`. The result agrees with [`contains_seq`].
pub fn contains_sub(s: &[u8], p: &[u8]) -> (r: bool)
    ensures
        r == contains_seq(s@, p@),
{
    let r = find_first(s, p);
    proof {
        lemma_find_first_characterizes_contains(s@, p@);
    }
    r.is_some()
}

proof fn lemma_find_first_from_exact(s: Seq<u8>, p: Seq<u8>, i: int, k: int)
    requires
        0 <= i <= k,
        k + p.len() <= s.len(),
        s.subrange(k, k + p.len()) == p,
        forall|j: int| i <= j < k ==> #[trigger] s.subrange(j, j + p.len()) != p,
    ensures
        find_first_from(s, p, i) == Some(k),
    decreases k - i,
{
    if i < k {
        lemma_find_first_from_exact(s, p, i + 1, k);
    }
}

/// When `p` matches at `k` and nowhere before, the search finds `k`.
pub proof fn lemma_find_first_exact(s: Seq<u8>, p: Seq<u8>, k: int)
    requires
        0 <= k,
        k + p.len() <= s.len(),
        s.subrange(k, k + p.len()) == p,
        forall|j: int| 0 <= j < k ==> #[trigger] s.subrange(j, j + p.len()) != p,
    ensures
        find_first_spec(s, p) == Some(k),
{
    lemma_find_first_from_exact(s, p, 0, k);
}

/// Relates the searcher to the existential statement of containment:
/// a first occurrence exists exactly when some occurrence exists.
pub proof fn lemma_find_first_characterizes_contains(s: Seq<u8>, p: Seq<u8>)
    ensures
        find_first_spec(s, p) is Some <==> contains_seq(s, p),
        match find_first_spec(s, p) {
            Some(i) => 0 <= i && i + p.len() <= s.len() && s.subrange(i, i + p.len()) == p,
            None => true,
        },
{
    lemma_find_first_from_characterizes(s, p, 0);
}

proof fn lemma_find_first_from_characterizes(s: Seq<u8>, p: Seq<u8>, i: int)
    requires
        0 <= i,
    ensures
        match find_first_from(s, p, i) {
            Some(k) => i <= k && k + p.len() <= s.len() && s.subrange(k, k + p.len()) == p,
            None => forall|k: int| i <= k && k + p.len() <= s.len() ==> #[trigger] s.subrange(k, k + p.len()) != p,
        },
    decreases s.len() + 1 - i,
{
    if i + p.len() > s.len() {
    } else if s.subrange(i, i + p.len()) == p {
    } else {
        lemma_find_first_from_characterizes(s, p, i + 1);
    }
}

} // verus!
