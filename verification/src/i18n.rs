//! Translation entries, the built-in vocabulary, and the
//! case-insensitive first-match lookup.

use vstd::prelude::*;
use vstd::string::StringSliceAdditionalSpecFns;
use vstd::utf8::valid_utf8;
use crate::text::validate_utf8;
use crate::text::eq_ignore_ascii_case_bytes;
use crate::text::fold;
use crate::text::is_ascii_alpha;
use crate::text::starts_with;
use crate::text::starts_with_fold;
use crate::text::trim_end;
use crate::text::trim_end_spec;

verus! {

/// One immutable vocabulary pair, with the byte length of each side
/// precomputed.
#[derive(Clone, Copy, Debug)]
pub struct TranslationEntry {
    pub original: &'static str,
    pub translated: &'static str,
    pub len_original: usize,
    pub len_translated: usize,
}

impl TranslationEntry {
    /// The cached lengths are the byte lengths of the two texts.
    pub open spec fn wf(&self) -> bool {
        self.len_original == self.original.spec_bytes().len() as usize && self.len_translated
            == self.translated.spec_bytes().len() as usize
    }

    /// Makes an entry, caching both byte lengths.
    pub fn new(original: &'static str, translated: &'static str) -> (r: TranslationEntry)
        ensures
            r.original == original,
            r.translated == translated,
            r.wf(),
    {
        TranslationEntry {
            original,
            translated,
            len_original: original.len(),
            len_translated: translated.len(),
        }
    }
}

/// The trimmed candidate matches an entry when the candidate and the
/// entry's original text are equal up to ASCII case.
pub open spec fn entry_matches(e: TranslationEntry, t: Seq<u8>) -> bool {
    fold(t) == fold(e.original.spec_bytes())
}

/// The first entry matching the trimmed candidate: insertion order is the
/// match-priority order, first match wins.
pub open spec fn first_match(entries: Seq<TranslationEntry>, t: Seq<u8>) -> Option<
    TranslationEntry,
>
    decreases entries.len(),
{
    if entries.len() == 0 {
        None
    } else if entry_matches(entries[0], t) {
        Some(entries[0])
    } else {
        first_match(entries.drop_first(), t)
    }
}

/// What a lookup of the raw candidate returns: the candidate is trimmed,
/// an empty trimmed candidate matches nothing, and otherwise the first
/// matching entry is the result.
pub open spec fn lookup_spec(entries: Seq<TranslationEntry>, input_bytes: Seq<u8>) -> Option<
    TranslationEntry,
> {
    let t = trim_end_spec(input_bytes);
    if t.len() == 0 {
        None
    } else {
        first_match(entries, t)
    }
}

proof fn lemma_first_match_step(entries: Seq<TranslationEntry>, t: Seq<u8>, i: int)
    requires
        0 <= i < entries.len(),
    ensures
        entry_matches(entries[i], t) ==> first_match(entries.skip(i), t) == Some(entries[i]),
        !entry_matches(entries[i], t) ==> first_match(entries.skip(i), t) == first_match(
            entries.skip(i + 1),
            t,
        ),
{
    assert(entries.skip(i)[0] == entries[i]);
    assert(entries.skip(i).drop_first() =~= entries.skip(i + 1));
}

/// Linear scan in priority order; returns the first entry whose original
/// text equals the trimmed candidate case-insensitively.
pub fn scan_entries(entries: &Vec<TranslationEntry>, trimmed: &[u8]) -> (r: Option<
    TranslationEntry,
>)
    ensures
        r == first_match(entries@, trimmed@),
{
    let n: usize = entries.len();
    proof {
        assert(entries@.skip(0) =~= entries@);
    }
    let mut i: usize = 0;
    while i < n
        invariant
            n == entries@.len(),
            i <= n,
            first_match(entries@, trimmed@) == first_match(entries@.skip(i as int), trimmed@),
        decreases n - i,
    {
        let e = entries[i];
        if eq_ignore_ascii_case_bytes(trimmed, e.original.as_bytes()) {
            proof {
                lemma_first_match_step(entries@, trimmed@, i as int);
            }
            return Some(e);
        }
        proof {
            lemma_first_match_step(entries@, trimmed@, i as int);
        }
        i = i + 1;
    }
    proof {
        assert(entries@.skip(n as int) =~= Seq::<TranslationEntry>::empty());
    }
    None
}

/// Translates `input` against `entries`: trailing newline, carriage
/// return, NUL and whitespace bytes are stripped, and the first entry
/// whose original text equals the trimmed candidate up to ASCII case
/// provides the translation. Returns the translation exactly when such
/// an entry exists.
pub fn translate(entries: &Vec<TranslationEntry>, input: &str) -> (r: Option<&'static str>)
    ensures
        r is Some <==> lookup_spec(entries@, input.spec_bytes()) is Some,
        r is Some ==> r->0 == lookup_spec(entries@, input.spec_bytes())->0.translated,
{
    let bytes = input.as_bytes();
    let trimmed = trim_end(bytes);
    if trimmed.len() == 0 {
        return None;
    }
    match scan_entries(entries, trimmed) {
        Some(e) => Some(e.translated),
        None => None,
    }
}

/// Translates a raw byte payload: the bytes must be non-empty and decode
/// as well-formed text, and the decoded text must match an entry.
pub fn translate_bytes(entries: &Vec<TranslationEntry>, buf: &[u8]) -> (r: Option<&'static str>)
    ensures
        r is Some <==> buf@.len() > 0 && valid_utf8(buf@) && lookup_spec(entries@, buf@) is Some,
        r is Some ==> r->0 == lookup_spec(entries@, buf@)->0.translated,
{
    if buf.len() == 0 {
        return None;
    }
    if !validate_utf8(buf) {
        return None;
    }
    let trimmed = trim_end(buf);
    if trimmed.len() == 0 {
        return None;
    }
    match scan_entries(entries, trimmed) {
        Some(e) => Some(e.translated),
        None => None,
    }
}

/// The built-in Korean vocabulary, as (original, translated) pairs in
/// match-priority order.
pub open spec fn i18n_pairs_ko() -> Seq<(&'static str, &'static str)> {
    seq![
        ("Ready!", "준비 완료!"),
        ("Loading...", "불러오는 중..."),
        ("Done", "완료"),
        ("OK", "확인"),
        ("Error", "오류"),
        ("error", "오류"),
        ("ERROR", "오류"),
        ("Warning", "경고"),
        ("warning", "경고"),
        ("Failed", "실패"),
        ("failed", "실패"),
        ("Permission denied", "권한이 거부되었습니다"),
        ("permission denied", "권한이 거부되었습니다"),
        ("Access denied", "접근이 거부되었습니다"),
        ("Operation not permitted", "허용되지 않은 작업입니다"),
        ("No such file or directory", "파일 또는 디렉토리가 없습니다"),
        ("File not found", "파일을 찾을 수 없습니다"),
        ("file not found", "파일을 찾을 수 없습니다"),
        ("Directory not empty", "디렉토리가 비어있지 않습니다"),
        ("Is a directory", "디렉토리입니다"),
        ("Not a directory", "디렉토리가 아닙니다"),
        ("Out of memory", "메모리가 부족합니다"),
        ("Cannot allocate memory", "메모리를 할당할 수 없습니다"),
        ("Resource temporarily unavailable", "리소스를 일시적으로 사용할 수 없습니다"),
        ("Device or resource busy", "장치가 사용 중입니다"),
        ("Input/output error", "입출력 오류"),
        ("I/O error", "입출력 오류"),
        ("Read error", "읽기 오류"),
        ("Write error", "쓰기 오류"),
        ("Bad file descriptor", "잘못된 파일 디스크립터"),
        ("Connection refused", "연결이 거부되었습니다"),
        ("Connection reset", "연결이 재설정되었습니다"),
        ("Connection timed out", "연결 시간이 초과되었습니다"),
        ("Network is unreachable", "네트워크에 접근할 수 없습니다"),
        ("Killed", "강제 종료됨"),
        ("Terminated", "종료됨"),
        ("Segmentation fault", "세그먼테이션 오류"),
        ("Illegal instruction", "잘못된 명령"),
        ("Kernel panic", "커널 패닉"),
        ("Oops", "커널 오류"),
        ("BUG", "버그"),
        ("Call Trace", "호출 추적"),
    ]
}

/// The built-in Korean vocabulary as a table in memory: one entry per
/// pair of [`i18n_pairs_ko`], in the same order.
#[verifier::rlimit(100)]
pub fn i18n_table_ko() -> (r: Vec<TranslationEntry>)
    ensures
        r@.len() == i18n_pairs_ko().len(),
        forall|i: int|
            0 <= i < r@.len() ==> {
                &&& (#[trigger] r@[i]).wf()
                &&& r@[i].original@ == i18n_pairs_ko()[i].0@
                &&& r@[i].translated@ == i18n_pairs_ko()[i].1@
            },
{
    let mut r: Vec<TranslationEntry> = Vec::new();
    r.push(TranslationEntry::new("Ready!", "준비 완료!"));
    r.push(TranslationEntry::new("Loading...", "불러오는 중..."));
    r.push(TranslationEntry::new("Done", "완료"));
    r.push(TranslationEntry::new("OK", "확인"));
    r.push(TranslationEntry::new("Error", "오류"));
    r.push(TranslationEntry::new("error", "오류"));
    r.push(TranslationEntry::new("ERROR", "오류"));
    r.push(TranslationEntry::new("Warning", "경고"));
    r.push(TranslationEntry::new("warning", "경고"));
    r.push(TranslationEntry::new("Failed", "실패"));
    r.push(TranslationEntry::new("failed", "실패"));
    r.push(TranslationEntry::new("Permission denied", "권한이 거부되었습니다"));
    r.push(TranslationEntry::new("permission denied", "권한이 거부되었습니다"));
    r.push(TranslationEntry::new("Access denied", "접근이 거부되었습니다"));
    r.push(TranslationEntry::new("Operation not permitted", "허용되지 않은 작업입니다"));
    r.push(TranslationEntry::new("No such file or directory", "파일 또는 디렉토리가 없습니다"));
    r.push(TranslationEntry::new("File not found", "파일을 찾을 수 없습니다"));
    r.push(TranslationEntry::new("file not found", "파일을 찾을 수 없습니다"));
    r.push(TranslationEntry::new("Directory not empty", "디렉토리가 비어있지 않습니다"));
    r.push(TranslationEntry::new("Is a directory", "디렉토리입니다"));
    r.push(TranslationEntry::new("Not a directory", "디렉토리가 아닙니다"));
    r.push(TranslationEntry::new("Out of memory", "메모리가 부족합니다"));
    r.push(TranslationEntry::new("Cannot allocate memory", "메모리를 할당할 수 없습니다"));
    r.push(TranslationEntry::new("Resource temporarily unavailable", "리소스를 일시적으로 사용할 수 없습니다"));
    r.push(TranslationEntry::new("Device or resource busy", "장치가 사용 중입니다"));
    r.push(TranslationEntry::new("Input/output error", "입출력 오류"));
    r.push(TranslationEntry::new("I/O error", "입출력 오류"));
    r.push(TranslationEntry::new("Read error", "읽기 오류"));
    r.push(TranslationEntry::new("Write error", "쓰기 오류"));
    r.push(TranslationEntry::new("Bad file descriptor", "잘못된 파일 디스크립터"));
    r.push(TranslationEntry::new("Connection refused", "연결이 거부되었습니다"));
    r.push(TranslationEntry::new("Connection reset", "연결이 재설정되었습니다"));
    r.push(TranslationEntry::new("Connection timed out", "연결 시간이 초과되었습니다"));
    r.push(TranslationEntry::new("Network is unreachable", "네트워크에 접근할 수 없습니다"));
    r.push(TranslationEntry::new("Killed", "강제 종료됨"));
    r.push(TranslationEntry::new("Terminated", "종료됨"));
    r.push(TranslationEntry::new("Segmentation fault", "세그먼테이션 오류"));
    r.push(TranslationEntry::new("Illegal instruction", "잘못된 명령"));
    r.push(TranslationEntry::new("Kernel panic", "커널 패닉"));
    r.push(TranslationEntry::new("Oops", "커널 오류"));
    r.push(TranslationEntry::new("BUG", "버그"));
    r.push(TranslationEntry::new("Call Trace", "호출 추적"));
    r
}

/// The prefixes (given lower-case) that mark a candidate as worth
/// translating even before the exact table scan.
pub open spec fn prefix_markers() -> Seq<Seq<u8>> {
    seq![
        seq![0x65u8, 0x72u8, 0x72u8, 0x6fu8, 0x72u8],  // error
        seq![0x77u8, 0x61u8, 0x72u8, 0x6eu8, 0x69u8, 0x6eu8, 0x67u8],  // warning
        seq![0x70u8, 0x65u8, 0x72u8, 0x6du8, 0x69u8, 0x73u8, 0x73u8, 0x69u8, 0x6fu8, 0x6eu8],  // permission
        seq![0x6eu8, 0x6fu8, 0x20u8, 0x73u8, 0x75u8, 0x63u8, 0x68u8],  // no such
        seq![0x63u8, 0x61u8, 0x6eu8, 0x6eu8, 0x6fu8, 0x74u8],  // cannot
        seq![0x66u8, 0x61u8, 0x69u8, 0x6cu8, 0x65u8, 0x64u8],  // failed
    ]
}

/// The trimmed candidate begins, up to ASCII case, with one of the
/// prefix markers.
pub open spec fn has_marker_prefix(t: Seq<u8>) -> bool {
    exists|i: int|
        0 <= i < prefix_markers().len() && starts_with(fold(t), #[trigger] prefix_markers()[i])
}

/// The pre-filter's meaning: the candidate is non-empty, at most 256
/// bytes, trims to something non-empty that holds at least one ASCII
/// letter, and either begins with a marker prefix or matches a table
/// entry.
pub open spec fn should_translate_spec(entries: Seq<TranslationEntry>, s: Seq<u8>) -> bool {
    let t = trim_end_spec(s);
    &&& 1 <= s.len() <= 256
    &&& t.len() > 0
    &&& (exists|i: int| 0 <= i < t.len() && is_ascii_alpha(#[trigger] t[i]))
    &&& (has_marker_prefix(t) || first_match(entries, t) is Some)
}

/// The richer pre-filter over a candidate text: length bounds, an ASCII
/// letter somewhere in the trimmed candidate, and then either a marker
/// prefix or an exact (case-insensitive) table match.
pub fn should_translate_str(entries: &Vec<TranslationEntry>, input: &str) -> (r: bool)
    ensures
        r == should_translate_spec(entries@, input.spec_bytes()),
{
    let bytes = input.as_bytes();
    if bytes.len() == 0 || bytes.len() > 256 {
        return false;
    }
    let trimmed = trim_end(bytes);
    if trimmed.len() == 0 {
        return false;
    }
    let mut has_alpha = false;
    let n: usize = trimmed.len();
    let mut i: usize = 0;
    while i < n
        invariant
            n == trimmed@.len(),
            i <= n,
            has_alpha == exists|j: int| 0 <= j < i && is_ascii_alpha(#[trigger] trimmed@[j]),
        decreases n - i,
    {
        let b = trimmed[i];
        if (0x41 <= b && b <= 0x5a) || (0x61 <= b && b <= 0x7a) {
            has_alpha = true;
        }
        proof {
            if (0x41 <= b && b <= 0x5a) || (0x61 <= b && b <= 0x7a) {
                assert(is_ascii_alpha(trimmed@[i as int]));
            }
        }
        i = i + 1;
    }
    if !has_alpha {
        return false;
    }
    let p0: Vec<u8> = vec![0x65, 0x72, 0x72, 0x6f, 0x72];
    let p1: Vec<u8> = vec![0x77, 0x61, 0x72, 0x6e, 0x69, 0x6e, 0x67];
    let p2: Vec<u8> = vec![0x70, 0x65, 0x72, 0x6d, 0x69, 0x73, 0x73, 0x69, 0x6f, 0x6e];
    let p3: Vec<u8> = vec![0x6e, 0x6f, 0x20, 0x73, 0x75, 0x63, 0x68];
    let p4: Vec<u8> = vec![0x63, 0x61, 0x6e, 0x6e, 0x6f, 0x74];
    let p5: Vec<u8> = vec![0x66, 0x61, 0x69, 0x6c, 0x65, 0x64];
    proof {
        assert(fold(p0@) =~= prefix_markers()[0]);
        assert(fold(p1@) =~= prefix_markers()[1]);
        assert(fold(p2@) =~= prefix_markers()[2]);
        assert(fold(p3@) =~= prefix_markers()[3]);
        assert(fold(p4@) =~= prefix_markers()[4]);
        assert(fold(p5@) =~= prefix_markers()[5]);
    }
    if starts_with_fold(trimmed, p0.as_slice()) || starts_with_fold(trimmed, p1.as_slice())
        || starts_with_fold(trimmed, p2.as_slice()) || starts_with_fold(trimmed, p3.as_slice())
        || starts_with_fold(trimmed, p4.as_slice()) || starts_with_fold(trimmed, p5.as_slice()) {
        return true;
    }
    proof {
        assert forall|k: int| 0 <= k < prefix_markers().len() implies !starts_with(
            fold(trimmed@),
            #[trigger] prefix_markers()[k],
        ) by {
            if k == 0 {
            } else if k == 1 {
            } else if k == 2 {
            } else if k == 3 {
            } else if k == 4 {
            } else {
                assert(k == 5);
            }
        }
    }
    match scan_entries(entries, trimmed) {
        Some(_) => true,
        None => false,
    }
}

proof fn lemma_first_match_depends_on_fold(
    entries: Seq<TranslationEntry>,
    t1: Seq<u8>,
    t2: Seq<u8>,
)
    requires
        fold(t1) == fold(t2),
    ensures
        first_match(entries, t1) == first_match(entries, t2),
    decreases entries.len(),
{
    if entries.len() > 0 {
        lemma_first_match_depends_on_fold(entries.drop_first(), t1, t2);
    }
}

/// Law: lookup is insensitive to ASCII case and to trailing newline,
/// carriage return, NUL and whitespace. Two raw candidates whose trimmed
/// forms are equal up to ASCII case always resolve to the same entry (or
/// both to none), whatever the table.
pub proof fn lemma_lookup_case_whitespace_insensitive(
    entries: Seq<TranslationEntry>,
    a: Seq<u8>,
    b: Seq<u8>,
)
    requires
        fold(trim_end_spec(a)) == fold(trim_end_spec(b)),
    ensures
        lookup_spec(entries, a) == lookup_spec(entries, b),
{
    assert(fold(trim_end_spec(a)).len() == trim_end_spec(a).len());
    assert(fold(trim_end_spec(b)).len() == trim_end_spec(b).len());
    lemma_first_match_depends_on_fold(entries, trim_end_spec(a), trim_end_spec(b));
}

} // verus!
