//! The interception hook: the per-invocation state machine that composes
//! address check, arbitration, boundary copies, decode, filter, lookup
//! and encode into one bounded decision, plus the registration model.
//!
//! The two boundary copies cannot be performed here: the bytes that the
//! stage-in copy produced (or `None` when the source was inaccessible)
//! and the stage-out verdict are injected as arguments, and the handler
//! is verified for every possible value of them.

use vstd::prelude::*;
use vstd::string::StringExecFns;
use vstd::string::StringSliceAdditionalSpecFns;
use vstd::utf8::valid_utf8;
use crate::arbiter::try_lock;
use crate::arbiter::unlock;
use crate::arbiter::BufferArbiter;
use crate::buffer::write_at;
use crate::buffer::ScratchBuffer;
use crate::buffer::HALF_SIZE;
use crate::envelope::encode_envelope;
use crate::envelope::envelope_len;
use crate::envelope::envelope_spec;
use crate::filter::eligible_bytes;
use crate::filter::eligible_spec;
use crate::i18n::first_match;
use crate::i18n::scan_entries;
use crate::monitor::bump;
use crate::monitor::bump_exec;
use crate::monitor::check_address;
use crate::monitor::check_address_spec;
use crate::monitor::record_danger;
use crate::monitor::record_telemetry;
use crate::monitor::telemetry_after_danger;
use crate::monitor::telemetry_after_record;
use crate::monitor::AddressCheck;
use crate::monitor::DangerZones;
use crate::monitor::Telemetry;
use crate::text::validate_utf8;
use crate::text::dec_spec;
use crate::text::u64_to_dec;
use crate::text::trim_end;
use crate::text::trim_end_spec;
use crate::translation::TranslationTable;

verus! {

/// Per-hook statistics counters.
pub struct HookStats {
    pub total: u64,
    pub filtered: u64,
    pub translated: u64,
    pub bypassed: u64,
    pub failed_copy: u64,
}

impl HookStats {
    /// The all-zero counter state.
    pub open spec fn zero() -> HookStats {
        HookStats { total: 0, filtered: 0, translated: 0, bypassed: 0, failed_copy: 0 }
    }

    /// Fresh counters, all zero.
    pub fn new() -> (r: HookStats)
        ensures
            r == HookStats::zero(),
    {
        HookStats { total: 0, filtered: 0, translated: 0, bypassed: 0, failed_copy: 0 }
    }
}

/// Why an invocation was left entirely alone. No lock was taken on a
/// bypass, so there is nothing to release and the caller's data and
/// length stay untouched.
#[derive(Clone, Copy, Debug, PartialEq, Eq, Structural)]
pub enum BypassReason {
    /// The destination address failed the danger-zone or range check.
    AddressRejected,
    /// The declared length is out of the window worth translating.
    LengthOutOfRange,
    /// Another invocation owns the scratch buffer; losing the race is
    /// not an error.
    Contended,
}

/// Why an invocation was abandoned after the scratch buffer had been
/// acquired. The lock is released on every abort and the caller's data
/// and length stay untouched.
#[derive(Clone, Copy, Debug, PartialEq, Eq, Structural)]
pub enum AbortReason {
    /// The stage-in copy failed: the source was inaccessible.
    CopyInFailed,
    /// The staged bytes are not well-formed text.
    DecodeFailed,
    /// The trimmed candidate is not eligible for translation.
    FilterRejected,
    /// No table entry matches the trimmed candidate; the original call
    /// passes through.
    LookupMiss,
    /// The envelope exceeds the output region; nothing was written.
    EncodeOverflow,
    /// The envelope is longer than the intercepted payload and the
    /// non-increase policy is on.
    LengthIncreased,
    /// The stage-out copy failed: the destination stays unmodified.
    CopyOutFailed,
}

/// The terminal state of one invocation. Only a commit changes what the
/// caller observes: the length argument becomes the encoded length.
#[derive(Clone, Copy, Debug, PartialEq, Eq, Structural)]
pub enum Outcome {
    Bypass(BypassReason),
    Abort(AbortReason),
    Commit(usize),
}

/// The whole hook: arbitration, scratch buffer, configuration,
/// vocabulary, counters, and the encode-length policy.
pub struct Hook {
    pub arbiter: BufferArbiter,
    pub buffer: ScratchBuffer,
    pub zones: DangerZones,
    pub table: TranslationTable,
    pub stats: HookStats,
    pub telemetry: Telemetry,
    /// When on, an envelope longer than the intercepted payload is not
    /// committed.
    pub enforce_length_non_increase: bool,
}

impl Hook {
    /// A fresh hook around a vocabulary: unowned buffer, zero counters,
    /// no danger zone configured.
    pub fn new(table: TranslationTable, enforce_length_non_increase: bool) -> (r: Hook)
        ensures
            !r.arbiter.locked,
            r.buffer.wf(),
            r.zones.code_start == 0 && r.zones.code_end == 0 && r.zones.data_start == 0
                && r.zones.data_end == 0,
            r.table.entries@ == table.entries@,
            r.stats == HookStats::zero(),
            r.telemetry == Telemetry::zero(),
            r.enforce_length_non_increase == enforce_length_non_increase,
    {
        Hook {
            arbiter: BufferArbiter::new(),
            buffer: ScratchBuffer::new(),
            zones: DangerZones::new(),
            table,
            stats: HookStats::new(),
            telemetry: Telemetry::new(),
            enforce_length_non_increase,
        }
    }
}

/// The outcome one invocation must reach, decided from the pre-state and
/// the injected copy results, stage by stage in the order the state
/// machine runs them.
pub open spec fn decide_spec(
    h: Hook,
    addr: u64,
    len: u64,
    source: Option<Seq<u8>>,
    copy_out_ok: bool,
) -> Outcome {
    if check_address_spec(h.zones, addr) != AddressCheck::Accepted {
        Outcome::Bypass(BypassReason::AddressRejected)
    } else if len < 4 || len > 32000 {
        Outcome::Bypass(BypassReason::LengthOutOfRange)
    } else if h.arbiter.locked {
        Outcome::Bypass(BypassReason::Contended)
    } else if source is None {
        Outcome::Abort(AbortReason::CopyInFailed)
    } else if !valid_utf8(source->0) {
        Outcome::Abort(AbortReason::DecodeFailed)
    } else if !eligible_spec(trim_end_spec(source->0)) {
        Outcome::Abort(AbortReason::FilterRejected)
    } else {
        match first_match(h.table.entries@, trim_end_spec(source->0)) {
            None => Outcome::Abort(AbortReason::LookupMiss),
            Some(e) => {
                let n = envelope_len(trim_end_spec(source->0), e.translated.spec_bytes());
                if n > HALF_SIZE {
                    Outcome::Abort(AbortReason::EncodeOverflow)
                } else if h.enforce_length_non_increase && n > len {
                    Outcome::Abort(AbortReason::LengthIncreased)
                } else if !copy_out_ok {
                    Outcome::Abort(AbortReason::CopyOutFailed)
                } else {
                    Outcome::Commit(n as usize)
                }
            },
        }
    }
}

/// The statistics counters after one invocation with outcome `r`: every
/// invocation counts, and each terminal state feeds its own counter.
pub open spec fn stats_after(s: HookStats, r: Outcome) -> HookStats {
    let s1 = HookStats { total: bump(s.total), ..s };
    match r {
        Outcome::Bypass(BypassReason::AddressRejected) => s1,
        Outcome::Bypass(BypassReason::LengthOutOfRange) => (HookStats {
            filtered: bump(s1.filtered),
            ..s1
        }),
        Outcome::Bypass(BypassReason::Contended) => (HookStats {
            bypassed: bump(s1.bypassed),
            ..s1
        }),
        Outcome::Abort(AbortReason::CopyInFailed) => (HookStats {
            failed_copy: bump(s1.failed_copy),
            ..s1
        }),
        Outcome::Abort(AbortReason::DecodeFailed) => s1,
        Outcome::Abort(AbortReason::FilterRejected) => (HookStats {
            filtered: bump(s1.filtered),
            ..s1
        }),
        Outcome::Abort(AbortReason::LookupMiss) => s1,
        Outcome::Abort(AbortReason::EncodeOverflow) => s1,
        Outcome::Abort(AbortReason::LengthIncreased) => (HookStats {
            bypassed: bump(s1.bypassed),
            ..s1
        }),
        Outcome::Abort(AbortReason::CopyOutFailed) => (HookStats {
            failed_copy: bump(s1.failed_copy),
            ..s1
        }),
        Outcome::Commit(_) => (HookStats { translated: bump(s1.translated), ..s1 }),
    }
}

/// The telemetry counters after one invocation: the address verdict is
/// always recorded, and the payload is recorded exactly when the stage-in
/// copy succeeded.
pub open spec fn telemetry_after_invocation(
    t: Telemetry,
    verdict: AddressCheck,
    r: Outcome,
    source: Option<Seq<u8>>,
) -> Telemetry {
    let t1 = telemetry_after_danger(t, verdict);
    match r {
        Outcome::Bypass(_) => t1,
        Outcome::Abort(a) => if a == AbortReason::CopyInFailed {
            t1
        } else {
            telemetry_after_record(t1, source->0)
        },
        Outcome::Commit(_) => telemetry_after_record(t1, source->0),
    }
}

/// The stage-in copy succeeded on the way to outcome `r`.
pub open spec fn staged_in(r: Outcome) -> bool {
    match r {
        Outcome::Bypass(_) => false,
        Outcome::Abort(a) => a != AbortReason::CopyInFailed,
        Outcome::Commit(_) => true,
    }
}

/// The encode stage ran and succeeded on the way to outcome `r`: the
/// output region then holds the envelope.
pub open spec fn encoded(r: Outcome) -> bool {
    match r {
        Outcome::Bypass(_) => false,
        Outcome::Abort(a) => a == AbortReason::LengthIncreased || a == AbortReason::CopyOutFailed,
        Outcome::Commit(_) => true,
    }
}

/// The envelope an invocation of the pipeline encodes for this payload
/// and vocabulary: the trimmed candidate and the translation of its
/// first matching entry.
pub open spec fn committed_envelope(h: Hook, data: Seq<u8>) -> Seq<u8> {
    envelope_spec(
        trim_end_spec(data),
        first_match(h.table.entries@, trim_end_spec(data))->0.translated.spec_bytes(),
    )
}

/// One intercepted write call, start to finish.
///
/// `addr` and `len` are the call's destination address and declared byte
/// length; `source` is what the stage-in copy produced (`None` when the
/// source was inaccessible, otherwise exactly `len` bytes), and
/// `copy_out_ok` is the stage-out verdict. The handler decides the
/// outcome exactly as [`decide_spec`] does; it always restores the
/// arbiter to its prior state, never touches configuration, vocabulary
/// or policy, and only a commit carries a new length for the caller.
pub fn handler_pre(h: &mut Hook, addr: u64, len: u64, source: Option<&[u8]>, copy_out_ok: bool) -> (r:
    Outcome)
    requires
        old(h).buffer.wf(),
        source is Some ==> source->0@.len() == len,
    ensures
        r == decide_spec(
            *old(h),
            addr,
            len,
            if source is Some { Some(source->0@) } else { None },
            copy_out_ok,
        ),
        final(h).arbiter == old(h).arbiter,
        final(h).zones == old(h).zones,
        final(h).table.entries@ == old(h).table.entries@,
        final(h).enforce_length_non_increase == old(h).enforce_length_non_increase,
        final(h).buffer.wf(),
        final(h).stats == stats_after(old(h).stats, r),
        final(h).telemetry == telemetry_after_invocation(
            old(h).telemetry,
            check_address_spec(old(h).zones, addr),
            r,
            if source is Some { Some(source->0@) } else { None },
        ),
        staged_in(r) ==> final(h).buffer.input@ == source->0@ + old(h).buffer.input@.skip(
            len as int,
        ),
        !staged_in(r) ==> final(h).buffer.input@ == old(h).buffer.input@,
        encoded(r) ==> final(h).buffer.output@ == committed_envelope(*old(h), source->0@) + old(
            h,
        ).buffer.output@.skip(committed_envelope(*old(h), source->0@).len() as int),
        !encoded(r) ==> final(h).buffer.output@ == old(h).buffer.output@,
        r matches Outcome::Commit(n) ==> n == committed_envelope(*old(h), source->0@).len(),
{
    h.stats.total = bump_exec(h.stats.total);
    let verdict = check_address(&h.zones, addr);
    record_danger(&mut h.telemetry, verdict);
    if verdict != AddressCheck::Accepted {
        return Outcome::Bypass(BypassReason::AddressRejected);
    }
    if len < 4 || len > 32000 {
        h.stats.filtered = bump_exec(h.stats.filtered);
        return Outcome::Bypass(BypassReason::LengthOutOfRange);
    }
    if !try_lock(&mut h.arbiter) {
        h.stats.bypassed = bump_exec(h.stats.bypassed);
        return Outcome::Bypass(BypassReason::Contended);
    }
    let data = match source {
        None => {
            h.stats.failed_copy = bump_exec(h.stats.failed_copy);
            unlock(&mut h.arbiter);
            return Outcome::Abort(AbortReason::CopyInFailed);
        },
        Some(d) => d,
    };
    write_at(&mut h.buffer.input, 0, data);
    record_telemetry(&mut h.telemetry, data);
    if !validate_utf8(data) {
        unlock(&mut h.arbiter);
        return Outcome::Abort(AbortReason::DecodeFailed);
    }
    let trimmed = trim_end(data);
    if !eligible_bytes(trimmed) {
        h.stats.filtered = bump_exec(h.stats.filtered);
        unlock(&mut h.arbiter);
        return Outcome::Abort(AbortReason::FilterRejected);
    }
    let entry = match scan_entries(&h.table.entries, trimmed) {
        None => {
            unlock(&mut h.arbiter);
            return Outcome::Abort(AbortReason::LookupMiss);
        },
        Some(e) => e,
    };
    let encoded_len = match encode_envelope(trimmed, entry.translated.as_bytes(), &mut h.buffer.output) {
        Err(_) => {
            unlock(&mut h.arbiter);
            return Outcome::Abort(AbortReason::EncodeOverflow);
        },
        Ok(n) => n,
    };
    if h.enforce_length_non_increase && encoded_len as u64 > len {
        h.stats.bypassed = bump_exec(h.stats.bypassed);
        unlock(&mut h.arbiter);
        return Outcome::Abort(AbortReason::LengthIncreased);
    }
    if !copy_out_ok {
        h.stats.failed_copy = bump_exec(h.stats.failed_copy);
        unlock(&mut h.arbiter);
        return Outcome::Abort(AbortReason::CopyOutFailed);
    }
    h.stats.translated = bump_exec(h.stats.translated);
    unlock(&mut h.arbiter);
    Outcome::Commit(encoded_len)
}

/// Every counter of `b` is at least the matching counter of `a`.
pub open spec fn stats_ge(b: HookStats, a: HookStats) -> bool {
    &&& b.total >= a.total
    &&& b.filtered >= a.filtered
    &&& b.translated >= a.translated
    &&& b.bypassed >= a.bypassed
    &&& b.failed_copy >= a.failed_copy
}

/// Law: the statistics and telemetry counters are monotonic across an
/// invocation, whatever its outcome: no counter is ever decremented.
pub proof fn lemma_counters_monotone(
    s: HookStats,
    t: Telemetry,
    verdict: AddressCheck,
    r: Outcome,
    source: Option<Seq<u8>>,
)
    ensures
        stats_ge(stats_after(s, r), s),
        crate::monitor::telemetry_ge(telemetry_after_invocation(t, verdict, r, source), t),
{
    crate::monitor::lemma_telemetry_monotone(t, verdict, source->0);
    let t1 = telemetry_after_danger(t, verdict);
    crate::monitor::lemma_telemetry_monotone(t1, verdict, source->0);
}

/// Law: the pipeline never re-processes its own output. A payload that an
/// earlier commit produced is an envelope; an envelope ends in `}` (so
/// trimming leaves it whole) and begins with the envelope signature, so
/// the filter rejects it and no invocation over it ever commits:
/// translating already-translated output is a no-op.
pub proof fn lemma_no_reprocessing(
    h: Hook,
    addr: u64,
    len: u64,
    o: Seq<u8>,
    t: Seq<u8>,
    copy_out_ok: bool,
)
    ensures
        !(decide_spec(h, addr, len, Some(envelope_spec(o, t)), copy_out_ok)
            matches Outcome::Commit(_)),
{
    let env = envelope_spec(o, t);
    assert(env.last() == 0x7du8);
    assert(trim_end_spec(env) == env);
    assert(env.take(5) =~= crate::filter::envelope_signature());
    assert(!eligible_spec(trim_end_spec(env)));
}

/// The single-line dump of all counters, in the order the fields stand
/// in [`HookStats`] and [`Telemetry`].
pub open spec fn stats_line(s: HookStats, t: Telemetry) -> Seq<char> {
    "total="@ + dec_spec(s.total as nat) + " filtered="@ + dec_spec(s.filtered as nat)
        + " translated="@ + dec_spec(s.translated as nat) + " bypassed="@ + dec_spec(
        s.bypassed as nat,
    ) + " failed_copy="@ + dec_spec(s.failed_copy as nat) + " size_tiny="@ + dec_spec(
        t.size_tiny as nat,
    ) + " size_small="@ + dec_spec(t.size_small as nat) + " size_medium="@ + dec_spec(
        t.size_medium as nat,
    ) + " size_large="@ + dec_spec(t.size_large as nat) + " size_huge="@ + dec_spec(
        t.size_huge as nat,
    ) + " has_error="@ + dec_spec(t.has_error as nat) + " has_warning="@ + dec_spec(
        t.has_warning as nat,
    ) + " has_json="@ + dec_spec(t.has_json as nat) + " has_unknown="@ + dec_spec(
        t.has_unknown as nat,
    ) + " danger_kernel_code="@ + dec_spec(t.danger_kernel_code as nat) + " danger_null_ptr="@
        + dec_spec(t.danger_null_ptr as nat) + " danger_kernel_space="@ + dec_spec(
        t.danger_kernel_space as nat,
    )
}

/// Renders the on-demand dump of all counters as one line; handing the
/// line to a log sink is the caller's work.
pub fn format_stats(s: &HookStats, t: &Telemetry) -> (r: String)
    ensures
        r@ == stats_line(*s, *t),
{
    let mut line = String::new();
    line.append("total=");
    line.append(u64_to_dec(s.total).as_str());
    line.append(" filtered=");
    line.append(u64_to_dec(s.filtered).as_str());
    line.append(" translated=");
    line.append(u64_to_dec(s.translated).as_str());
    line.append(" bypassed=");
    line.append(u64_to_dec(s.bypassed).as_str());
    line.append(" failed_copy=");
    line.append(u64_to_dec(s.failed_copy).as_str());
    line.append(" size_tiny=");
    line.append(u64_to_dec(t.size_tiny).as_str());
    line.append(" size_small=");
    line.append(u64_to_dec(t.size_small).as_str());
    line.append(" size_medium=");
    line.append(u64_to_dec(t.size_medium).as_str());
    line.append(" size_large=");
    line.append(u64_to_dec(t.size_large).as_str());
    line.append(" size_huge=");
    line.append(u64_to_dec(t.size_huge).as_str());
    line.append(" has_error=");
    line.append(u64_to_dec(t.has_error).as_str());
    line.append(" has_warning=");
    line.append(u64_to_dec(t.has_warning).as_str());
    line.append(" has_json=");
    line.append(u64_to_dec(t.has_json).as_str());
    line.append(" has_unknown=");
    line.append(u64_to_dec(t.has_unknown).as_str());
    line.append(" danger_kernel_code=");
    line.append(u64_to_dec(t.danger_kernel_code).as_str());
    line.append(" danger_null_ptr=");
    line.append(u64_to_dec(t.danger_null_ptr).as_str());
    line.append(" danger_kernel_space=");
    line.append(u64_to_dec(t.danger_kernel_space).as_str());
    proof {
        assert(line@ =~= stats_line(*s, *t));
    }
    line
}

/// The register file of an intercepted call as the probe sees it: the
/// destination address stands in `si` and the declared byte length in
/// `dx`.
#[allow(non_camel_case_types)]
pub struct pt_regs {
    pub r15: u64,
    pub r14: u64,
    pub r13: u64,
    pub r12: u64,
    pub bp: u64,
    pub bx: u64,
    pub r11: u64,
    pub r10: u64,
    pub r9: u64,
    pub r8: u64,
    pub ax: u64,
    pub cx: u64,
    pub dx: u64,
    pub si: u64,
    pub di: u64,
    pub orig_ax: u64,
    pub ip: u64,
    pub cs: u64,
    pub flags: u64,
    pub sp: u64,
    pub ss: u64,
}

/// Applies an outcome to the intercepted call's registers. Only a commit
/// changes what the caller observes: the length argument becomes the
/// encoded length; every other outcome leaves the registers untouched.
pub fn commit_length(regs: &mut pt_regs, r: Outcome)
    ensures
        r matches Outcome::Commit(n) ==> *final(regs) == (pt_regs { dx: n as u64, ..*old(regs) }),
        !(r matches Outcome::Commit(_)) ==> *final(regs) == *old(regs),
{
    match r {
        Outcome::Commit(n) => {
            regs.dx = n as u64;
        },
        _ => {},
    }
}

/// The slice of the host's task record that the hook reads: the
/// command name of the task behind the intercepted call, NUL-terminated
/// when shorter than its fixed field.
#[allow(non_camel_case_types)]
pub struct task_struct {
    pub comm: [u8; 16],
}

/// The length of the task's command name: the bytes before the first
/// NUL, or the whole field when no NUL occurs.
pub fn comm_len(t: &task_struct) -> (n: usize)
    ensures
        n <= 16,
        forall|j: int| 0 <= j < n ==> t.comm@[j] != 0,
        n < 16 ==> t.comm@[n as int] == 0,
{
    let mut i: usize = 0;
    while i < 16
        invariant
            i <= 16,
            forall|j: int| 0 <= j < i ==> t.comm@[j] != 0,
        decreases 16 - i,
    {
        if t.comm[i] == 0 {
            return i;
        }
        i = i + 1;
    }
    16
}

/// The probe's identity and installation state.
pub struct HookDescriptor {
    pub target: u64,
    pub installed: bool,
}

impl HookDescriptor {
    /// A fresh descriptor: nothing installed yet.
    pub fn new() -> (r: HookDescriptor)
        ensures
            !r.installed,
            r.target == 0,
    {
        HookDescriptor { target: 0, installed: false }
    }
}

/// Installs the probe at the resolved target address. The installation
/// itself is the host's work, so its verdict arrives as `register_ok`.
/// Installing an already-installed probe is an idempotent no-op; a failed
/// installation is reported distinctly and changes nothing.
pub fn init_hook_v2(d: &mut HookDescriptor, target: u64, register_ok: bool) -> (r: Result<
    (),
    &'static str,
>)
    ensures
        old(d).installed ==> r is Ok && *final(d) == *old(d),
        !old(d).installed && register_ok ==> r is Ok && final(d).installed && final(d).target
            == target,
        !old(d).installed && !register_ok ==> r is Err && *final(d) == *old(d),
{
    if d.installed {
        return Ok(());
    }
    if register_ok {
        d.target = target;
        d.installed = true;
        Ok(())
    } else {
        Err("Kprobe registration failed")
    }
}

/// Uninstalls the probe. Safe to call even when registration never
/// succeeded, and an idempotent no-op when nothing is installed.
pub fn cleanup_hook(d: &mut HookDescriptor)
    ensures
        !final(d).installed,
        final(d).target == old(d).target,
{
    d.installed = false;
}

} // verus!
