//! The safety monitor: address-range rejection ("danger zones") and the
//! monotonic telemetry counters.
//!
//! The address check runs before any byte crosses the privilege boundary;
//! the telemetry counters only accumulate and are reset only when a fresh
//! monitor is made.

use vstd::prelude::*;
use crate::text::contains_seq;
use crate::text::contains_sub;
use crate::text::starts_with;
use crate::text::starts_with_bytes;
use crate::text::trim_end;
use crate::text::trim_end_spec;

verus! {

/// Lowest address of the fixed high (kernel-space) region; addresses at
/// or above it are always rejected.
pub const KERNEL_SPACE_BOUNDARY: u64 = 0xffff_8000_0000_0000;

/// The configured danger zones: the code range and the data range that
/// the pipeline refuses to treat as a valid transfer target. A range
/// whose start is zero is not configured and rejects nothing.
pub struct DangerZones {
    pub code_start: u64,
    pub code_end: u64,
    pub data_start: u64,
    pub data_end: u64,
}

impl DangerZones {
    /// Fresh configuration: no zone configured yet.
    pub fn new() -> (r: DangerZones)
        ensures
            r.code_start == 0,
            r.code_end == 0,
            r.data_start == 0,
            r.data_end == 0,
    {
        DangerZones { code_start: 0, code_end: 0, data_start: 0, data_end: 0 }
    }
}

/// Configures the danger zones; the caller supplies the ranges once,
/// typically resolved at load time from host-provided symbols.
pub fn set_danger_zones(
    z: &mut DangerZones,
    text_start: u64,
    text_end: u64,
    data_start: u64,
    data_end: u64,
)
    ensures
        final(z).code_start == text_start,
        final(z).code_end == text_end,
        final(z).data_start == data_start,
        final(z).data_end == data_end,
{
    z.code_start = text_start;
    z.code_end = text_end;
    z.data_start = data_start;
    z.data_end = data_end;
}

/// Verdict of the address check, in the order the conditions are tested.
#[derive(Clone, Copy, Debug, PartialEq, Eq, Structural)]
pub enum AddressCheck {
    Accepted,
    NullPointer,
    KernelCode,
    KernelData,
    KernelSpace,
}

/// The verdict on one address: null is rejected first, then the code
/// zone, then the data zone, then the fixed high boundary.
pub open spec fn check_address_spec(z: DangerZones, addr: u64) -> AddressCheck {
    if addr == 0 {
        AddressCheck::NullPointer
    } else if z.code_start > 0 && z.code_start <= addr && addr <= z.code_end {
        AddressCheck::KernelCode
    } else if z.data_start > 0 && z.data_start <= addr && addr <= z.data_end {
        AddressCheck::KernelData
    } else if addr >= KERNEL_SPACE_BOUNDARY {
        AddressCheck::KernelSpace
    } else {
        AddressCheck::Accepted
    }
}

/// Runs the address check. An address is accepted exactly when it is
/// non-null, inside neither configured zone, and below the kernel-space
/// boundary.
pub fn check_address(z: &DangerZones, addr: u64) -> (r: AddressCheck)
    ensures
        r == check_address_spec(*z, addr),
        (r == AddressCheck::Accepted) <==> (addr != 0 && !(z.code_start > 0 && z.code_start
            <= addr && addr <= z.code_end) && !(z.data_start > 0 && z.data_start <= addr && addr
            <= z.data_end) && addr < KERNEL_SPACE_BOUNDARY),
{
    if addr == 0 {
        AddressCheck::NullPointer
    } else if z.code_start > 0 && z.code_start <= addr && addr <= z.code_end {
        AddressCheck::KernelCode
    } else if z.data_start > 0 && z.data_start <= addr && addr <= z.data_end {
        AddressCheck::KernelData
    } else if addr >= KERNEL_SPACE_BOUNDARY {
        AddressCheck::KernelSpace
    } else {
        AddressCheck::Accepted
    }
}

/// The telemetry counters: size-bucket histogram over the trimmed length,
/// content-class histogram, and danger-zone hit counts. All counters only
/// ever grow.
pub struct Telemetry {
    pub size_tiny: u64,
    pub size_small: u64,
    pub size_medium: u64,
    pub size_large: u64,
    pub size_huge: u64,
    pub has_error: u64,
    pub has_warning: u64,
    pub has_json: u64,
    pub has_unknown: u64,
    pub danger_kernel_code: u64,
    pub danger_null_ptr: u64,
    pub danger_kernel_space: u64,
}

impl Telemetry {
    /// Fresh counters, all zero.
    pub fn new() -> (r: Telemetry)
        ensures
            r == Telemetry::zero(),
    {
        Telemetry {
            size_tiny: 0,
            size_small: 0,
            size_medium: 0,
            size_large: 0,
            size_huge: 0,
            has_error: 0,
            has_warning: 0,
            has_json: 0,
            has_unknown: 0,
            danger_kernel_code: 0,
            danger_null_ptr: 0,
            danger_kernel_space: 0,
        }
    }

    /// The all-zero counter state.
    pub open spec fn zero() -> Telemetry {
        Telemetry {
            size_tiny: 0,
            size_small: 0,
            size_medium: 0,
            size_large: 0,
            size_huge: 0,
            has_error: 0,
            has_warning: 0,
            has_json: 0,
            has_unknown: 0,
            danger_kernel_code: 0,
            danger_null_ptr: 0,
            danger_kernel_space: 0,
        }
    }
}

/// One monotonic counter step: counters saturate instead of wrapping, so
/// a counter never decreases.
pub open spec fn bump(c: u64) -> u64 {
    if c < 0xffff_ffff_ffff_ffffu64 {
        (c + 1) as u64
    } else {
        c
    }
}

/// Executable form of [`bump`].
pub fn bump_exec(c: u64) -> (r: u64)
    ensures
        r == bump(c),
        r >= c,
{
    if c < 0xffff_ffff_ffff_ffffu64 {
        c + 1
    } else {
        c
    }
}

/// The counters after recording one address-check verdict. A rejection in
/// either configured zone counts against the kernel-code counter; an
/// accepted address counts nothing.
pub open spec fn telemetry_after_danger(t: Telemetry, c: AddressCheck) -> Telemetry {
    match c {
        AddressCheck::Accepted => t,
        AddressCheck::NullPointer => (Telemetry { danger_null_ptr: bump(t.danger_null_ptr), ..t }),
        AddressCheck::KernelCode => (Telemetry {
            danger_kernel_code: bump(t.danger_kernel_code),
            ..t
        }),
        AddressCheck::KernelData => (Telemetry {
            danger_kernel_code: bump(t.danger_kernel_code),
            ..t
        }),
        AddressCheck::KernelSpace => (Telemetry {
            danger_kernel_space: bump(t.danger_kernel_space),
            ..t
        }),
    }
}

/// Records one address-check verdict.
pub fn record_danger(t: &mut Telemetry, c: AddressCheck)
    ensures
        *final(t) == telemetry_after_danger(*old(t), c),
{
    match c {
        AddressCheck::Accepted => {},
        AddressCheck::NullPointer => {
            t.danger_null_ptr = bump_exec(t.danger_null_ptr);
        },
        AddressCheck::KernelCode => {
            t.danger_kernel_code = bump_exec(t.danger_kernel_code);
        },
        AddressCheck::KernelData => {
            t.danger_kernel_code = bump_exec(t.danger_kernel_code);
        },
        AddressCheck::KernelSpace => {
            t.danger_kernel_space = bump_exec(t.danger_kernel_space);
        },
    }
}

/// The bytes of the word `Error`.
pub open spec fn word_error_title() -> Seq<u8> {
    seq![0x45u8, 0x72u8, 0x72u8, 0x6fu8, 0x72u8]
}

/// The bytes of the word `error`.
pub open spec fn word_error_lower() -> Seq<u8> {
    seq![0x65u8, 0x72u8, 0x72u8, 0x6fu8, 0x72u8]
}

/// The bytes of the word `Warning`.
pub open spec fn word_warning_title() -> Seq<u8> {
    seq![0x57u8, 0x61u8, 0x72u8, 0x6eu8, 0x69u8, 0x6eu8, 0x67u8]
}

/// The bytes of the word `warning`.
pub open spec fn word_warning_lower() -> Seq<u8> {
    seq![0x77u8, 0x61u8, 0x72u8, 0x6eu8, 0x69u8, 0x6eu8, 0x67u8]
}

/// The counters after recording one staged-in payload: the size bucket of
/// its trimmed length, then the first matching content class among
/// error, warning, structured and unclassified.
pub open spec fn telemetry_after_record(t: Telemetry, data: Seq<u8>) -> Telemetry {
    let n = trim_end_spec(data).len();
    let t1 = if n <= 15 {
        (Telemetry { size_tiny: bump(t.size_tiny), ..t })
    } else if n <= 255 {
        (Telemetry { size_small: bump(t.size_small), ..t })
    } else if n <= 4095 {
        (Telemetry { size_medium: bump(t.size_medium), ..t })
    } else if n <= 32767 {
        (Telemetry { size_large: bump(t.size_large), ..t })
    } else {
        (Telemetry { size_huge: bump(t.size_huge), ..t })
    };
    if contains_seq(data, word_error_title()) || contains_seq(data, word_error_lower()) {
        (Telemetry { has_error: bump(t1.has_error), ..t1 })
    } else if contains_seq(data, word_warning_title()) || contains_seq(data, word_warning_lower()) {
        (Telemetry { has_warning: bump(t1.has_warning), ..t1 })
    } else if starts_with(data, seq![0x7bu8]) {
        (Telemetry { has_json: bump(t1.has_json), ..t1 })
    } else {
        (Telemetry { has_unknown: bump(t1.has_unknown), ..t1 })
    }
}

/// Every counter of `b` is at least the matching counter of `a`.
pub open spec fn telemetry_ge(b: Telemetry, a: Telemetry) -> bool {
    &&& b.size_tiny >= a.size_tiny
    &&& b.size_small >= a.size_small
    &&& b.size_medium >= a.size_medium
    &&& b.size_large >= a.size_large
    &&& b.size_huge >= a.size_huge
    &&& b.has_error >= a.has_error
    &&& b.has_warning >= a.has_warning
    &&& b.has_json >= a.has_json
    &&& b.has_unknown >= a.has_unknown
    &&& b.danger_kernel_code >= a.danger_kernel_code
    &&& b.danger_null_ptr >= a.danger_null_ptr
    &&& b.danger_kernel_space >= a.danger_kernel_space
}

/// Law: the telemetry counters are monotonic. Recording a verdict or a
/// payload never decrements any counter.
pub proof fn lemma_telemetry_monotone(t: Telemetry, c: AddressCheck, data: Seq<u8>)
    ensures
        telemetry_ge(telemetry_after_danger(t, c), t),
        telemetry_ge(telemetry_after_record(t, data), t),
{
}

/// Records one staged-in payload: size bucket by trimmed byte length and
/// content class by first matching keyword.
pub fn record_telemetry(t: &mut Telemetry, data: &[u8])
    ensures
        *final(t) == telemetry_after_record(*old(t), data@),
{
    let trimmed = trim_end(data);
    let n = trimmed.len();
    if n <= 15 {
        t.size_tiny = bump_exec(t.size_tiny);
    } else if n <= 255 {
        t.size_small = bump_exec(t.size_small);
    } else if n <= 4095 {
        t.size_medium = bump_exec(t.size_medium);
    } else if n <= 32767 {
        t.size_large = bump_exec(t.size_large);
    } else {
        t.size_huge = bump_exec(t.size_huge);
    }
    let w_error_title: Vec<u8> = vec![0x45, 0x72, 0x72, 0x6f, 0x72];
    let w_error_lower: Vec<u8> = vec![0x65, 0x72, 0x72, 0x6f, 0x72];
    let w_warning_title: Vec<u8> = vec![0x57, 0x61, 0x72, 0x6e, 0x69, 0x6e, 0x67];
    let w_warning_lower: Vec<u8> = vec![0x77, 0x61, 0x72, 0x6e, 0x69, 0x6e, 0x67];
    let brace: Vec<u8> = vec![0x7b];
    proof {
        assert(w_error_title@ =~= word_error_title());
        assert(w_error_lower@ =~= word_error_lower());
        assert(w_warning_title@ =~= word_warning_title());
        assert(w_warning_lower@ =~= word_warning_lower());
        assert(brace@ =~= seq![0x7bu8]);
    }
    if contains_sub(data, w_error_title.as_slice()) || contains_sub(data, w_error_lower.as_slice()) {
        t.has_error = bump_exec(t.has_error);
    } else if contains_sub(data, w_warning_title.as_slice()) || contains_sub(
        data,
        w_warning_lower.as_slice(),
    ) {
        t.has_warning = bump_exec(t.has_warning);
    } else if starts_with_bytes(data, brace.as_slice()) {
        t.has_json = bump_exec(t.has_json);
    } else {
        t.has_unknown = bump_exec(t.has_unknown);
    }
}

} // verus!

