use chrono_kernel_core::arbiter::simulate_contention;
use chrono_kernel_core::arbiter::try_lock;
use chrono_kernel_core::arbiter::unlock;
use chrono_kernel_core::arbiter::BufferArbiter;
use chrono_kernel_core::buffer::get_input_buffer;
use chrono_kernel_core::buffer::get_output_buffer;
use chrono_kernel_core::buffer::ScratchBuffer;
use chrono_kernel_core::hook::cleanup_hook;
use chrono_kernel_core::hook::comm_len;
use chrono_kernel_core::hook::task_struct;
use chrono_kernel_core::hook::commit_length;
use chrono_kernel_core::hook::format_stats;
use chrono_kernel_core::hook::handler_pre;
use chrono_kernel_core::hook::init_hook_v2;
use chrono_kernel_core::hook::pt_regs;
use chrono_kernel_core::hook::AbortReason;
use chrono_kernel_core::hook::BypassReason;
use chrono_kernel_core::hook::Hook;
use chrono_kernel_core::hook::HookDescriptor;
use chrono_kernel_core::hook::Outcome;
use chrono_kernel_core::i18n::i18n_table_ko;
use chrono_kernel_core::monitor::set_danger_zones;
use chrono_kernel_core::translation::TranslationTable;

fn fresh_hook(enforce: bool) -> Hook {
    let mut h = Hook::new(TranslationTable::new(i18n_table_ko()), enforce);
    set_danger_zones(&mut h.zones, 0x1000, 0x2000, 0x3000, 0x4000);
    h
}

fn regs_for(addr: u64, len: u64) -> pt_regs {
    pt_regs {
        r15: 0,
        r14: 0,
        r13: 0,
        r12: 0,
        bp: 0,
        bx: 0,
        r11: 0,
        r10: 0,
        r9: 0,
        r8: 0,
        ax: 0,
        cx: 0,
        dx: len,
        si: addr,
        di: 3,
        orig_ax: 1,
        ip: 0,
        cs: 0,
        flags: 0,
        sp: 0,
        ss: 0,
    }
}

#[test]
fn test_end_to_end_error_newline() {
    let mut h = fresh_hook(false);
    let outcome = handler_pre(&mut h, 0x7000, 6, Some(b"Error\n".as_slice()), true);
    // "Error" (5) + "오류" (6) + 15 bytes of grammar
    assert_eq!(outcome, Outcome::Commit(26));
    let out = get_output_buffer(&h.buffer);
    assert_eq!(&out[0..26], "{\"r\":\"Error\",\"t\":\"오류\"}".as_bytes());
    let inp = get_input_buffer(&h.buffer);
    assert_eq!(&inp[0..6], b"Error\n");
    assert_eq!(h.stats.total, 1);
    assert_eq!(h.stats.translated, 1);
    assert_eq!(h.telemetry.has_error, 1);
    assert_eq!(h.telemetry.size_tiny, 1);
    assert!(!h.arbiter.locked);

    // Only a commit mutates the caller-observed length.
    let mut regs = regs_for(0x7000, 6);
    commit_length(&mut regs, outcome);
    assert_eq!(regs.dx, 26);
    assert_eq!(regs.si, 0x7000);
}

#[test]
fn test_danger_zone_bypass() {
    let mut h = fresh_hook(false);
    assert_eq!(
        handler_pre(&mut h, 0, 6, Some(b"Error\n".as_slice()), true),
        Outcome::Bypass(BypassReason::AddressRejected)
    );
    assert_eq!(h.telemetry.danger_null_ptr, 1);
    assert_eq!(
        handler_pre(&mut h, 0x1500, 6, Some(b"Error\n".as_slice()), true),
        Outcome::Bypass(BypassReason::AddressRejected)
    );
    assert_eq!(h.telemetry.danger_kernel_code, 1);
    assert_eq!(
        handler_pre(&mut h, 0xffff_8000_0000_0000, 6, Some(b"Error\n".as_slice()), true),
        Outcome::Bypass(BypassReason::AddressRejected)
    );
    assert_eq!(h.telemetry.danger_kernel_space, 1);
    assert_eq!(h.stats.total, 3);
    assert_eq!(h.stats.translated, 0);
    // Nothing was staged and nothing was encoded.
    assert!(get_output_buffer(&h.buffer).iter().all(|b| *b == 0));
}

#[test]
fn test_length_filter_bypass() {
    let mut h = fresh_hook(false);
    assert_eq!(
        handler_pre(&mut h, 0x7000, 3, Some(b"OK\n".as_slice()), true),
        Outcome::Bypass(BypassReason::LengthOutOfRange)
    );
    assert_eq!(
        handler_pre(&mut h, 0x7000, 32001, None, true),
        Outcome::Bypass(BypassReason::LengthOutOfRange)
    );
    assert_eq!(h.stats.filtered, 2);
}

#[test]
fn test_contended_buffer_bypasses() {
    let mut h = fresh_hook(false);
    h.arbiter.locked = true;
    assert_eq!(
        handler_pre(&mut h, 0x7000, 6, Some(b"Error\n".as_slice()), true),
        Outcome::Bypass(BypassReason::Contended)
    );
    assert_eq!(h.stats.bypassed, 1);
    assert!(h.arbiter.locked);
}

#[test]
fn test_copy_in_failure_aborts() {
    let mut h = fresh_hook(false);
    assert_eq!(
        handler_pre(&mut h, 0x7000, 6, None, true),
        Outcome::Abort(AbortReason::CopyInFailed)
    );
    assert_eq!(h.stats.failed_copy, 1);
    assert!(!h.arbiter.locked);
}

#[test]
fn test_decode_failure_aborts() {
    let mut h = fresh_hook(false);
    let bad = [0x41u8, 0xFF, 0xFE, 0x41];
    assert_eq!(
        handler_pre(&mut h, 0x7000, 4, Some(bad.as_slice()), true),
        Outcome::Abort(AbortReason::DecodeFailed)
    );
    assert!(!h.arbiter.locked);
}

#[test]
fn test_filter_rejects_ineligible() {
    let mut h = fresh_hook(false);
    // lower-case first byte
    assert_eq!(
        handler_pre(&mut h, 0x7000, 6, Some(b"hello\n".as_slice()), true),
        Outcome::Abort(AbortReason::FilterRejected)
    );
    // the hook's own previous output: the anti-loop guarantee
    let own = "{\"r\":\"Error\",\"t\":\"오류\"}";
    assert_eq!(
        handler_pre(&mut h, 0x7000, own.len() as u64, Some(own.as_bytes()), true),
        Outcome::Abort(AbortReason::FilterRejected)
    );
    assert_eq!(h.stats.filtered, 2);
}

#[test]
fn test_lookup_miss_aborts() {
    let mut h = fresh_hook(false);
    assert_eq!(
        handler_pre(&mut h, 0x7000, 8, Some(b"Unknown\n".as_slice()), true),
        Outcome::Abort(AbortReason::LookupMiss)
    );
    assert_eq!(h.stats.translated, 0);
}

#[test]
fn test_length_policy_aborts_growth() {
    // The envelope of "Error\n" is 26 bytes, longer than the 6 declared.
    let mut h = fresh_hook(true);
    assert_eq!(
        handler_pre(&mut h, 0x7000, 6, Some(b"Error\n".as_slice()), true),
        Outcome::Abort(AbortReason::LengthIncreased)
    );
    assert_eq!(h.stats.bypassed, 1);
    // The policy fires after the encode: the envelope is in the region,
    // but nothing was committed.
    let out = get_output_buffer(&h.buffer);
    assert_eq!(&out[0..26], "{\"r\":\"Error\",\"t\":\"오류\"}".as_bytes());
}

#[test]
fn test_copy_out_failure_aborts() {
    let mut h = fresh_hook(false);
    assert_eq!(
        handler_pre(&mut h, 0x7000, 6, Some(b"Error\n".as_slice()), false),
        Outcome::Abort(AbortReason::CopyOutFailed)
    );
    assert_eq!(h.stats.failed_copy, 1);
    assert_eq!(h.stats.translated, 0);
}

#[test]
fn test_arbiter_contention_yields_one_success() {
    let mut arb = BufferArbiter::new();
    assert_eq!(simulate_contention(&mut arb, 8), 1);
    unlock(&mut arb);
    assert_eq!(simulate_contention(&mut arb, 1), 1);
    unlock(&mut arb);
    assert_eq!(simulate_contention(&mut arb, 0), 0);
}

#[test]
fn test_arbiter_try_lock_and_release() {
    let mut arb = BufferArbiter::new();
    assert!(try_lock(&mut arb));
    assert!(!try_lock(&mut arb));
    assert!(!try_lock(&mut arb));
    unlock(&mut arb);
    assert!(try_lock(&mut arb));
}

#[test]
fn test_registration_idempotent() {
    let mut d = HookDescriptor::new();
    assert!(init_hook_v2(&mut d, 0xdead_0000, false).is_err());
    assert!(!d.installed);
    assert!(init_hook_v2(&mut d, 0xdead_0000, true).is_ok());
    assert!(d.installed);
    assert_eq!(d.target, 0xdead_0000);
    // installing again is a no-op
    assert!(init_hook_v2(&mut d, 0xbeef_0000, true).is_ok());
    assert_eq!(d.target, 0xdead_0000);
    cleanup_hook(&mut d);
    assert!(!d.installed);
    // unregistering again is safe
    cleanup_hook(&mut d);
    assert!(!d.installed);
}

#[test]
fn test_format_stats_line() {
    let h = fresh_hook(false);
    let line = format_stats(&h.stats, &h.telemetry);
    assert_eq!(
        line,
        "total=0 filtered=0 translated=0 bypassed=0 failed_copy=0 size_tiny=0 size_small=0 size_medium=0 size_large=0 size_huge=0 has_error=0 has_warning=0 has_json=0 has_unknown=0 danger_kernel_code=0 danger_null_ptr=0 danger_kernel_space=0"
    );
    let mut h = fresh_hook(false);
    let _ = handler_pre(&mut h, 0x7000, 6, Some(b"Error\n".as_slice()), true);
    let line = format_stats(&h.stats, &h.telemetry);
    assert!(line.starts_with("total=1 filtered=0 translated=1"));
}

#[test]
fn test_comm_len() {
    let mut comm = [0u8; 16];
    comm[0] = b'b';
    comm[1] = b'a';
    comm[2] = b's';
    comm[3] = b'h';
    let t = task_struct { comm };
    assert_eq!(comm_len(&t), 4);
    let full = task_struct { comm: [b'x'; 16] };
    assert_eq!(comm_len(&full), 16);
    let empty = task_struct { comm: [0u8; 16] };
    assert_eq!(comm_len(&empty), 0);
}

#[test]
fn test_scratch_buffer_layout() {
    let b = ScratchBuffer::new();
    assert_eq!(get_input_buffer(&b).len(), 32768);
    assert_eq!(get_output_buffer(&b).len(), 32768);
}
