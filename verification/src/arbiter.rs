//! Non-blocking single-owner arbitration of the shared scratch buffer.
//!
//! There is no wait queue and no timeout: an attempt that loses the race
//! fails immediately, and the caller resolves the failure as a bypass of
//! the translation for that invocation.

use vstd::prelude::*;

verus! {

/// The binary ownership flag over the scratch buffer.
///
/// Invariant maintained by the operations below: at most one logical owner
/// at any instant, and every acquire is matched by exactly one release.
pub struct BufferArbiter {
    pub locked: bool,
}

impl BufferArbiter {
    /// A fresh arbiter; the buffer starts unowned.
    pub fn new() -> (r: BufferArbiter)
        ensures
            !r.locked,
    {
        BufferArbiter { locked: false }
    }
}

/// Non-blocking try-acquire: succeeds exactly when the buffer was unowned
/// at the moment of the attempt, and the buffer is owned afterwards in
/// either case (by the new owner on success, by the previous one on
/// failure).
pub fn try_lock(arb: &mut BufferArbiter) -> (r: bool)
    ensures
        r == !old(arb).locked,
        final(arb).locked,
{
    if arb.locked {
        false
    } else {
        arb.locked = true;
        true
    }
}

/// Releases the buffer. Double-release is forbidden: only the current
/// owner may release, so release requires ownership.
pub fn unlock(arb: &mut BufferArbiter)
    requires
        old(arb).locked,
    ensures
        !final(arb).locked,
{
    arb.locked = false;
}

/// Law: no interleaving of try-acquire attempts yields two simultaneous
/// successes. A successful attempt leaves the buffer owned, so of two
/// attempts with no release in between, the second always fails:
/// `r0` and `s1` are the result and the state after a first attempt on
/// `s0` (as `try_lock` ensures them), and `r1` the result of a second
/// attempt on `s1`.
pub proof fn lemma_mutual_exclusion(s0: BufferArbiter, s1: BufferArbiter, r0: bool, r1: bool)
    requires
        r0 == !s0.locked,
        s1.locked,
        r1 == !s1.locked,
    ensures
        !r1,
        !(r0 && r1),
{
}

/// Law: of `n` simultaneous try-acquire attempts on an unowned buffer,
/// exactly one succeeds and the other `n - 1` fail immediately.
pub fn simulate_contention(arb: &mut BufferArbiter, n: usize) -> (successes: usize)
    requires
        !old(arb).locked,
    ensures
        n == 0 ==> successes == 0 && !final(arb).locked,
        n >= 1 ==> successes == 1 && final(arb).locked,
{
    let mut successes: usize = 0;
    let mut i: usize = 0;
    while i < n
        invariant
            i <= n,
            i == 0 ==> !arb.locked && successes == 0,
            i >= 1 ==> arb.locked && successes == 1,
        decreases n - i,
    {
        if try_lock(arb) {
            successes = successes + 1;
        }
        i = i + 1;
    }
    successes
}

} // verus!
