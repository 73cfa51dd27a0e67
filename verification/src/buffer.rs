//! The fixed-size scratch region that stages bytes on their way through
//! the pipeline, partitioned into an input half and an output half.
//!
//! The region is allocated once and never resized: translated output is
//! bounded by the fixed half-buffer capacity regardless of call volume.

use vstd::prelude::*;

verus! {

/// Total size of the scratch region in bytes.
pub const BUFFER_SIZE: usize = 65536;

/// Size of each half (the input region and the output region).
pub const HALF_SIZE: usize = 32768;

/// The scratch region. The first half stages the intercepted bytes on
/// their way in; the second half holds the encoded envelope on its way
/// out.
pub struct ScratchBuffer {
    pub input: Vec<u8>,
    pub output: Vec<u8>,
}

impl ScratchBuffer {
    /// Both halves keep their fixed capacity for the buffer's lifetime.
    pub open spec fn wf(&self) -> bool {
        self.input@.len() == HALF_SIZE && self.output@.len() == HALF_SIZE
    }

    /// A fresh, zero-filled scratch buffer.
    pub fn new() -> (r: ScratchBuffer)
        ensures
            r.wf(),
            r.input@ == Seq::new(HALF_SIZE as nat, |i: int| 0u8),
            r.output@ == Seq::new(HALF_SIZE as nat, |i: int| 0u8),
    {
        ScratchBuffer { input: vec![0u8; HALF_SIZE], output: vec![0u8; HALF_SIZE] }
    }
}

/// Read access to the input half.
pub fn get_input_buffer(buf: &ScratchBuffer) -> (r: &Vec<u8>)
    ensures
        r@ == buf.input@,
{
    &buf.input
}

/// Read access to the output half.
pub fn get_output_buffer(buf: &ScratchBuffer) -> (r: &Vec<u8>)
    ensures
        r@ == buf.output@,
{
    &buf.output
}

/// Writes `src` into `dst` starting at `at`, leaving every byte outside
/// the written window unchanged. The region's length never changes.
pub fn write_at(dst: &mut Vec<u8>, at: usize, src: &[u8])
    requires
        at + src@.len() <= old(dst)@.len(),
    ensures
        final(dst)@.len() == old(dst)@.len(),
        final(dst)@ == old(dst)@.take(at as int) + src@ + old(dst)@.skip(at + src@.len()),
{
    let m: usize = src.len();
    let cap: usize = dst.len();
    let mut j: usize = 0;
    while j < m
        invariant
            m == src@.len(),
            j <= m,
            at + m <= cap,
            cap == old(dst)@.len(),
            dst@.len() == old(dst)@.len(),
            forall|k: int| 0 <= k < at ==> dst@[k] == old(dst)@[k],
            forall|k: int| at <= k < at + j ==> dst@[k] == src@[k - at],
            forall|k: int| at + m <= k < dst@.len() ==> dst@[k] == old(dst)@[k],
        decreases m - j,
    {
        dst[at + j] = src[j];
        j = j + 1;
    }
    proof {
        assert(dst@ =~= old(dst)@.take(at as int) + src@ + old(dst)@.skip(at + src@.len()));
    }
}

} // verus!
