//! Batch normalization of audio one-shots onto a time-aligned grid.
//!
//! Samples are carried as signed fixed-point values: [`FULL_SCALE`] units
//! stand for a full-scale amplitude of one. Each input is decoded, reduced
//! to the target channel layout, trimmed of silence, peak-normalized, and
//! the batch is padded to a common length and encoded as integer PCM.

use vstd::prelude::*;

pub mod assemble;
pub mod channels;
pub mod config;
pub mod decode;
pub mod encode;
pub mod errors;
pub mod fixed;
pub mod normalize;
pub mod pipeline;
pub mod resample;
pub mod trim;

verus! {

/// Fixed-point units per unit amplitude: samples at full scale have
/// absolute value `FULL_SCALE`.
pub const FULL_SCALE: i64 = 0x100_0000;

/// Largest sample magnitude the pipeline accepts; gives headroom of a factor
/// 256 over full scale while keeping all intermediate products inside `i64`.
pub const MAX_SAMPLE: i64 = 0x1_0000_0000;

/// Magnitude of a sample value.
pub open spec fn abs_of(x: int) -> int {
    if x < 0 {
        -x
    } else {
        x
    }
}

/// All samples of a buffer are within the pipeline's headroom bound.
pub open spec fn valid_samples(s: Seq<i64>) -> bool {
    forall|i: int| 0 <= i < s.len() ==> abs_of(#[trigger] s[i] as int) <= MAX_SAMPLE
}

/// A contiguous slice of a valid buffer is valid.
pub proof fn lemma_valid_subrange(s: Seq<i64>, a: int, b: int)
    requires
        valid_samples(s),
        0 <= a <= b <= s.len(),
    ensures
        valid_samples(s.subrange(a, b)),
{
    assert forall|i: int| 0 <= i < s.subrange(a, b).len() implies abs_of(
        #[trigger] s.subrange(a, b)[i] as int,
    ) <= MAX_SAMPLE by {
        assert(s.subrange(a, b)[i] == s[a + i]);
    }
}

} // verus!
