//! The decision half of the resampler adapter. The external streaming
//! resampler itself works on floating-point blocks and is driven by the
//! caller; this module supplies the verified decisions around it: when a
//! stream needs resampling at all, how an input splits into fixed-size
//! blocks plus a final partial block, and how the resampler's known
//! trailing output delay is cut off.

use vstd::prelude::*;
use crate::config::Config;
use vstd::arithmetic::div_mod::{lemma_fundamental_div_mod, lemma_mod_pos_bound};
use vstd::arithmetic::mul::lemma_mul_is_commutative;

verus! {

/// True when the source rate differs from the configured target rate and
/// the stream has to go through the resampler.
pub fn needs_resample(src_rate: u32, cfg: &Config) -> (b: bool)
    ensures
        b == (src_rate != cfg.rate),
{
    src_rate != cfg.rate
}

/// Splits an input length into the number of full blocks of `block` frames
/// and the length of the final partial block.
pub fn split_blocks(len: usize, block: usize) -> (r: (usize, usize))
    requires
        block >= 1,
    ensures
        r.0 * block + r.1 == len,
        r.1 < block,
{
    let full = len / block;
    let rem = len % block;
    proof {
        lemma_fundamental_div_mod(len as int, block as int);
        lemma_mod_pos_bound(len as int, block as int);
        lemma_mul_is_commutative(full as int, block as int);
    }
    (full, rem)
}

/// Drops the resampler's trailing output delay from a resampled buffer.
pub fn trim_resampler_delay(samples: Vec<i64>, delay: usize) -> (r: Vec<i64>)
    requires
        delay <= samples.len(),
    ensures
        r@ == samples@.subrange(0, samples@.len() - delay),
{
    let n = samples.len();
    let mut v = samples;
    v.truncate(n - delay);
    v
}

} // verus!
