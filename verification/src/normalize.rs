//! Peak normalization: one pass finds the largest magnitude, a second pass
//! rescales every sample so the peak lands exactly on full scale. An
//! all-zero or empty buffer passes through unchanged instead of dividing by
//! zero.

use vstd::prelude::*;
use crate::fixed::{div_trunc, div_trunc_i64};
use crate::{abs_of, valid_samples, FULL_SCALE, MAX_SAMPLE};
use vstd::arithmetic::div_mod::{
    lemma_div_is_ordered, lemma_div_multiples_vanish, lemma_div_pos_is_pos,
};

verus! {

/// Peak magnitude of a buffer; zero when the buffer is empty.
pub open spec fn peak_of(s: Seq<i64>) -> int
    decreases s.len(),
{
    if s.len() == 0 {
        0
    } else {
        let p = peak_of(s.drop_last());
        let a = abs_of(s.last() as int);
        if a > p {
            a
        } else {
            p
        }
    }
}

/// One sample rescaled so a magnitude of `peak` maps to full scale,
/// truncated toward zero.
pub open spec fn scale_spec(x: int, peak: int) -> int {
    div_trunc(x * FULL_SCALE, peak)
}

/// A buffer after peak normalization: a silent or empty buffer passes
/// unchanged, otherwise every sample is scaled by full scale over the peak.
pub open spec fn normalize_spec(s: Seq<i64>) -> Seq<i64> {
    if peak_of(s) == 0 {
        s
    } else {
        Seq::new(s.len(), |i: int| scale_spec(s[i] as int, peak_of(s)) as i64)
    }
}

/// The peak bounds every sample's magnitude and is attained by one of them.
pub proof fn lemma_peak_bounds(s: Seq<i64>)
    ensures
        peak_of(s) >= 0,
        forall|i: int| 0 <= i < s.len() ==> abs_of(#[trigger] s[i] as int) <= peak_of(s),
        s.len() > 0 ==> exists|i: int|
            0 <= i < s.len() && abs_of(#[trigger] s[i] as int) == peak_of(s),
    decreases s.len(),
{
    if s.len() > 0 {
        lemma_peak_bounds(s.drop_last());
        let d = s.drop_last();
        assert forall|i: int| 0 <= i < s.len() implies abs_of(#[trigger] s[i] as int) <= peak_of(
            s,
        ) by {
            if i < s.len() - 1 {
                assert(d[i] == s[i]);
                assert(abs_of(d[i] as int) <= peak_of(d));
            }
        }
        if abs_of(s.last() as int) > peak_of(d) {
            assert(abs_of(s[s.len() - 1] as int) == peak_of(s));
        } else {
            if d.len() > 0 {
                let w = choose|i: int| 0 <= i < d.len() && abs_of(#[trigger] d[i] as int)
                    == peak_of(d);
                assert(abs_of(s[w] as int) == peak_of(s));
            }
        }
    }
}

/// A value that bounds all magnitudes and is attained is the peak.
pub proof fn lemma_peak_is(s: Seq<i64>, v: int)
    requires
        forall|i: int| 0 <= i < s.len() ==> abs_of(#[trigger] s[i] as int) <= v,
        exists|i: int| 0 <= i < s.len() && abs_of(#[trigger] s[i] as int) == v,
    ensures
        peak_of(s) == v,
{
    lemma_peak_bounds(s);
    let w = choose|i: int| 0 <= i < s.len() && abs_of(#[trigger] s[i] as int) == v;
    assert(abs_of(s[w] as int) <= peak_of(s));
    let u = choose|i: int|
        0 <= i < s.len() && abs_of(#[trigger] s[i] as int) == peak_of(s);
    assert(abs_of(s[u] as int) <= v);
}

/// Finds the peak magnitude of a buffer in a single pass.
pub fn peak(samples: &Vec<i64>) -> (p: i64)
    requires
        valid_samples(samples@),
    ensures
        p as int == peak_of(samples@),
        0 <= p <= MAX_SAMPLE,
{
    let n = samples.len();
    let mut p: i64 = 0;
    let mut i: usize = 0;
    while i < n
        invariant
            n == samples.len(),
            valid_samples(samples@),
            i <= n,
            p as int == peak_of(samples@.subrange(0, i as int)),
            0 <= p <= MAX_SAMPLE,
        decreases n - i,
    {
        let s = samples[i];
        let a: i64 = if s < 0 {
            -s
        } else {
            s
        };
        if a > p {
            p = a;
        }
        i = i + 1;
        proof {
            let pre = samples@.subrange(0, i - 1);
            let cur = samples@.subrange(0, i as int);
            assert(cur.drop_last() =~= pre);
        }
    }
    proof {
        assert(samples@.subrange(0, n as int) =~= samples@);
    }
    p
}

/// The scaled sample keeps the sign of the input, has magnitude at most full
/// scale when the input is within the peak, and reaches full scale exactly
/// at the peak.
proof fn lemma_scale_bounds(x: int, p: int)
    requires
        1 <= p,
        abs_of(x) <= p,
    ensures
        abs_of(scale_spec(x, p)) <= FULL_SCALE as int,
        abs_of(x) == p ==> abs_of(scale_spec(x, p)) == FULL_SCALE as int,
{
    lemma_div_multiples_vanish(FULL_SCALE as int, p);
    assert(p * FULL_SCALE as int == FULL_SCALE as int * p) by {
        vstd::arithmetic::mul::lemma_mul_is_commutative(p, FULL_SCALE as int);
    }
    if x >= 0 {
        lemma_div_pos_is_pos(x * FULL_SCALE, p);
        lemma_div_is_ordered(x * FULL_SCALE, p * FULL_SCALE as int, p);
    } else {
        lemma_div_pos_is_pos(-x * FULL_SCALE, p);
        lemma_div_is_ordered(-x * FULL_SCALE, p * FULL_SCALE as int, p);
        assert(-x * FULL_SCALE == -(x * FULL_SCALE)) by {
            vstd::arithmetic::mul::lemma_mul_unary_negation(x, FULL_SCALE as int);
        }
    }
}

/// Rescales the whole buffer so its peak magnitude becomes exactly full
/// scale; a silent or empty buffer is returned unchanged.
pub fn normalize(samples: Vec<i64>) -> (r: Vec<i64>)
    requires
        valid_samples(samples@),
    ensures
        r@ == normalize_spec(samples@),
        valid_samples(r@),
        peak_of(samples@) == 0 ==> r@ == samples@,
{
    let p = peak(&samples);
    if p == 0 {
        return samples;
    }
    let ghost orig = samples@;
    let n = samples.len();
    let mut v = samples;
    let mut i: usize = 0;
    while i < n
        invariant
            n == v.len(),
            orig.len() == n,
            valid_samples(orig),
            1 <= p <= MAX_SAMPLE,
            p as int == peak_of(orig),
            i <= n,
            forall|j: int| i <= j < n ==> #[trigger] v@[j] == orig[j],
            forall|j: int| 0 <= j < i ==> #[trigger] v@[j] as int == scale_spec(
                orig[j] as int,
                p as int,
            ),
        decreases n - i,
    {
        let x = v[i];
        assert(abs_of(x as int) <= p as int) by {
            lemma_peak_bounds(orig);
        }
        let y = div_trunc_i64(x * FULL_SCALE, p);
        proof {
            lemma_scale_bounds(x as int, p as int);
        }
        v.set(i, y);
        i = i + 1;
    }
    proof {
        lemma_peak_bounds(orig);
        assert(forall|j: int|
            0 <= j < n ==> abs_of(#[trigger] normalize_spec(orig)[j] as int) <= FULL_SCALE as int)
            by {
            assert forall|j: int| 0 <= j < n implies abs_of(
                #[trigger] normalize_spec(orig)[j] as int,
            ) <= FULL_SCALE as int by {
                lemma_scale_bounds(orig[j] as int, p as int);
            }
        }
        assert(v@ =~= normalize_spec(orig));
    }
    v
}

/// After normalizing a non-silent buffer, the peak magnitude is exactly
/// full scale: the loudest sample maps to plus or minus full scale and no
/// sample exceeds it.
pub proof fn lemma_normalize_peak(s: Seq<i64>)
    requires
        valid_samples(s),
        peak_of(s) != 0,
    ensures
        peak_of(normalize_spec(s)) == FULL_SCALE as int,
{
    lemma_peak_bounds(s);
    let p = peak_of(s);
    let r = normalize_spec(s);
    assert forall|i: int| 0 <= i < r.len() implies abs_of(#[trigger] r[i] as int)
        <= FULL_SCALE as int by {
        lemma_scale_bounds(s[i] as int, p);
    }
    let w = choose|i: int| 0 <= i < s.len() && abs_of(#[trigger] s[i] as int) == p;
    assert(abs_of(r[w] as int) == FULL_SCALE as int) by {
        lemma_scale_bounds(s[w] as int, p);
    }
    lemma_peak_is(r, FULL_SCALE as int);
}

} // verus!
