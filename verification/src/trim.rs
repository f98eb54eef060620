//! Silence trimming. The leading scan removes samples whose magnitude is
//! strictly below the threshold; the trailing scan removes samples whose raw
//! signed value is strictly below the threshold. The asymmetry (magnitude at
//! the front, raw value at the back) is deliberate, observable behaviour.

use vstd::prelude::*;
use crate::abs_of;

verus! {

/// Number of leading samples whose magnitude is strictly below `t`.
pub open spec fn leading_silence(s: Seq<i64>, t: i64) -> int
    decreases s.len(),
{
    if s.len() == 0 {
        0
    } else if abs_of(s[0] as int) < t {
        1 + leading_silence(s.drop_first(), t)
    } else {
        0
    }
}

/// Number of trailing samples whose raw signed value is strictly below `t`.
pub open spec fn trailing_silence(s: Seq<i64>, t: i64) -> int
    decreases s.len(),
{
    if s.len() == 0 {
        0
    } else if s.last() < t {
        1 + trailing_silence(s.drop_last(), t)
    } else {
        0
    }
}

/// The buffer with its leading silence removed.
pub open spec fn trim_start_spec(s: Seq<i64>, t: i64) -> Seq<i64> {
    s.subrange(leading_silence(s, t), s.len() as int)
}

/// The buffer with its trailing silence removed.
pub open spec fn trim_end_spec(s: Seq<i64>, t: i64) -> Seq<i64> {
    s.subrange(0, s.len() - trailing_silence(s, t))
}

/// `leading_silence` is the index of the first loud sample: everything
/// before it is below the threshold in magnitude, and the sample there, if
/// any, is not.
pub proof fn lemma_leading_silence_bounds(s: Seq<i64>, t: i64)
    ensures
        0 <= leading_silence(s, t) <= s.len(),
        forall|j: int| 0 <= j < leading_silence(s, t) ==> abs_of(#[trigger] s[j] as int) < t,
        leading_silence(s, t) < s.len() ==> abs_of(s[leading_silence(s, t)] as int) >= t,
    decreases s.len(),
{
    if s.len() > 0 && abs_of(s[0] as int) < t {
        let d = s.drop_first();
        lemma_leading_silence_bounds(d, t);
        assert forall|j: int| 0 <= j < leading_silence(s, t) implies abs_of(
            #[trigger] s[j] as int,
        ) < t by {
            if j > 0 {
                assert(d[j - 1] == s[j]);
                assert(abs_of(d[j - 1] as int) < t);
            }
        }
        if leading_silence(s, t) < s.len() {
            assert(s[leading_silence(s, t)] == d[leading_silence(d, t)]);
        }
    }
}

/// An index with silence before it and a loud sample (or the end) at it is
/// exactly `leading_silence`.
pub proof fn lemma_leading_silence_is(s: Seq<i64>, t: i64, k: int)
    requires
        0 <= k <= s.len(),
        forall|j: int| 0 <= j < k ==> abs_of(#[trigger] s[j] as int) < t,
        k < s.len() ==> abs_of(s[k] as int) >= t,
    ensures
        leading_silence(s, t) == k,
    decreases s.len(),
{
    if k == 0 {
        // Either the buffer is empty or its first sample is loud.
    } else {
        assert(abs_of(s[0] as int) < t);
        let d = s.drop_first();
        assert(forall|j: int| 0 <= j < k - 1 ==> #[trigger] d[j] == s[j + 1]);
        assert(k - 1 < d.len() ==> d[k - 1] == s[k]);
        lemma_leading_silence_is(d, t, k - 1);
    }
}

/// The trailing-silence count never exceeds the buffer length.
pub proof fn lemma_trailing_silence_bounds(s: Seq<i64>, t: i64)
    ensures
        0 <= trailing_silence(s, t) <= s.len(),
    decreases s.len(),
{
    if s.len() > 0 && s.last() < t {
        lemma_trailing_silence_bounds(s.drop_last(), t);
    }
}

/// A cut with silence after it and a sample at or above the threshold (or
/// the start) just before it leaves exactly `trailing_silence` samples off.
pub proof fn lemma_trailing_silence_is(s: Seq<i64>, t: i64, m: int)
    requires
        0 <= m <= s.len(),
        forall|j: int| m <= j < s.len() ==> #[trigger] s[j] < t,
        m > 0 ==> s[m - 1] >= t,
    ensures
        trailing_silence(s, t) == s.len() - m,
    decreases s.len(),
{
    if m == s.len() {
        // Either the buffer is empty or it ends with a loud sample.
    } else {
        assert(s.last() < t);
        let d = s.drop_last();
        assert(forall|j: int| 0 <= j < d.len() ==> #[trigger] d[j] == s[j]);
        lemma_trailing_silence_is(d, t, m);
    }
}

/// Removes leading samples whose magnitude is strictly below the threshold.
pub fn trim_start(samples: &Vec<i64>, threshold: i64) -> (r: Vec<i64>)
    requires
        threshold >= 0,
    ensures
        r@ == trim_start_spec(samples@, threshold),
{
    let n = samples.len();
    let mut k: usize = 0;
    loop
        invariant
            threshold >= 0,
            n == samples.len(),
            k <= n,
            forall|j: int| 0 <= j < k ==> abs_of(#[trigger] samples@[j] as int) < threshold,
        ensures
            k <= n,
            forall|j: int| 0 <= j < k ==> abs_of(#[trigger] samples@[j] as int) < threshold,
            k < n ==> abs_of(samples@[k as int] as int) >= threshold,
        decreases n - k,
    {
        if k >= n {
            break;
        }
        let s = samples[k];
        if s <= -threshold || s >= threshold {
            break;
        }
        k = k + 1;
    }
    let mut r: Vec<i64> = Vec::new();
    let mut i: usize = k;
    while i < n
        invariant
            n == samples.len(),
            k <= i <= n,
            r@ == samples@.subrange(k as int, i as int),
        decreases n - i,
    {
        r.push(samples[i]);
        i = i + 1;
        assert(r@ =~= samples@.subrange(k as int, i as int));
    }
    proof {
        lemma_leading_silence_is(samples@, threshold, k as int);
    }
    r
}

/// Removes trailing samples whose raw signed value is strictly below the
/// threshold.
pub fn trim_end(samples: Vec<i64>, threshold: i64) -> (r: Vec<i64>)
    ensures
        r@ == trim_end_spec(samples@, threshold),
{
    let ghost orig = samples@;
    let n = samples.len();
    let mut m: usize = n;
    loop
        invariant
            n == samples.len(),
            m <= n,
            forall|j: int| m <= j < n ==> #[trigger] samples@[j] < threshold,
        ensures
            m <= n,
            forall|j: int| m <= j < n ==> #[trigger] samples@[j] < threshold,
            m > 0 ==> samples@[m - 1] >= threshold,
        decreases m,
    {
        if m == 0 {
            break;
        }
        if samples[m - 1] >= threshold {
            break;
        }
        m = m - 1;
    }
    proof {
        lemma_trailing_silence_is(samples@, threshold, m as int);
    }
    let mut r = samples;
    r.truncate(m);
    r
}

} // verus!
