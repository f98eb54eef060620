//! Batch assembly: pads every processed buffer with trailing zeros to the
//! length of the longest one and concatenates them, one equal-length segment
//! per input, in input order.

use vstd::prelude::*;
use crate::{valid_samples, MAX_SAMPLE};
use vstd::arithmetic::div_mod::lemma_fundamental_div_mod_converse;
use vstd::arithmetic::mul::{
    lemma_mul_inequality, lemma_mul_is_commutative, lemma_mul_is_distributive_add_other_way,
    lemma_mul_nonnegative,
};

verus! {

/// The sequence of views of a batch of buffers.
pub open spec fn views(b: Seq<Vec<i64>>) -> Seq<Seq<i64>> {
    Seq::new(b.len(), |i: int| b[i]@)
}

/// Every buffer of a batch is within the pipeline's headroom bound.
pub open spec fn valid_batch(b: Seq<Seq<i64>>) -> bool {
    forall|f: int| 0 <= f < b.len() ==> valid_samples(#[trigger] b[f])
}

/// Length of the longest buffer of a batch; zero for an empty batch.
pub open spec fn max_len_of(b: Seq<Seq<i64>>) -> int
    decreases b.len(),
{
    if b.len() == 0 {
        0
    } else {
        let m = max_len_of(b.drop_last());
        if b.last().len() > m {
            b.last().len() as int
        } else {
            m
        }
    }
}

/// A buffer extended with trailing zero samples to length `n`.
pub open spec fn pad_spec(s: Seq<i64>, n: int) -> Seq<i64> {
    Seq::new(n as nat, |i: int| if i < s.len() { s[i] } else { 0i64 })
}

/// The batch flattened into one buffer of `b.len()` equal-length segments:
/// position `i` holds sample `i % m` of buffer `i / m` padded to the longest
/// length `m`.
pub open spec fn assemble_spec(b: Seq<Seq<i64>>) -> Seq<i64> {
    Seq::new(
        (b.len() * max_len_of(b)) as nat,
        |i: int| pad_spec(b[i / max_len_of(b)], max_len_of(b))[i % max_len_of(b)],
    )
}

/// The longest length bounds every buffer and is attained by one of them
/// when the batch is not empty.
pub proof fn lemma_max_len_bounds(b: Seq<Seq<i64>>)
    ensures
        max_len_of(b) >= 0,
        forall|f: int| 0 <= f < b.len() ==> (#[trigger] b[f]).len() <= max_len_of(b),
        b.len() > 0 ==> exists|f: int| 0 <= f < b.len() && (#[trigger] b[f]).len() == max_len_of(b),
    decreases b.len(),
{
    if b.len() > 0 {
        let d = b.drop_last();
        lemma_max_len_bounds(d);
        assert forall|f: int| 0 <= f < b.len() implies (#[trigger] b[f]).len() <= max_len_of(b) by {
            if f < b.len() - 1 {
                assert(d[f] == b[f]);
                assert(d[f].len() <= max_len_of(d));
            }
        }
        if b.last().len() > max_len_of(d) {
            assert(b[b.len() - 1].len() == max_len_of(b));
        } else if d.len() > 0 {
            let w = choose|f: int|
                0 <= f < d.len() && (#[trigger] d[f]).len() == max_len_of(d);
            assert(b[w].len() == max_len_of(b));
        } else {
            assert(b[b.len() - 1].len() == max_len_of(b));
        }
    }
}

/// Finds the longest buffer length of a batch; zero for an empty batch.
pub fn max_len(batch: &Vec<Vec<i64>>) -> (m: usize)
    ensures
        m as int == max_len_of(views(batch@)),
{
    let n = batch.len();
    let mut m: usize = 0;
    let mut f: usize = 0;
    while f < n
        invariant
            n == batch.len(),
            f <= n,
            m as int == max_len_of(views(batch@).subrange(0, f as int)),
        decreases n - f,
    {
        let l = batch[f].len();
        if l > m {
            m = l;
        }
        f = f + 1;
        proof {
            let pre = views(batch@).subrange(0, f - 1);
            let cur = views(batch@).subrange(0, f as int);
            assert(cur.drop_last() =~= pre);
            assert(cur.last() == batch@[f - 1]@);
        }
    }
    proof {
        assert(views(batch@).subrange(0, n as int) =~= views(batch@));
    }
    m
}

/// Pads every buffer of the batch with trailing zeros to the longest length
/// and concatenates them in order.
pub fn assemble(batch: &Vec<Vec<i64>>) -> (r: Vec<i64>)
    requires
        valid_batch(views(batch@)),
    ensures
        r@ == assemble_spec(views(batch@)),
        valid_samples(r@),
{
    let ghost b = views(batch@);
    let m = max_len(batch);
    proof {
        lemma_max_len_bounds(b);
    }
    let n = batch.len();
    let mut r: Vec<i64> = Vec::new();
    let mut f: usize = 0;
    while f < n
        invariant
            n == batch.len(),
            b == views(batch@),
            valid_batch(b),
            m as int == max_len_of(b),
            f <= n,
            r@.len() == f * m,
            forall|i: int| 0 <= i < f * m ==> #[trigger] r@[i] == assemble_spec(b)[i],
            valid_samples(r@),
        decreases n - f,
    {
        let buf = &batch[f];
        let mut j: usize = 0;
        while j < m
            invariant
                n == batch.len(),
                b == views(batch@),
                valid_batch(b),
                m as int == max_len_of(b),
                f < n,
                buf == &batch@[f as int],
                j <= m,
                r@.len() == f * m + j,
                forall|i: int| 0 <= i < f * m + j ==> #[trigger] r@[i] == assemble_spec(b)[i],
                valid_samples(r@),
            decreases m - j,
        {
            let x: i64 = if j < buf.len() {
                buf[j]
            } else {
                0
            };
            r.push(x);
            proof {
                lemma_mul_nonnegative(f as int, m as int);
                lemma_mul_inequality(f as int + 1, n as int, m as int);
                assert((f + 1) * m == f * m + m) by {
                    lemma_mul_is_distributive_add_other_way(m as int, f as int, 1);
                }
                lemma_fundamental_div_mod_converse(
                    f * m + j,
                    m as int,
                    f as int,
                    j as int,
                );
                assert(0 <= f * m + j < n * m);
                assert(b[f as int] == buf@);
                assert(assemble_spec(b)[f * m + j] == pad_spec(b[f as int], m as int)[j as int]);
                assert(x == assemble_spec(b)[f * m + j]);
                assert(crate::abs_of(x as int) <= MAX_SAMPLE as int);
            }
            j = j + 1;
        }
        proof {
            assert((f + 1) * m == f * m + m) by {
                lemma_mul_is_distributive_add_other_way(m as int, f as int, 1);
            }
        }
        f = f + 1;
    }
    proof {
        lemma_mul_is_commutative(n as int, m as int);
        assert(r@ =~= assemble_spec(b));
    }
    r
}

/// Assembly yields one segment per input buffer, all of the longest length:
/// segment `f` of the assembled output is buffer `f` padded with trailing
/// zeros to the longest length.
pub proof fn lemma_assemble_segments(b: Seq<Seq<i64>>)
    ensures
        assemble_spec(b).len() == b.len() * max_len_of(b),
        forall|f: int| 0 <= f < b.len() ==> (#[trigger] b[f]).len() <= max_len_of(b),
        forall|f: int|
            0 <= f < b.len() ==> #[trigger] assemble_spec(b).subrange(
                f * max_len_of(b),
                (f + 1) * max_len_of(b),
            ) =~= pad_spec(b[f], max_len_of(b)),
{
    lemma_max_len_bounds(b);
    let m = max_len_of(b);
    lemma_mul_nonnegative(b.len() as int, m);
    assert forall|f: int|
        0 <= f < b.len() implies #[trigger] assemble_spec(b).subrange(
        f * m,
        (f + 1) * m,
    ) =~= pad_spec(b[f], m) by {
        lemma_mul_nonnegative(f, m);
        lemma_mul_inequality(f + 1, b.len() as int, m);
        assert((f + 1) * m == f * m + m) by {
            lemma_mul_is_distributive_add_other_way(m, f, 1);
        }
        if m > 0 {
            assert forall|j: int| 0 <= j < m implies assemble_spec(b)[f * m + j] == pad_spec(
                b[f],
                m,
            )[j] by {
                lemma_fundamental_div_mod_converse(f * m + j, m, f, j);
                assert(0 <= f * m + j < b.len() * m);
            }
        }
    }
}

} // verus!
