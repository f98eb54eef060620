//! Channel reconciliation: converts an interleaved source stream of one or
//! two channels into the target mono or stereo layout. More than two source
//! channels are refused outright, never truncated.

use vstd::prelude::*;
use crate::errors::{err_spec, ErrorKind, PipelineError, Stage};
use crate::fixed::{div_trunc, div_trunc_i64};
use crate::{abs_of, valid_samples, MAX_SAMPLE};
use vstd::arithmetic::div_mod::lemma_div_is_ordered;

verus! {

/// Average of a left-right pair, truncated toward zero.
pub open spec fn mono_spec(left: int, right: int) -> int {
    div_trunc(left + right, 2)
}

/// Stereo pairs averaged into mono samples; an unpaired trailing sample
/// passes through alone.
pub open spec fn downmix_spec(s: Seq<i64>) -> Seq<i64> {
    Seq::new(
        ((s.len() + 1) / 2) as nat,
        |i: int|
            if 2 * i + 1 < s.len() {
                mono_spec(s[2 * i] as int, s[2 * i + 1] as int) as i64
            } else {
                s[2 * i]
            },
    )
}

/// Each mono sample duplicated into both channel slots.
pub open spec fn duplicate_spec(s: Seq<i64>) -> Seq<i64> {
    Seq::new((2 * s.len()) as nat, |i: int| s[i / 2])
}

/// The canonical stream for a source of `channels` channels under the
/// target layout: matching layouts pass through, mono is duplicated into
/// stereo, stereo is averaged into mono.
pub open spec fn reconcile_spec(s: Seq<i64>, channels: u16, stereo: bool) -> Seq<i64> {
    if channels == 1 {
        if stereo {
            duplicate_spec(s)
        } else {
            s
        }
    } else {
        if stereo {
            s
        } else {
            downmix_spec(s)
        }
    }
}

/// Averages a left-right pair into one mono sample.
pub fn mono(left: i64, right: i64) -> (m: i64)
    requires
        abs_of(left as int) <= MAX_SAMPLE as int,
        abs_of(right as int) <= MAX_SAMPLE as int,
    ensures
        m as int == mono_spec(left as int, right as int),
        abs_of(m as int) <= MAX_SAMPLE as int,
{
    let m = div_trunc_i64(left + right, 2);
    proof {
        if left + right >= 0 {
            lemma_div_is_ordered(left + right, 2 * MAX_SAMPLE as int, 2);
        } else {
            lemma_div_is_ordered(-(left + right) as int, 2 * MAX_SAMPLE as int, 2);
        }
    }
    m
}

/// Converts an interleaved source stream into the target layout. Fails with
/// an unsupported-channel error for more than two channels and with a format
/// error for a stream that declares none.
pub fn reconcile(samples: Vec<i64>, channels: u16, stereo: bool) -> (r: Result<
    Vec<i64>,
    PipelineError,
>)
    requires
        valid_samples(samples@),
    ensures
        channels == 1 || channels == 2 ==> (r matches Ok(v) && v@ == reconcile_spec(
            samples@,
            channels,
            stereo,
        ) && valid_samples(v@)),
        channels == 0 ==> r == Err::<Vec<i64>, PipelineError>(
            err_spec(Stage::Reconcile, ErrorKind::Format),
        ),
        channels > 2 ==> r == Err::<Vec<i64>, PipelineError>(
            err_spec(Stage::Reconcile, ErrorKind::UnsupportedChannels),
        ),
{
    if channels == 0 {
        Err(PipelineError::at(Stage::Reconcile, ErrorKind::Format))
    } else if channels > 2 {
        Err(PipelineError::at(Stage::Reconcile, ErrorKind::UnsupportedChannels))
    } else if channels == 1 && stereo {
        let n = samples.len();
        let mut r: Vec<i64> = Vec::new();
        let mut i: usize = 0;
        while i < n
            invariant
                n == samples.len(),
                valid_samples(samples@),
                i <= n,
                r@.len() == 2 * i,
                forall|j: int| 0 <= j < 2 * i ==> #[trigger] r@[j] == samples@[j / 2],
            decreases n - i,
        {
            let s = samples[i];
            r.push(s);
            r.push(s);
            i = i + 1;
        }
        proof {
            assert(r@ =~= duplicate_spec(samples@));
        }
        Ok(r)
    } else if channels == 2 && !stereo {
        let n = samples.len();
        let mut r: Vec<i64> = Vec::new();
        let mut i: usize = 0;
        while i + 1 < n
            invariant
                n == samples.len(),
                valid_samples(samples@),
                i % 2 == 0,
                i <= n,
                r@.len() == i / 2,
                valid_samples(r@),
                forall|j: int| 0 <= j < i / 2 ==> #[trigger] r@[j] == downmix_spec(samples@)[j],
            decreases n - i,
        {
            let m = mono(samples[i], samples[i + 1]);
            r.push(m);
            i = i + 2;
        }
        if i < n {
            r.push(samples[i]);
        }
        proof {
            assert(r@ =~= downmix_spec(samples@));
        }
        Ok(r)
    } else {
        // The source already has the target layout.
        Ok(samples)
    }
}

} // verus!
