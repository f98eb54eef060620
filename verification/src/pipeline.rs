//! The per-file pipeline: channel reconciliation, silence trimming and peak
//! normalization, and its composition with the decoder adapter. Resampling,
//! when the native rate differs from the target, is the caller's step in
//! between; batch assembly and encoding follow in `encode`.

use vstd::prelude::*;
use crate::channels::{reconcile, reconcile_spec};
use crate::config::Config;
use crate::decode::{
    all_in_source_range, decode_seq_spec, decode_wav, wav_header_of, wav_int_samples_of,
    DecodedWav,
};
use crate::errors::{err_spec, ErrorKind, PipelineError, Stage};
use crate::fixed::supported_source_bits;
use crate::normalize::{normalize, normalize_spec};
use crate::trim::{
    leading_silence, lemma_leading_silence_bounds, lemma_trailing_silence_bounds,
    trailing_silence, trim_end, trim_end_spec, trim_start, trim_start_spec,
};
use crate::{lemma_valid_subrange, valid_samples};

verus! {

/// The canonical buffer for one file's fixed-point stream: reconciled to
/// the target layout, stripped of leading and trailing silence, then
/// peak-normalized.
pub open spec fn process_spec(s: Seq<i64>, channels: u16, cfg: Config) -> Seq<i64> {
    normalize_spec(
        trim_end_spec(
            trim_start_spec(reconcile_spec(s, channels, cfg.stereo), cfg.silence_threshold),
            cfg.silence_threshold,
        ),
    )
}

/// Runs channel reconciliation, silence trimming and peak normalization on
/// one file's fixed-point stream. Succeeds exactly for one- and two-channel
/// sources.
pub fn process_samples(samples: Vec<i64>, channels: u16, cfg: &Config) -> (r: Result<
    Vec<i64>,
    PipelineError,
>)
    requires
        cfg.wf(),
        valid_samples(samples@),
    ensures
        (channels == 1 || channels == 2) <==> r is Ok,
        r matches Ok(v) ==> v@ == process_spec(samples@, channels, *cfg) && valid_samples(v@),
        channels == 0 ==> r == Err::<Vec<i64>, PipelineError>(
            err_spec(Stage::Reconcile, ErrorKind::Format),
        ),
        channels > 2 ==> r == Err::<Vec<i64>, PipelineError>(
            err_spec(Stage::Reconcile, ErrorKind::UnsupportedChannels),
        ),
{
    let canonical = match reconcile(samples, channels, cfg.stereo) {
        Ok(v) => v,
        Err(e) => {
            return Err(e);
        },
    };
    let t = cfg.silence_threshold;
    let fronted = trim_start(&canonical, t);
    proof {
        lemma_leading_silence_bounds(canonical@, t);
        lemma_valid_subrange(canonical@, leading_silence(canonical@, t), canonical@.len() as int);
    }
    let trimmed = trim_end(fronted, t);
    proof {
        let f = trim_start_spec(canonical@, t);
        lemma_trailing_silence_bounds(f, t);
        lemma_valid_subrange(f, 0, f.len() - trailing_silence(f, t));
    }
    Ok(normalize(trimmed))
}

/// What preparing one input yields: the processed buffer for an integer
/// container, or the bare layout of a float-format container whose samples
/// the caller converts to fixed point before calling `process_samples`
/// itself.
#[derive(Debug)]
pub enum PreparedInput {
    Ready { samples: Vec<i64>, rate: u32 },
    FloatFormat { channels: u16, rate: u32 },
}

/// Decodes one container and runs the per-file pipeline on it: decode,
/// reconcile, trim, normalize. It succeeds on exactly the well-formed
/// containers that are float-format or have one or two channels; resampling
/// to the target rate is left to the caller when the returned native rate
/// differs.
pub fn prepare_wav(bytes: &Vec<u8>, cfg: &Config) -> (r: Result<PreparedInput, PipelineError>)
    requires
        cfg.wf(),
    ensures
        wav_header_of(bytes@) is None ==> r == Err::<PreparedInput, PipelineError>(
            err_spec(Stage::Decode, ErrorKind::Format),
        ),
        r matches Ok(d) ==> wav_header_of(bytes@) is Some,
        wav_header_of(bytes@) matches Some(h) ==> (h.3 ==> r == Ok::<
            PreparedInput,
            PipelineError,
        >(PreparedInput::FloatFormat { channels: h.0, rate: h.1 })),
        r matches Ok(PreparedInput::FloatFormat { channels, rate }) ==> {
            let h = wav_header_of(bytes@)->Some_0;
            h.3 && channels == h.0 && rate == h.1
        },
        r matches Ok(PreparedInput::Ready { samples, rate }) ==> {
            let h = wav_header_of(bytes@)->Some_0;
            &&& !h.3
            &&& rate == h.1
            &&& (h.0 == 1 || h.0 == 2)
            &&& supported_source_bits(h.2)
            &&& wav_int_samples_of(bytes@) is Some
            &&& samples@ == process_spec(
                decode_seq_spec(wav_int_samples_of(bytes@)->Some_0, h.2),
                h.0,
                *cfg,
            )
            &&& valid_samples(samples@)
        },
        ({
            let h = wav_header_of(bytes@);
            let raw = wav_int_samples_of(bytes@);
            r is Ok <==> (h is Some && (h->Some_0.3 || ((h->Some_0.0 == 1 || h->Some_0.0 == 2)
                && supported_source_bits(h->Some_0.2) && raw is Some && all_in_source_range(
                raw->Some_0,
                h->Some_0.2,
            ))))
        }),
        r matches Err(e) ==> ((e.stage == Stage::Decode && e.kind == ErrorKind::Format) || (
        e.stage == Stage::Reconcile && (e.kind == ErrorKind::Format || e.kind
            == ErrorKind::UnsupportedChannels))),
        r matches Err(e) ==> (e.stage == Stage::Reconcile ==> {
            let h = wav_header_of(bytes@)->Some_0;
            &&& (h.0 == 0 || h.0 > 2)
            &&& (e.kind == ErrorKind::UnsupportedChannels <==> h.0 > 2)
            &&& (e.kind == ErrorKind::Format <==> h.0 == 0)
        }),
{
    let d = match decode_wav(bytes) {
        Ok(d) => d,
        Err(e) => {
            return Err(e);
        },
    };
    match d {
        DecodedWav::Float { channels, rate } => Ok(
            PreparedInput::FloatFormat { channels, rate },
        ),
        DecodedWav::Pcm { channels, rate, samples } => {
            let processed = match process_samples(samples, channels, cfg) {
                Ok(v) => v,
                Err(e) => {
                    return Err(e);
                },
            };
            Ok(PreparedInput::Ready { samples: processed, rate })
        },
    }
}

} // verus!
