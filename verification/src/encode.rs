//! The encoder adapter: quantizes the assembled batch to signed fixed-point
//! codes at the configured bit depth and writes them through the external
//! container writer into one byte buffer.

use vstd::prelude::*;
use crate::assemble::{assemble, assemble_spec, valid_batch, views};
use crate::config::Config;
use crate::errors::{err_spec, ErrorKind, PipelineError, Stage};
use crate::fixed::{in_source_range, quantize_sample, quantize_spec};
use crate::valid_samples;

verus! {

/// The byte buffer hound's container writer produces for the given header
/// fields and integer samples; writing is a pure function of them.
pub uninterp spec fn wav_bytes_of(channels: u16, rate: u32, bits: u16, samples: Seq<i32>) -> Seq<
    u8,
>;

/// Relies on hound's `WavWriter::new`, `write_sample` and `finalize` over an
/// in-memory cursor: they deterministically serialize the declared header
/// (integer PCM format) and the given samples into one byte buffer. Writes
/// to the cursor cannot fail, and the preconditions keep hound off its
/// panicking paths (a zero rate or zero channel count, a byte rate or data
/// size past the container's 32-bit fields) and off per-sample `TooWide`
/// errors (every code fits its declared width), so by hound's own source
/// the one remaining failure is `UnfinishedSample` from `finalize`, raised
/// exactly when the sample count is not a multiple of the channel count.
#[verifier::external_body]
fn write_wav(channels: u16, rate: u32, bits: u16, samples: &Vec<i32>) -> (r: Result<
    Vec<u8>,
    PipelineError,
>)
    requires
        1 <= rate,
        channels == 1 || channels == 2,
        bits == 16 || bits == 24,
        rate as int * channels as int * ((bits as int + 7) / 8) <= u32::MAX as int,
        samples@.len() * ((bits as int + 7) / 8) + 68 <= u32::MAX as int,
        forall|i: int|
            0 <= i < samples@.len() ==> in_source_range(#[trigger] samples@[i] as int, bits),
    ensures
        r is Ok <==> samples@.len() as int % (channels as int) == 0,
        r matches Ok(bytes) ==> bytes@ == wav_bytes_of(channels, rate, bits, samples@),
        r matches Err(e) ==> e == err_spec(Stage::Encode, ErrorKind::Format),
{
    let spec = hound::WavSpec {
        channels,
        sample_rate: rate,
        bits_per_sample: bits,
        sample_format: hound::SampleFormat::Int,
    };
    let failed = PipelineError { stage: Stage::Encode, kind: ErrorKind::Format };
    let mut cursor = std::io::Cursor::new(Vec::new());
    let mut writer = hound::WavWriter::new(&mut cursor, spec).map_err(|_| failed)?;
    for s in samples.iter() {
        writer.write_sample(*s).map_err(|_| failed)?;
    }
    writer.finalize().map_err(|_| failed)?;
    Ok(cursor.into_inner())
}

/// Every sample of the buffer quantized at the given bit depth.
pub open spec fn quantize_seq(s: Seq<i64>, bits: u16) -> Seq<i32> {
    Seq::new(s.len(), |i: int| quantize_spec(s[i] as int, bits) as i32)
}

/// Quantizes a whole buffer at the given bit depth.
pub fn quantize_buffer(samples: &Vec<i64>, bits: u16) -> (r: Vec<i32>)
    requires
        bits == 16 || bits == 24,
        valid_samples(samples@),
    ensures
        r@ == quantize_seq(samples@, bits),
{
    let n = samples.len();
    let mut r: Vec<i32> = Vec::new();
    let mut i: usize = 0;
    while i < n
        invariant
            n == samples.len(),
            valid_samples(samples@),
            bits == 16 || bits == 24,
            i <= n,
            r@.len() == i,
            forall|j: int| 0 <= j < i ==> #[trigger] r@[j] as int == quantize_spec(
                samples@[j] as int,
                bits,
            ),
        decreases n - i,
    {
        let q = quantize_sample(samples[i], bits);
        r.push(q);
        i = i + 1;
    }
    proof {
        assert(r@ =~= quantize_seq(samples@, bits));
    }
    r
}

/// Assembles the batch into equal-length segments, quantizes it at the
/// configured bit depth, and writes the container. A bit depth other than
/// 16 or 24 is refused before anything is written; otherwise the write
/// succeeds exactly when the assembled sample count fills whole frames of
/// the configured layout.
pub fn encode_batch(batch: &Vec<Vec<i64>>, cfg: &Config) -> (r: Result<Vec<u8>, PipelineError>)
    requires
        cfg.wf(),
        valid_batch(views(batch@)),
        (cfg.bits_per_sample == 16 || cfg.bits_per_sample == 24) ==> cfg.rate as int
            * cfg.spec_channels() as int * ((cfg.bits_per_sample as int + 7) / 8)
            <= u32::MAX as int,
        (cfg.bits_per_sample == 16 || cfg.bits_per_sample == 24) ==> assemble_spec(
            views(batch@),
        ).len() * ((cfg.bits_per_sample as int + 7) / 8) + 68 <= u32::MAX as int,
    ensures
        !(cfg.bits_per_sample == 16 || cfg.bits_per_sample == 24) <==> r == Err::<
            Vec<u8>,
            PipelineError,
        >(err_spec(Stage::Encode, ErrorKind::UnsupportedBitDepth)),
        (cfg.bits_per_sample == 16 || cfg.bits_per_sample == 24) ==> (r is Ok <==> assemble_spec(
            views(batch@),
        ).len() as int % (cfg.spec_channels() as int) == 0),
        r matches Ok(bytes) ==> bytes@ == wav_bytes_of(
            cfg.spec_channels(),
            cfg.rate,
            cfg.bits_per_sample,
            quantize_seq(assemble_spec(views(batch@)), cfg.bits_per_sample),
        ),
        (cfg.bits_per_sample == 16 || cfg.bits_per_sample == 24) && assemble_spec(
            views(batch@),
        ).len() as int % (cfg.spec_channels() as int) != 0 ==> r == Err::<Vec<u8>, PipelineError>(
            err_spec(Stage::Encode, ErrorKind::Format),
        ),
        r matches Err(e) ==> e.stage == Stage::Encode,
{
    let bits = cfg.bits_per_sample;
    if !(bits == 16 || bits == 24) {
        return Err(PipelineError::at(Stage::Encode, ErrorKind::UnsupportedBitDepth));
    }
    let merged = assemble(batch);
    let codes = quantize_buffer(&merged, bits);
    proof {
        assert forall|i: int| 0 <= i < codes@.len() implies in_source_range(
            #[trigger] codes@[i] as int,
            bits,
        ) by {
            assert(codes@[i] as int == quantize_spec(merged@[i] as int, bits));
        }
    }
    write_wav(cfg.channels(), cfg.rate, bits, &codes)
}

} // verus!
