//! The decoder adapter: reads a WAV-style container from a byte buffer
//! through the external reader, and maps integer samples into fixed point.
//! Float-format containers are recognized and handed back undecoded, since
//! their samples live outside the fixed-point model.

use vstd::prelude::*;
use crate::errors::{err_spec, ErrorKind, PipelineError, Stage};
use crate::fixed::{
    decode_int_sample, decode_int_sample_spec, in_source_range, source_full_scale,
    supported_source_bits,
};
use crate::{abs_of, valid_samples, FULL_SCALE};

verus! {

/// The header a byte buffer declares, when it parses as a WAV-style
/// container: channel count, sample rate, bits per sample, and whether the
/// samples are IEEE float rather than integer PCM. Parsing is a pure
/// function of the bytes.
pub uninterp spec fn wav_header_of(bytes: Seq<u8>) -> Option<(u16, u32, u16, bool)>;

/// The interleaved integer samples hound reads from a byte buffer as
/// declared-width signed integers: a pure function of the bytes, `None`
/// exactly when the read fails (a malformed container, a float format, or a
/// sample that cannot be decoded).
pub uninterp spec fn wav_int_samples_of(bytes: Seq<u8>) -> Option<Seq<i64>>;

/// The declared layout of a parsed container.
pub struct WavHeader {
    pub channels: u16,
    pub rate: u32,
    pub bits: u16,
    pub float_format: bool,
}

/// Relies on hound's `WavReader::new` and `spec()`: parsing the header of
/// an in-memory byte buffer is deterministic, and fails exactly on buffers
/// that are not a well-formed supported container.
#[verifier::external_body]
fn read_wav_header(bytes: &Vec<u8>) -> (r: Result<WavHeader, PipelineError>)
    ensures
        r matches Ok(h) ==> wav_header_of(bytes@) == Some(
            (h.channels, h.rate, h.bits, h.float_format),
        ),
        r matches Err(e) ==> wav_header_of(bytes@) is None && e == err_spec(
            Stage::Decode,
            ErrorKind::Format,
        ),
{
    match hound::WavReader::new(std::io::Cursor::new(bytes.as_slice())) {
        Ok(reader) => {
            let spec = reader.spec();
            Ok(WavHeader {
                channels: spec.channels,
                rate: spec.sample_rate,
                bits: spec.bits_per_sample,
                float_format: spec.sample_format == hound::SampleFormat::Float,
            })
        },
        Err(_) => Err(PipelineError { stage: Stage::Decode, kind: ErrorKind::Format }),
    }
}

/// Relies on hound's `into_samples::<i32>`: reading an in-memory buffer is
/// deterministic, in its samples and in whether it succeeds at all, so the
/// read returns exactly the named samples and fails exactly where the name
/// is `None`. A sample that cannot be decoded therefore surfaces as an
/// error, never silently as zero or as an invented value.
#[verifier::external_body]
fn read_wav_int_samples(bytes: &Vec<u8>) -> (r: Result<Vec<i64>, PipelineError>)
    ensures
        r is Ok <==> wav_int_samples_of(bytes@) is Some,
        r matches Ok(v) ==> Some(v@) == wav_int_samples_of(bytes@),
        r matches Err(e) ==> e == err_spec(Stage::Decode, ErrorKind::Format),
{
    let failed = PipelineError { stage: Stage::Decode, kind: ErrorKind::Format };
    let reader = hound::WavReader::new(std::io::Cursor::new(bytes.as_slice())).map_err(
        |_| failed,
    )?;
    let mut out: Vec<i64> = Vec::new();
    for sample in reader.into_samples::<i32>() {
        out.push(sample.map_err(|_| failed)? as i64);
    }
    Ok(out)
}

/// What decoding a container yields: fixed-point samples for integer PCM,
/// or the bare layout of a float-format file, whose samples the caller must
/// convert to fixed point itself.
#[derive(Debug)]
pub enum DecodedWav {
    Pcm { channels: u16, rate: u32, samples: Vec<i64> },
    Float { channels: u16, rate: u32 },
}

/// A whole raw integer buffer mapped to fixed point.
pub open spec fn decode_seq_spec(raw: Seq<i64>, bits: u16) -> Seq<i64> {
    Seq::new(raw.len(), |i: int| decode_int_sample_spec(raw[i] as int, bits) as i64)
}

/// Every raw sample lies in the declared range of its format.
pub open spec fn all_in_source_range(raw: Seq<i64>, bits: u16) -> bool {
    forall|i: int| 0 <= i < raw.len() ==> in_source_range(#[trigger] raw[i] as int, bits)
}

/// Opens a byte buffer as a container. Integer samples come back mapped to
/// fixed point; a float-format container comes back as its bare layout; a
/// malformed container, an unsupported bit width, an unreadable sample, or
/// an out-of-range sample is a decode format error — and nothing else is:
/// decoding succeeds on exactly the well-formed inputs.
pub fn decode_wav(bytes: &Vec<u8>) -> (r: Result<DecodedWav, PipelineError>)
    ensures
        wav_header_of(bytes@) is None ==> r == Err::<DecodedWav, PipelineError>(
            err_spec(Stage::Decode, ErrorKind::Format),
        ),
        r matches Ok(d) ==> wav_header_of(bytes@) is Some,
        r matches Ok(DecodedWav::Float { channels, rate }) ==> {
            let h = wav_header_of(bytes@)->Some_0;
            h.3 && channels == h.0 && rate == h.1
        },
        wav_header_of(bytes@) matches Some(h) ==> (h.3 ==> r == Ok::<DecodedWav, PipelineError>(
            DecodedWav::Float { channels: h.0, rate: h.1 },
        )),
        r matches Ok(DecodedWav::Pcm { channels, rate, samples }) ==> {
            let h = wav_header_of(bytes@)->Some_0;
            &&& !h.3
            &&& channels == h.0
            &&& rate == h.1
            &&& supported_source_bits(h.2)
            &&& wav_int_samples_of(bytes@) is Some
            &&& all_in_source_range(wav_int_samples_of(bytes@)->Some_0, h.2)
            &&& samples@ == decode_seq_spec(wav_int_samples_of(bytes@)->Some_0, h.2)
            &&& valid_samples(samples@)
            &&& forall|i: int|
                0 <= i < samples@.len() ==> abs_of(#[trigger] samples@[i] as int)
                    <= FULL_SCALE as int
        },
        ({
            let h = wav_header_of(bytes@);
            let raw = wav_int_samples_of(bytes@);
            r is Ok <==> (h is Some && (h->Some_0.3 || (supported_source_bits(h->Some_0.2)
                && raw is Some && all_in_source_range(raw->Some_0, h->Some_0.2))))
        }),
        r matches Err(e) ==> e == err_spec(Stage::Decode, ErrorKind::Format),
{
    let h = match read_wav_header(bytes) {
        Ok(h) => h,
        Err(e) => {
            return Err(e);
        },
    };
    if h.float_format {
        return Ok(DecodedWav::Float { channels: h.channels, rate: h.rate });
    }
    let bits = h.bits;
    if !(bits == 8 || bits == 16 || bits == 24 || bits == 32) {
        return Err(PipelineError::at(Stage::Decode, ErrorKind::Format));
    }
    let raw = match read_wav_int_samples(bytes) {
        Ok(v) => v,
        Err(e) => {
            return Err(e);
        },
    };
    let bound = source_bound(bits);
    let n = raw.len();
    let mut samples: Vec<i64> = Vec::new();
    let mut i: usize = 0;
    while i < n
        invariant
            wav_header_of(bytes@) == Some::<(u16, u32, u16, bool)>(
                (h.channels, h.rate, h.bits, h.float_format),
            ),
            !h.float_format,
            bits == h.bits,
            Some(raw@) == wav_int_samples_of(bytes@),
            n == raw.len(),
            supported_source_bits(bits),
            bound as int == source_full_scale(bits),
            i <= n,
            samples@.len() == i,
            forall|j: int| 0 <= j < i ==> in_source_range(#[trigger] raw@[j] as int, bits),
            forall|j: int| 0 <= j < i ==> #[trigger] samples@[j] as int == decode_int_sample_spec(
                raw@[j] as int,
                bits,
            ),
            forall|j: int|
                0 <= j < i ==> abs_of(#[trigger] samples@[j] as int) <= FULL_SCALE as int,
        decreases n - i,
    {
        let x = raw[i];
        if x < -bound || x >= bound {
            proof {
                assert(!in_source_range(raw@[i as int] as int, bits));
            }
            return Err(PipelineError::at(Stage::Decode, ErrorKind::Format));
        }
        samples.push(decode_int_sample(x, bits));
        i = i + 1;
    }
    proof {
        assert(samples@ =~= decode_seq_spec(raw@, bits));
    }
    Ok(DecodedWav::Pcm { channels: h.channels, rate: h.rate, samples })
}

/// Magnitude of full scale in a `bits`-bit signed integer format.
fn source_bound(bits: u16) -> (b: i64)
    requires
        supported_source_bits(bits),
    ensures
        b as int == source_full_scale(bits),
{
    if bits == 8 {
        128
    } else if bits == 16 {
        32768
    } else if bits == 24 {
        8388608
    } else {
        2147483648
    }
}

} // verus!
