//! Tests of the container adapters: encoding batches through the external
//! writer and decoding real container bytes back through the reader.

use std::io::Cursor;

use stepsampler::config::Config;
use stepsampler::decode::{decode_wav, DecodedWav};
use stepsampler::encode::encode_batch;
use stepsampler::errors::{ErrorKind, PipelineError, Stage};
use stepsampler::pipeline::{prepare_wav, PreparedInput};
use stepsampler::resample::needs_resample;
use stepsampler::FULL_SCALE;

/// A float amplitude in fixed-point units.
fn fix(x: f32) -> i64 {
    (x * FULL_SCALE as f32).round() as i64
}

/// WAV bytes written directly with hound, for decoding tests.
fn wav_bytes_i16(channels: u16, rate: u32, samples: &[i16]) -> Vec<u8> {
    let spec = hound::WavSpec {
        channels,
        sample_rate: rate,
        bits_per_sample: 16,
        sample_format: hound::SampleFormat::Int,
    };
    let mut cursor = Cursor::new(Vec::new());
    let mut writer = hound::WavWriter::new(&mut cursor, spec).unwrap();
    for s in samples {
        writer.write_sample(*s).unwrap();
    }
    writer.finalize().unwrap();
    cursor.into_inner()
}

#[test]
fn encode_then_decode_reproduces_16_bit_values_within_one_step() {
    // Round trip of a known sequence at 16 bits: every value comes back
    // within one quantization step (512 fixed-point units is 1/32768 of
    // full scale, below the 1/32767 tolerance).
    let original = vec![fix(0.0), fix(0.25), fix(-0.5), fix(1.0), fix(-1.0)];
    let cfg = Config::default();
    let bytes = encode_batch(&vec![original.clone()], &cfg).unwrap();
    match decode_wav(&bytes).unwrap() {
        DecodedWav::Pcm { channels, rate, samples } => {
            assert_eq!(channels, 1);
            assert_eq!(rate, 44100);
            assert_eq!(samples.len(), original.len());
            for (d, o) in samples.iter().zip(original.iter()) {
                assert!((d - o).abs() <= 512, "{d} vs {o}");
            }
            assert_eq!(samples, vec![0, fix(0.25), fix(-0.5), 32767 * 512, -32767 * 512]);
        }
        DecodedWav::Float { .. } => panic!("integer container expected"),
    }
}

#[test]
fn encode_then_decode_reproduces_24_bit_values() {
    let original = vec![fix(1.0), fix(0.5)];
    let cfg = Config { bits_per_sample: 24, ..Config::default() };
    let bytes = encode_batch(&vec![original], &cfg).unwrap();
    match decode_wav(&bytes).unwrap() {
        DecodedWav::Pcm { channels, rate, samples } => {
            assert_eq!(channels, 1);
            assert_eq!(rate, 44100);
            // 1.0 quantizes to the largest code 8388607, half scale exactly.
            assert_eq!(samples, vec![2 * 8388607, FULL_SCALE / 2]);
        }
        DecodedWav::Float { .. } => panic!("integer container expected"),
    }
}

#[test]
fn encoded_batch_has_equal_length_segments() {
    let batch = vec![vec![fix(1.0)], vec![fix(0.5), fix(0.25)]];
    let cfg = Config::default();
    let bytes = encode_batch(&batch, &cfg).unwrap();
    match decode_wav(&bytes).unwrap() {
        DecodedWav::Pcm { samples, .. } => {
            // Two segments of the longest length two; the first is padded
            // with one zero.
            assert_eq!(samples, vec![32767 * 512, 0, fix(0.5), fix(0.25)]);
        }
        DecodedWav::Float { .. } => panic!("integer container expected"),
    }
}

#[test]
fn unsupported_bit_depth_is_refused_before_writing() {
    let cfg = Config { bits_per_sample: 8, ..Config::default() };
    let err = encode_batch(&vec![vec![fix(0.5)]], &cfg).unwrap_err();
    assert_eq!(err, PipelineError { stage: Stage::Encode, kind: ErrorKind::UnsupportedBitDepth });
}

#[test]
fn decoding_real_container_bytes_maps_raw_integers_to_fixed_point() {
    let bytes = wav_bytes_i16(1, 8000, &[100, -200, 32767, -32768]);
    match decode_wav(&bytes).unwrap() {
        DecodedWav::Pcm { channels, rate, samples } => {
            assert_eq!(channels, 1);
            assert_eq!(rate, 8000);
            assert_eq!(samples, vec![100 * 512, -200 * 512, 32767 * 512, -FULL_SCALE]);
        }
        DecodedWav::Float { .. } => panic!("integer container expected"),
    }
}

#[test]
fn malformed_bytes_are_a_decode_format_error() {
    let err = decode_wav(&vec![82, 73, 70, 70, 1, 2, 3]).unwrap_err();
    assert_eq!(err, PipelineError { stage: Stage::Decode, kind: ErrorKind::Format });
}

#[test]
fn four_channel_container_is_an_unsupported_channel_error() {
    let bytes = wav_bytes_i16(4, 44100, &[1000, 1000, 1000, 1000, 2000, 2000, 2000, 2000]);
    let err = prepare_wav(&bytes, &Config::default()).unwrap_err();
    assert_eq!(
        err,
        PipelineError { stage: Stage::Reconcile, kind: ErrorKind::UnsupportedChannels }
    );
}

#[test]
fn float_format_container_is_handed_back_undecoded() {
    let spec = hound::WavSpec {
        channels: 2,
        sample_rate: 48000,
        bits_per_sample: 32,
        sample_format: hound::SampleFormat::Float,
    };
    let mut cursor = Cursor::new(Vec::new());
    let mut writer = hound::WavWriter::new(&mut cursor, spec).unwrap();
    for s in [0.5f32, -0.5, 0.25, -0.25] {
        writer.write_sample(s).unwrap();
    }
    writer.finalize().unwrap();
    let bytes = cursor.into_inner();
    match prepare_wav(&bytes, &Config::default()).unwrap() {
        PreparedInput::FloatFormat { channels, rate } => {
            assert_eq!(channels, 2);
            assert_eq!(rate, 48000);
        }
        PreparedInput::Ready { .. } => panic!("float container expected"),
    }
}

#[test]
fn prepare_runs_the_whole_per_file_pipeline() {
    // A quiet head and tail around two loud samples, at a non-target rate.
    let bytes = wav_bytes_i16(1, 22050, &[50, 16000, 8000, 50]);
    let cfg = Config::default();
    match prepare_wav(&bytes, &cfg).unwrap() {
        PreparedInput::Ready { samples, rate } => {
            assert_eq!(rate, 22050);
            assert!(needs_resample(rate, &cfg));
            // Trimmed to the two loud samples, then peak-normalized.
            assert_eq!(samples, vec![FULL_SCALE, FULL_SCALE / 2]);
        }
        PreparedInput::FloatFormat { .. } => panic!("integer container expected"),
    }
}

#[test]
fn prepare_of_all_silent_container_yields_empty_buffer() {
    let bytes = wav_bytes_i16(1, 44100, &[10, -10, 5]);
    match prepare_wav(&bytes, &Config::default()).unwrap() {
        PreparedInput::Ready { samples, rate } => {
            assert_eq!(rate, 44100);
            assert!(samples.is_empty());
        }
        PreparedInput::FloatFormat { .. } => panic!("integer container expected"),
    }
}

#[test]
fn stereo_output_duplicates_mono_sources() {
    let bytes = wav_bytes_i16(1, 44100, &[16000, 50]);
    let cfg = Config { stereo: true, ..Config::default() };
    match prepare_wav(&bytes, &cfg).unwrap() {
        PreparedInput::Ready { samples, rate } => {
            assert_eq!(rate, 44100);
            // Duplicated into both slots, quiet tail trimmed, normalized.
            assert_eq!(samples, vec![FULL_SCALE, FULL_SCALE]);
            let out = encode_batch(&vec![samples], &cfg).unwrap();
            match decode_wav(&out).unwrap() {
                DecodedWav::Pcm { channels, samples, .. } => {
                    assert_eq!(channels, 2);
                    assert_eq!(samples, vec![32767 * 512, 32767 * 512]);
                }
                DecodedWav::Float { .. } => panic!("integer container expected"),
            }
        }
        PreparedInput::FloatFormat { .. } => panic!("integer container expected"),
    }
}

#[test]
fn empty_batch_encodes_to_an_empty_grid() {
    // No input files: a valid container with the configured header and no
    // samples.
    let batch: Vec<Vec<i64>> = Vec::new();
    let bytes = encode_batch(&batch, &Config::default()).unwrap();
    match decode_wav(&bytes).unwrap() {
        DecodedWav::Pcm { channels, rate, samples } => {
            assert_eq!(channels, 1);
            assert_eq!(rate, 44100);
            assert!(samples.is_empty());
        }
        DecodedWav::Float { .. } => panic!("integer container expected"),
    }
}

#[test]
fn stereo_batch_with_half_a_frame_is_refused() {
    // One sample cannot fill a stereo frame: the writer reports it and the
    // encoder surfaces it as an encode format error.
    let cfg = Config { stereo: true, ..Config::default() };
    let err = encode_batch(&vec![vec![fix(0.5)]], &cfg).unwrap_err();
    assert_eq!(err, PipelineError { stage: Stage::Encode, kind: ErrorKind::Format });
}

#[test]
fn byte_identical_inputs_give_identical_results() {
    let batch = vec![vec![fix(0.5), fix(-0.25)]];
    let cfg = Config::default();
    let once = encode_batch(&batch, &cfg).unwrap();
    let twice = encode_batch(&batch, &cfg).unwrap();
    assert_eq!(once, twice);
    let a = decode_wav(&once).unwrap();
    let b = decode_wav(&twice).unwrap();
    match (a, b) {
        (
            DecodedWav::Pcm { channels: c1, rate: r1, samples: s1 },
            DecodedWav::Pcm { channels: c2, rate: r2, samples: s2 },
        ) => {
            assert_eq!((c1, r1, s1), (c2, r2, s2));
        }
        _ => panic!("integer containers expected"),
    }
    let e1 = decode_wav(&vec![0, 1, 2]).unwrap_err();
    let e2 = decode_wav(&vec![0, 1, 2]).unwrap_err();
    assert_eq!(e1, e2);
}
