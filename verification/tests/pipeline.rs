//! Unit tests of the fixed-point pipeline stages on concrete buffers.

use stepsampler::assemble::{assemble, max_len};
use stepsampler::channels::reconcile;
use stepsampler::config::{
    Config, DEFAULT_BITS_PER_SAMPLE, DEFAULT_OUT_RATE, DEFAULT_SILENCE_THRESHOLD,
};
use stepsampler::errors::{ErrorKind, PipelineError, Stage};
use stepsampler::fixed::{clamp_i64, decode_int_sample, div_round_i64, div_trunc_i64, quantize_sample};
use stepsampler::normalize::normalize;
use stepsampler::pipeline::process_samples;
use stepsampler::resample::{needs_resample, split_blocks, trim_resampler_delay};
use stepsampler::trim::{trim_end, trim_start};
use stepsampler::FULL_SCALE;

/// A float amplitude in fixed-point units.
fn fix(x: f32) -> i64 {
    (x * FULL_SCALE as f32).round() as i64
}

#[test]
fn defaults_match_documented_values() {
    let cfg = Config::default();
    assert_eq!(cfg.rate, DEFAULT_OUT_RATE);
    assert_eq!(cfg.rate, 44100);
    assert_eq!(cfg.silence_threshold, DEFAULT_SILENCE_THRESHOLD);
    assert_eq!(cfg.silence_threshold, (0.005 * FULL_SCALE as f64) as i64);
    assert!(!cfg.stereo);
    assert_eq!(cfg.bits_per_sample, DEFAULT_BITS_PER_SAMPLE);
    assert_eq!(cfg.bits_per_sample, 16);
}

#[test]
fn leading_trim_removes_quiet_heads_only() {
    // [0.001, 0.001, 0.5, 0.3, 0.001] at threshold 0.005: the first two go.
    let buf = vec![fix(0.001), fix(0.001), fix(0.5), fix(0.3), fix(0.001)];
    let t = fix(0.005);
    let out = trim_start(&buf, t);
    assert_eq!(out, vec![fix(0.5), fix(0.3), fix(0.001)]);
}

#[test]
fn trailing_trim_tests_raw_value_not_magnitude() {
    // Same buffer: only the final 0.001 goes; 0.3 and 0.5 stay.
    let buf = vec![fix(0.001), fix(0.001), fix(0.5), fix(0.3), fix(0.001)];
    let t = fix(0.005);
    let out = trim_end(buf, t);
    assert_eq!(out, vec![fix(0.001), fix(0.001), fix(0.5), fix(0.3)]);
    // A loud negative tail is below the threshold as a raw value and is
    // trimmed: the deliberate asymmetry against the leading scan.
    let buf2 = vec![fix(0.5), fix(-0.5)];
    let out2 = trim_end(buf2, t);
    assert_eq!(out2, vec![fix(0.5)]);
}

#[test]
fn leading_trim_of_all_silent_buffer_is_empty() {
    let buf = vec![fix(0.001), fix(-0.001)];
    let out = trim_start(&buf, fix(0.005));
    assert!(out.is_empty());
}

#[test]
fn stereo_to_mono_averages_pairs() {
    // [(1.0, 0.0), (0.0, 1.0)] -> [0.5, 0.5]
    let buf = vec![fix(1.0), fix(0.0), fix(0.0), fix(1.0)];
    let out = reconcile(buf, 2, false).unwrap();
    assert_eq!(out, vec![fix(0.5), fix(0.5)]);
}

#[test]
fn mono_to_stereo_duplicates_samples() {
    // [1.0, -1.0] -> [(1.0, 1.0), (-1.0, -1.0)]
    let buf = vec![fix(1.0), fix(-1.0)];
    let out = reconcile(buf, 1, true).unwrap();
    assert_eq!(out, vec![fix(1.0), fix(1.0), fix(-1.0), fix(-1.0)]);
}

#[test]
fn matching_layouts_pass_through() {
    let buf = vec![fix(0.25), fix(-0.75)];
    assert_eq!(reconcile(buf.clone(), 1, false).unwrap(), buf);
    assert_eq!(reconcile(buf.clone(), 2, true).unwrap(), buf);
}

#[test]
fn stereo_to_mono_keeps_unpaired_tail() {
    let buf = vec![fix(1.0), fix(0.0), fix(0.25)];
    let out = reconcile(buf, 2, false).unwrap();
    assert_eq!(out, vec![fix(0.5), fix(0.25)]);
}

#[test]
fn four_channels_are_refused() {
    let buf = vec![fix(0.1); 8];
    let err = reconcile(buf, 4, false).unwrap_err();
    assert_eq!(
        err,
        PipelineError { stage: Stage::Reconcile, kind: ErrorKind::UnsupportedChannels }
    );
}

#[test]
fn zero_channels_are_a_format_error() {
    let err = process_samples(vec![fix(0.1)], 0, &Config::default()).unwrap_err();
    assert_eq!(err, PipelineError { stage: Stage::Reconcile, kind: ErrorKind::Format });
}

#[test]
fn normalization_raises_peak_to_full_scale() {
    let out = normalize(vec![fix(0.5), fix(-0.25), fix(0.125)]);
    let peak = out.iter().map(|s| s.abs()).max().unwrap();
    assert_eq!(peak, FULL_SCALE);
    assert_eq!(out, vec![FULL_SCALE, -FULL_SCALE / 2, FULL_SCALE / 4]);
}

#[test]
fn normalization_leaves_silent_buffer_unchanged() {
    assert_eq!(normalize(vec![0, 0, 0]), vec![0, 0, 0]);
    assert_eq!(normalize(Vec::new()), Vec::<i64>::new());
}

#[test]
fn process_samples_composes_the_stages() {
    // Mono source with a quiet head and tail around two loud samples.
    let cfg = Config::default();
    let buf = vec![fix(0.001), fix(0.5), fix(0.25), fix(0.002)];
    let out = process_samples(buf, 1, &cfg).unwrap();
    assert_eq!(out, vec![FULL_SCALE, FULL_SCALE / 2]);
}

#[test]
fn batch_assembly_pads_to_longest_and_concatenates() {
    // Buffers of length 3 and 5: two segments of length 5, the first padded
    // with two trailing zeros.
    let batch = vec![vec![1, 2, 3], vec![4, 5, 6, 7, 8]];
    assert_eq!(max_len(&batch), 5);
    let out = assemble(&batch);
    assert_eq!(out.len(), 2 * 5);
    assert_eq!(out, vec![1, 2, 3, 0, 0, 4, 5, 6, 7, 8]);
}

#[test]
fn batch_assembly_of_empty_batch_is_empty() {
    let batch: Vec<Vec<i64>> = Vec::new();
    assert_eq!(max_len(&batch), 0);
    assert!(assemble(&batch).is_empty());
}

#[test]
fn segment_count_equals_input_count() {
    let batch = vec![vec![9], vec![], vec![7, 7, 7]];
    let out = assemble(&batch);
    let m = max_len(&batch);
    assert_eq!(m, 3);
    assert_eq!(out.len(), batch.len() * m);
    assert_eq!(out, vec![9, 0, 0, 0, 0, 0, 7, 7, 7]);
}

#[test]
fn quantize_hits_the_extreme_codes() {
    assert_eq!(quantize_sample(FULL_SCALE, 16), 32767);
    assert_eq!(quantize_sample(-FULL_SCALE, 16), -32767);
    assert_eq!(quantize_sample(FULL_SCALE, 24), 8388607);
    assert_eq!(quantize_sample(-FULL_SCALE, 24), -8388607);
    assert_eq!(quantize_sample(0, 16), 0);
}

#[test]
fn quantize_clamps_overdriven_samples() {
    assert_eq!(quantize_sample(2 * FULL_SCALE, 16), 32767);
    assert_eq!(quantize_sample(-2 * FULL_SCALE, 16), -32768);
    assert_eq!(quantize_sample(3 * FULL_SCALE, 24), 8388607);
}

#[test]
fn quantize_rounds_to_nearest_code() {
    // 256 units scale to just below half a code, 257 to just above.
    assert_eq!(quantize_sample(256, 16), 0);
    assert_eq!(quantize_sample(257, 16), 1);
    assert_eq!(quantize_sample(-256, 16), 0);
    assert_eq!(quantize_sample(-257, 16), -1);
}

#[test]
fn raw_samples_map_by_declared_width() {
    assert_eq!(decode_int_sample(1, 8), 131072);
    assert_eq!(decode_int_sample(-128, 8), -FULL_SCALE);
    assert_eq!(decode_int_sample(32767, 16), 32767 * 512);
    assert_eq!(decode_int_sample(-32768, 16), -FULL_SCALE);
    assert_eq!(decode_int_sample(1, 24), 2);
    assert_eq!(decode_int_sample(256, 32), 2);
    assert_eq!(decode_int_sample(-255, 32), -1);
}

#[test]
fn division_helpers_truncate_and_round_as_stated() {
    assert_eq!(div_trunc_i64(7, 2), 3);
    assert_eq!(div_trunc_i64(-7, 2), -3);
    assert_eq!(div_round_i64(7, 2), 4);
    assert_eq!(div_round_i64(-7, 2), -4);
    assert_eq!(div_round_i64(5, 4), 1);
    assert_eq!(div_round_i64(6, 4), 2);
    assert_eq!(clamp_i64(5, -2, 2), 2);
    assert_eq!(clamp_i64(-5, -2, 2), -2);
    assert_eq!(clamp_i64(1, -2, 2), 1);
}

#[test]
fn resample_plan_splits_into_blocks() {
    assert_eq!(split_blocks(2500, 1024), (2, 452));
    assert_eq!(split_blocks(1024, 1024), (1, 0));
    assert_eq!(split_blocks(100, 1024), (0, 100));
    assert!(needs_resample(48000, &Config::default()));
    assert!(!needs_resample(44100, &Config::default()));
}

#[test]
fn trailing_delay_is_cut_from_the_end() {
    let out = trim_resampler_delay(vec![1, 2, 3, 4, 5], 2);
    assert_eq!(out, vec![1, 2, 3]);
}
