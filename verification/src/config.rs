//! Immutable parameters of one batch run.

use vstd::prelude::*;

verus! {

/// Default target sample rate in hertz.
pub const DEFAULT_OUT_RATE: u32 = 44100;

/// Default silence threshold: five thousandths of full scale, in fixed-point
/// units (`0.005 * FULL_SCALE`, rounded down).
pub const DEFAULT_SILENCE_THRESHOLD: i64 = 83886;

/// Default output bit depth.
pub const DEFAULT_BITS_PER_SAMPLE: u16 = 16;

/// Parameters of one batch run; constructed once and read-only thereafter.
#[derive(Clone, Copy, Debug, PartialEq, Eq, Structural)]
pub struct Config {
    /// Target sample rate in hertz; must be positive.
    pub rate: u32,
    /// Amplitude below which a sample counts as silence, in fixed-point
    /// units of full scale; must be non-negative.
    pub silence_threshold: i64,
    /// Target channel layout: stereo when set, mono otherwise.
    pub stereo: bool,
    /// Output bit depth; encoding accepts only 16 and 24.
    pub bits_per_sample: u16,
}

impl Config {
    /// A usable configuration: positive rate, non-negative threshold.
    pub open spec fn wf(&self) -> bool {
        &&& self.rate >= 1
        &&& self.silence_threshold >= 0
    }

    /// Number of output channels the layout stands for.
    pub open spec fn spec_channels(&self) -> u16 {
        if self.stereo {
            2
        } else {
            1
        }
    }

    /// Number of output channels the layout stands for.
    pub fn channels(&self) -> (c: u16)
        ensures
            c == self.spec_channels(),
    {
        if self.stereo {
            2
        } else {
            1
        }
    }
}

impl Default for Config {
    /// The default run: 44.1 kHz mono at 16 bits, threshold 0.005 of full
    /// scale.
    fn default() -> (c: Config)
        ensures
            c.rate == DEFAULT_OUT_RATE,
            c.silence_threshold == DEFAULT_SILENCE_THRESHOLD,
            !c.stereo,
            c.bits_per_sample == DEFAULT_BITS_PER_SAMPLE,
            c.wf(),
    {
        Config {
            rate: DEFAULT_OUT_RATE,
            silence_threshold: DEFAULT_SILENCE_THRESHOLD,
            stereo: false,
            bits_per_sample: DEFAULT_BITS_PER_SAMPLE,
        }
    }
}

} // verus!
