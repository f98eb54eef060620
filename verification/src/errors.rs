//! The batch-terminal error type: any failure aborts the whole run, tagged
//! with the stage at which it occurred.

use vstd::prelude::*;

verus! {

/// The pipeline stage at which an error occurred.
#[derive(Clone, Copy, Debug, PartialEq, Eq, Structural)]
pub enum Stage {
    Decode,
    Reconcile,
    Trim,
    Resample,
    Encode,
}

/// What went wrong.
#[derive(Clone, Copy, Debug, PartialEq, Eq, Structural)]
pub enum ErrorKind {
    /// The input is not a well-formed container, or a sample could not be
    /// decoded.
    Format,
    /// The input declares more than two channels.
    UnsupportedChannels,
    /// The configuration asks for an output bit depth other than 16 or 24.
    UnsupportedBitDepth,
    /// The external resampler failed to initialize or to process a block.
    Resample,
    /// A read or write at the byte-source boundary failed.
    Io,
}

/// A terminal error for the whole batch.
#[derive(Clone, Copy, Debug, PartialEq, Eq, Structural)]
pub struct PipelineError {
    pub stage: Stage,
    pub kind: ErrorKind,
}

/// The error raised at `stage` with cause `kind`.
pub open spec fn err_spec(stage: Stage, kind: ErrorKind) -> PipelineError {
    PipelineError { stage, kind }
}

impl PipelineError {
    /// Builds the error raised at `stage` with cause `kind`.
    pub fn at(stage: Stage, kind: ErrorKind) -> (e: PipelineError)
        ensures
            e == err_spec(stage, kind),
    {
        PipelineError { stage, kind }
    }
}

} // verus!
