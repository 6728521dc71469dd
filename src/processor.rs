//! The integer side of the noise suppressor: its frame-size check and its
//! settings.
use vstd::prelude::*;

verus! {

/// The only sample rate at which the suppressor may run.
pub const SUPPRESSOR_SAMPLE_RATE: u32 = 48000;

#[derive(Debug)]
pub enum ProcessorError {
    InvalidFrameSize { expected: usize, actual: usize },
    /// The suppressor failed; carries its message.
    ProcessError(String),
}

/// A frame of `frame_len` samples is accepted exactly when it has the
/// suppressor's frame size.
pub fn check_frame(frame_len: usize, frame_size: usize) -> (r: Result<(), ProcessorError>)
    ensures
        frame_len == frame_size ==> r is Ok,
        frame_len != frame_size ==> (r matches Err(ProcessorError::InvalidFrameSize {
            expected,
            actual,
        }) && expected == frame_size && actual == frame_len),
{
    if frame_len != frame_size {
        Err(ProcessorError::InvalidFrameSize { expected: frame_size, actual: frame_len })
    } else {
        Ok(())
    }
}

/// Whether suppression runs: it is enabled and the device runs at the
/// suppressor's sample rate.
pub fn suppression_applicable(enabled: bool, sample_rate: u32) -> (r: bool)
    ensures
        r == (enabled && sample_rate == SUPPRESSOR_SAMPLE_RATE),
{
    enabled && sample_rate == SUPPRESSOR_SAMPLE_RATE
}

/// Settings of the suppressor; it takes none.
#[derive(Debug, Clone)]
pub struct AudioProcessorConfig {}

impl Default for AudioProcessorConfig {
    fn default() -> (r: Self) {
        AudioProcessorConfig {}
    }
}

/// Strength of suppression. The suppressor has one strength; the level is
/// kept for callers that choose one.
#[derive(Debug, Clone, Copy, PartialEq, Eq, Structural)]
pub enum NoiseSuppressionLevel {
    Low,
    Moderate,
    High,
    VeryHigh,
}

impl Default for NoiseSuppressionLevel {
    fn default() -> (r: Self)
        ensures
            r == NoiseSuppressionLevel::Moderate,
    {
        NoiseSuppressionLevel::Moderate
    }
}

} // verus!
