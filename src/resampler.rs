//! The integer side of the streaming sample-rate converter: quality tiers,
//! how an input block is read, and the size of the output scratch buffer.
use vstd::prelude::*;

verus! {

#[derive(Debug)]
pub enum ResamplerError {
    /// The converter could not be built or run; carries its message.
    RubatoError(String),
    InvalidInputSize { expected: usize, actual: usize },
    ChannelMismatch { expected: usize, actual: usize },
}

/// Quality tier of the converter.
#[derive(Debug, Clone, Copy, PartialEq, Eq, Structural)]
pub enum Quality {
    /// Linear interpolation: fast, fixed latency.
    Low,
    /// Cubic interpolation: fast, fixed latency.
    Medium,
    /// Windowed-sinc interpolation: higher fidelity, needs warm-up.
    High,
}

/// The interpolation a quality tier uses.
#[derive(Debug, Clone, Copy, PartialEq, Eq, Structural)]
pub enum Interpolation {
    Linear,
    Cubic,
    Sinc,
}

impl Quality {
    pub fn interpolation(&self) -> (r: Interpolation)
        ensures
            r == match *self {
                Quality::Low => Interpolation::Linear,
                Quality::Medium => Interpolation::Cubic,
                Quality::High => Interpolation::Sinc,
            },
    {
        match self {
            Quality::Low => Interpolation::Linear,
            Quality::Medium => Interpolation::Cubic,
            Quality::High => Interpolation::Sinc,
        }
    }
}

/// How an input block is read.
#[derive(Debug, Clone, Copy, PartialEq, Eq, Structural)]
pub enum InputLayout {
    /// Interleaved pairs, to be averaged into one sample each.
    Stereo,
    /// One sample per frame, used as it is.
    Mono,
}

/// The layout of a block of `input_len` samples for a converter that takes
/// `chunk_size` frames: twice the chunk size is stereo, the chunk size is
/// mono, any other length is an input-size error.
pub fn input_layout(input_len: usize, chunk_size: usize) -> (r: Result<InputLayout, ResamplerError>)
    ensures
        input_len == 2 * chunk_size ==> r == Ok::<InputLayout, ResamplerError>(InputLayout::Stereo),
        input_len != 2 * chunk_size && input_len == chunk_size ==> r == Ok::<
            InputLayout,
            ResamplerError,
        >(InputLayout::Mono),
        input_len != 2 * chunk_size && input_len != chunk_size ==> r == Err::<
            InputLayout,
            ResamplerError,
        >(ResamplerError::InvalidInputSize { expected: chunk_size, actual: input_len }),
{
    if chunk_size <= usize::MAX / 2 && input_len == chunk_size * 2 {
        Ok(InputLayout::Stereo)
    } else if input_len == chunk_size {
        Ok(InputLayout::Mono)
    } else {
        Err(ResamplerError::InvalidInputSize { expected: chunk_size, actual: input_len })
    }
}

/// `ceil(chunk_size * (output_rate / input_rate) * 1.1)`, in exact
/// arithmetic.
pub open spec fn scratch_size(chunk_size: nat, input_rate: nat, output_rate: nat) -> nat
    recommends
        input_rate > 0,
{
    let num: int = (chunk_size * output_rate * 11) as int;
    let den: int = (input_rate * 10) as int;
    ((num + den - 1) / den) as nat
}

/// The length of the output scratch buffer: the converted length of one
/// chunk with a tenth more room for the sinc filter's transition band; none
/// where that length does not fit in `usize`.
pub fn scratch_len(chunk_size: usize, input_rate: u32, output_rate: u32) -> (r: Option<usize>)
    requires
        input_rate > 0,
    ensures
        scratch_size(chunk_size as nat, input_rate as nat, output_rate as nat) <= usize::MAX
            ==> r == Some(scratch_size(chunk_size as nat, input_rate as nat, output_rate as nat) as usize),
        scratch_size(chunk_size as nat, input_rate as nat, output_rate as nat) > usize::MAX
            ==> r is None,
{
    let c = chunk_size as u128;
    let o = output_rate as u128;
    let i = input_rate as u128;
    assert(c * o * 11 <= 0xffff_ffff_ffff_ffff * 0xffff_ffff * 11) by (nonlinear_arith)
        requires
            c <= 0xffff_ffff_ffff_ffff,
            o <= 0xffff_ffff,
    ;
    let num = c * o * 11;
    let den = i * 10;
    let r = (num + den - 1) / den;
    if r <= usize::MAX as u128 {
        Some(r as usize)
    } else {
        None
    }
}

} // verus!
