//! The consumer's decisions for each frame taken from the queue: when to
//! rebuild the converter, how a frame splits into suppressor frames, whether
//! a frame is silent, and whether its converted samples are forwarded.
use vstd::prelude::*;

verus! {

/// Consecutive silent frames after which output is held back.
pub const SILENCE_THRESHOLD: usize = 6;

/// The sample rate that the service receives.
pub const OUTPUT_SAMPLE_RATE: u32 = 16000;

/// How a frame splits into whole suppressor frames and a shorter tail.
#[derive(Debug, Clone, Copy, PartialEq, Eq, Structural)]
pub struct SubframeLayout {
    /// The number of whole suppressor frames, from the start.
    pub full_frames: usize,
    /// The samples after them, copied through unmodified.
    pub tail: usize,
}

/// The split of `frame_len` samples into suppressor frames of `sub_size`.
pub fn subframe_layout(frame_len: usize, sub_size: usize) -> (r: SubframeLayout)
    requires
        sub_size > 0,
    ensures
        r.full_frames * sub_size + r.tail == frame_len,
        r.tail < sub_size,
{
    let full_frames = frame_len / sub_size;
    let tail = frame_len % sub_size;
    assert(full_frames * sub_size + tail == frame_len) by (nonlinear_arith)
        requires
            full_frames == frame_len / sub_size,
            tail == frame_len % sub_size,
            sub_size > 0,
    ;
    SubframeLayout { full_frames, tail }
}

/// Whether a frame is silent. With suppression, it is silent when at least
/// one suppressor frame was denoised, the mean voice probability is below
/// its cutoff and the mean energy of the denoised frame is below its cutoff.
/// Without suppression, when the mean energy of the raw frame is below its
/// cutoff.
pub fn classify_silence(
    suppressed: bool,
    denoised_frames: usize,
    voice_below_cutoff: bool,
    energy_below_cutoff: bool,
) -> (r: bool)
    ensures
        r == if suppressed {
            denoised_frames > 0 && voice_below_cutoff && energy_below_cutoff
        } else {
            energy_below_cutoff
        },
{
    if suppressed {
        denoised_frames > 0 && voice_below_cutoff && energy_below_cutoff
    } else {
        energy_below_cutoff
    }
}

/// Counts consecutive silent frames.
#[derive(Debug, Clone, Copy, PartialEq, Eq, Structural)]
pub struct SilenceTracker {
    count: usize,
    threshold: usize,
}

impl SilenceTracker {
    pub closed spec fn spec_count(&self) -> nat {
        self.count as nat
    }

    pub closed spec fn spec_threshold(&self) -> nat {
        self.threshold as nat
    }

    pub fn new(threshold: usize) -> (r: Self)
        ensures
            r.spec_count() == 0,
            r.spec_threshold() == threshold,
    {
        SilenceTracker { count: 0, threshold }
    }

    /// Counts one frame: a silent one adds one (held at the largest
    /// `usize`), a voiced one resets the count to zero.
    pub fn observe(&mut self, silent: bool)
        ensures
            final(self).spec_count() == if silent {
                if old(self).spec_count() < usize::MAX {
                    old(self).spec_count() + 1
                } else {
                    old(self).spec_count()
                }
            } else {
                0
            },
            final(self).spec_threshold() == old(self).spec_threshold(),
    {
        if silent {
            self.count = self.count.saturating_add(1);
        } else {
            self.count = 0;
        }
    }

    /// Whether output is held back: the count has reached the threshold.
    pub fn is_holding(&self) -> (r: bool)
        ensures
            r == (self.spec_count() >= self.spec_threshold()),
    {
        self.count >= self.threshold
    }

    pub fn count(&self) -> (r: usize)
        ensures
            r == self.spec_count(),
    {
        self.count
    }
}

/// What the consumer carries from one frame to the next.
#[derive(Debug, Clone, Copy, PartialEq, Eq, Structural)]
pub struct ConsumerState {
    /// The chunk size the current converter was built for; 0 before any.
    last_chunk_size: usize,
    silence: SilenceTracker,
}

impl ConsumerState {
    pub closed spec fn spec_last_chunk_size(&self) -> nat {
        self.last_chunk_size as nat
    }

    pub closed spec fn spec_silence(&self) -> SilenceTracker {
        self.silence
    }

    /// No converter yet, no silence counted, holding back after
    /// `silence_threshold` silent frames.
    pub fn new(silence_threshold: usize) -> (r: Self)
        ensures
            r.spec_last_chunk_size() == 0,
            r.spec_silence().spec_count() == 0,
            r.spec_silence().spec_threshold() == silence_threshold,
    {
        ConsumerState { last_chunk_size: 0, silence: SilenceTracker::new(silence_threshold) }
    }

    /// Whether a frame of `frame_len` samples needs a converter built for
    /// its length first.
    pub fn needs_resampler(&self, frame_len: usize) -> (r: bool)
        ensures
            r == (frame_len != self.spec_last_chunk_size()),
    {
        frame_len != self.last_chunk_size
    }

    /// A converter for `chunk_size` was built.
    pub fn resampler_built(&mut self, chunk_size: usize)
        ensures
            final(self).spec_last_chunk_size() == chunk_size,
            final(self).spec_silence() == old(self).spec_silence(),
    {
        self.last_chunk_size = chunk_size;
    }

    /// Counts a frame as silent or voiced and says whether its converted
    /// samples are forwarded: not while the silent run has reached the
    /// threshold.
    pub fn frame_classified(&mut self, silent: bool) -> (forward: bool)
        ensures
            final(self).spec_last_chunk_size() == old(self).spec_last_chunk_size(),
            final(self).spec_silence().spec_threshold() == old(
                self,
            ).spec_silence().spec_threshold(),
            final(self).spec_silence().spec_count() == if silent {
                if old(self).spec_silence().spec_count() < usize::MAX {
                    old(self).spec_silence().spec_count() + 1
                } else {
                    old(self).spec_silence().spec_count()
                }
            } else {
                0
            },
            forward == (final(self).spec_silence().spec_count() < old(
                self,
            ).spec_silence().spec_threshold()),
            !silent ==> (forward <==> old(self).spec_silence().spec_threshold() > 0),
    {
        self.silence.observe(silent);
        !self.silence.is_holding()
    }

    pub fn silence(&self) -> (r: SilenceTracker)
        ensures
            r == self.spec_silence(),
    {
        self.silence
    }
}

} // verus!
