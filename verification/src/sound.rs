//! An immutable decoded waveform.
//!
//! A `Sound` holds the whole decoded sample buffer of one audio asset:
//! single channel, 44100 Hz, 16-bit signed amplitudes.  Decoding from a
//! container format happens in the host application, which hands the plain
//! sample vector to `Sound::new`; after construction the data is read-only.

use vstd::prelude::*;

verus! {

/// The fixed sample rate, in samples per second, of every decoded waveform.
pub const SAMPLE_RATE: u32 = 44100;

/// The fixed channel count of every decoded waveform.
pub const CHANNEL_COUNT: u16 = 1;

/// One decoded, ready-to-play waveform.  Immutable once constructed; playback
/// handles snapshot the data they need at start time, so a sound may be
/// reloaded under the same registry name without disturbing handles that are
/// already playing.
#[derive(Debug, Clone, PartialEq, Eq)]
pub struct Sound {
    samples: Vec<i16>,
}

impl View for Sound {
    type V = Seq<i16>;

    closed spec fn view(&self) -> Seq<i16> {
        self.samples@
    }
}

impl Sound {
    /// Wraps an already-decoded sample buffer.
    pub fn new(samples: Vec<i16>) -> (s: Sound)
        ensures
            s@ == samples@,
    {
        Sound { samples }
    }

    /// The number of samples, which at 44100 samples per second also fixes
    /// the duration of the waveform.
    pub fn len(&self) -> (n: usize)
        ensures
            n == self@.len(),
    {
        self.samples.len()
    }

    /// Whether the waveform holds no samples at all.
    pub fn is_empty(&self) -> (b: bool)
        ensures
            b == (self@.len() == 0),
    {
        self.samples.len() == 0
    }

    /// Read-only access to the decoded samples.
    pub fn samples(&self) -> (s: &Vec<i16>)
        ensures
            s@ == self@,
    {
        &self.samples
    }
}

} // verus!
