//! The per-sound playback handle and its state machine.
//!
//! A `PlaybackHandle` is the library's model of one live connection from a
//! decoded waveform into the hardware mixing queue: it carries the logical
//! state (stopped / playing / paused), the loop flag, the current volume and
//! the number of samples still queued for rendering.  The host application
//! keeps one real hardware queue per handle and mirrors every transition made
//! here onto it; the hardware's own progress is reported back through
//! [`PlaybackHandle::drain`].
//!
//! Two queries deliberately differ in authority: `is_playing` is reconciled
//! against the modelled queue content (a one-shot sound that ran out of
//! samples reports not-playing with no explicit stop), while `is_paused`
//! reflects only the last explicit `pause`/`resume` call.

use crate::custom_errors::Errors;
use crate::sound::Sound;
use vstd::prelude::*;

verus! {

/// Full scale of the fixed-point volume: a volume value counts thousandths
/// of full amplitude, so `0` is silence and `VOLUME_SCALE` is full volume.
pub const VOLUME_SCALE: i64 = 1000;

/// Whether a requested volume value lies within the accepted unit range.
pub open spec fn valid_volume(v: int) -> bool {
    0 <= v && v <= VOLUME_SCALE
}

/// The logical playback state of a handle.
#[derive(Debug, Clone, Copy, PartialEq, Eq, Structural)]
pub enum PlaybackState {
    /// Never started, or explicitly stopped; the queue is flushed and the
    /// handle must be replaced by a fresh start to play again.
    Stopped,
    /// Started and not paused (the queue may still have run dry).
    Playing,
    /// Explicitly paused; the queued samples are retained.
    Paused,
}

/// One live playback handle.
#[derive(Debug, Clone, Copy, PartialEq, Eq, Structural)]
pub struct PlaybackHandle {
    /// The logical state, as set by the last explicit transition.
    pub state: PlaybackState,
    /// Current volume in thousandths of full amplitude.
    pub volume: i64,
    /// Whether the queued samples repeat indefinitely until stopped.
    pub looped: bool,
    /// Samples still waiting in the hardware queue.  For a looped handle this
    /// is the length of one pass of the waveform; the queue of a looped
    /// handle never runs dry unless that length is zero.
    pub queued: usize,
}

impl View for PlaybackHandle {
    type V = PlaybackHandle;

    open spec fn view(&self) -> PlaybackHandle {
        *self
    }
}

impl PlaybackHandle {
    /// Validity of a handle's transient state.
    pub open spec fn wf(self) -> bool {
        &&& valid_volume(self.volume as int)
        &&& (self.state is Stopped ==> self.queued == 0 && !self.looped)
    }

    /// A handle as minted by the device: stopped, nothing queued, full volume.
    pub open spec fn fresh_spec() -> PlaybackHandle {
        PlaybackHandle {
            state: PlaybackState::Stopped,
            volume: VOLUME_SCALE,
            looped: false,
            queued: 0,
        }
    }

    /// The handle after the full sample buffer is pushed into the queue once.
    pub open spec fn start_once_spec(self, samples: Seq<i16>) -> PlaybackHandle {
        PlaybackHandle {
            state: PlaybackState::Playing,
            looped: false,
            queued: samples.len() as usize,
            ..self
        }
    }

    /// The handle after the sample buffer is pushed wrapped in an infinite
    /// repeat.  An empty buffer repeats to nothing, so its queue counts as
    /// already dry.
    pub open spec fn start_loop_spec(self, samples: Seq<i16>) -> PlaybackHandle {
        PlaybackHandle {
            state: PlaybackState::Playing,
            looped: samples.len() > 0,
            queued: samples.len() as usize,
            ..self
        }
    }

    /// The handle after a pause request: playing becomes paused, anything
    /// else is left alone.
    pub open spec fn pause_spec(self) -> PlaybackHandle {
        if self.state is Playing {
            (PlaybackHandle { state: PlaybackState::Paused, ..self })
        } else {
            self
        }
    }

    /// The handle after a resume request: paused becomes playing, anything
    /// else is left alone.  Resuming never re-queues samples.
    pub open spec fn resume_spec(self) -> PlaybackHandle {
        if self.state is Paused {
            (PlaybackHandle { state: PlaybackState::Playing, ..self })
        } else {
            self
        }
    }

    /// The handle after a stop request: the queue is flushed and the state
    /// becomes stopped, whatever it was; the volume setting is kept.
    pub open spec fn stop_spec(self) -> PlaybackHandle {
        PlaybackHandle { state: PlaybackState::Stopped, looped: false, queued: 0, ..self }
    }

    /// The handle after its volume is replaced.
    pub open spec fn with_volume_spec(self, v: i64) -> PlaybackHandle {
        PlaybackHandle { volume: v, ..self }
    }

    /// The handle after the hardware has rendered `n` samples from its
    /// queue.  A looped queue wraps around and never runs dry.
    pub open spec fn drain_spec(self, n: usize) -> PlaybackHandle {
        if self.looped {
            self
        } else if n >= self.queued {
            (PlaybackHandle { queued: 0, ..self })
        } else {
            (PlaybackHandle { queued: (self.queued - n) as usize, ..self })
        }
    }

    /// Ground truth for "audibly in progress": not paused or stopped, and
    /// the queue still has samples left to render.
    pub open spec fn is_playing_spec(self) -> bool {
        self.state is Playing && self.queued > 0
    }

    /// Last-known-intent pause flag: it reflects only the latest explicit
    /// `pause`/`resume` call and is not reconciled against the queue.
    pub open spec fn is_paused_spec(self) -> bool {
        self.state is Paused
    }

    /// Mints a fresh handle: stopped, nothing queued, full volume.
    pub fn new() -> (h: PlaybackHandle)
        ensures
            h == PlaybackHandle::fresh_spec(),
            h.wf(),
    {
        PlaybackHandle {
            state: PlaybackState::Stopped,
            volume: VOLUME_SCALE,
            looped: false,
            queued: 0,
        }
    }

    /// Pushes the sound's whole sample buffer into the queue once and starts
    /// playing.  The volume set on the handle before the start stays in
    /// force, so it takes effect before audio begins.
    pub fn start_once(&mut self, sound: &Sound)
        requires
            old(self).wf(),
            old(self).state is Stopped,
        ensures
            *final(self) == old(self).start_once_spec(sound@),
            final(self).wf(),
    {
        self.state = PlaybackState::Playing;
        self.looped = false;
        self.queued = sound.len();
    }

    /// Pushes the sound's sample buffer into the queue wrapped in an
    /// infinite repeat and starts playing.
    pub fn start_loop(&mut self, sound: &Sound)
        requires
            old(self).wf(),
            old(self).state is Stopped,
        ensures
            *final(self) == old(self).start_loop_spec(sound@),
            final(self).wf(),
    {
        self.state = PlaybackState::Playing;
        self.looped = sound.len() > 0;
        self.queued = sound.len();
    }

    /// Pauses playback.  A benign no-op when already paused or stopped.
    pub fn pause(&mut self)
        ensures
            *final(self) == old(self).pause_spec(),
            old(self).wf() ==> final(self).wf(),
    {
        if matches!(self.state, PlaybackState::Playing) {
            self.state = PlaybackState::Paused;
        }
    }

    /// Resumes playback.  A benign no-op when already playing; a stopped
    /// handle stays stopped, since resuming never re-queues samples.
    pub fn resume(&mut self)
        ensures
            *final(self) == old(self).resume_spec(),
            old(self).wf() ==> final(self).wf(),
    {
        if matches!(self.state, PlaybackState::Paused) {
            self.state = PlaybackState::Playing;
        }
    }

    /// Stops playback and flushes the queue.  A benign no-op when already
    /// stopped; a stopped handle must be replaced by a fresh start to play
    /// again.
    pub fn stop(&mut self)
        ensures
            *final(self) == old(self).stop_spec(),
            old(self).wf() ==> final(self).wf(),
    {
        self.state = PlaybackState::Stopped;
        self.looped = false;
        self.queued = 0;
    }

    /// Sets the volume, in thousandths of full amplitude.  Valid in any
    /// state; a value outside the unit range is rejected before any state
    /// changes, so the previous volume stays in force.
    pub fn set_volume(&mut self, volume: i64) -> (r: Result<(), Errors>)
        ensures
            old(self).wf() ==> final(self).wf(),
            r is Ok <==> valid_volume(volume as int),
            valid_volume(volume as int) ==> *final(self) == old(self).with_volume_spec(volume),
            !valid_volume(volume as int) ==> *final(self) == *old(self) && (r matches Err(e)
                && e matches Errors::AudioVolumeError(msg) && msg@ == "Volume out of range"@),
    {
        if volume < 0 || volume > VOLUME_SCALE {
            return Err(Errors::AudioVolumeError("Volume out of range".to_owned()));
        }
        self.volume = volume;
        Ok(())
    }

    /// Records that the hardware has rendered `n` samples from this handle's
    /// queue; reported back by the host application so that completion of a
    /// one-shot sound becomes observable.
    pub fn drain(&mut self, n: usize)
        ensures
            *final(self) == old(self).drain_spec(n),
            old(self).wf() ==> final(self).wf(),
    {
        if !self.looped {
            if n >= self.queued {
                self.queued = 0;
            } else {
                self.queued = self.queued - n;
            }
        }
    }

    /// Whether the handle is audibly in progress: not paused or stopped and
    /// the queue not yet dry.  A one-shot sound whose samples have all been
    /// rendered reports `false` here with no explicit stop call.
    pub fn is_playing(&self) -> (b: bool)
        ensures
            b == self.is_playing_spec(),
    {
        matches!(self.state, PlaybackState::Playing) && self.queued > 0
    }

    /// Whether the last explicit transition was a pause.  This is a cached
    /// flag: pausing a queue that has already run dry still reports `true`.
    pub fn is_paused(&self) -> (b: bool)
        ensures
            b == self.is_paused_spec(),
    {
        matches!(self.state, PlaybackState::Paused)
    }

    /// The current volume, in thousandths of full amplitude.
    pub fn volume(&self) -> (v: i64)
        ensures
            v == self.volume,
    {
        self.volume
    }

    /// The current logical state.
    pub fn state(&self) -> (s: PlaybackState)
        ensures
            s == self.state,
    {
        self.state
    }
}

/// Law: pausing twice in a row leaves a handle exactly as pausing once does.
pub proof fn lemma_pause_idempotent(h: PlaybackHandle)
    ensures
        h.pause_spec().pause_spec() == h.pause_spec(),
{
}

/// Law: resuming twice in a row leaves a handle exactly as resuming once
/// does.
pub proof fn lemma_resume_idempotent(h: PlaybackHandle)
    ensures
        h.resume_spec().resume_spec() == h.resume_spec(),
{
}

/// Law: stopping twice in a row leaves a handle exactly as stopping once
/// does.
pub proof fn lemma_stop_idempotent(h: PlaybackHandle)
    ensures
        h.stop_spec().stop_spec() == h.stop_spec(),
{
}

/// Law: a one-shot handle is audibly in progress right after the start if
/// and only if the waveform holds at least one sample.
pub proof fn lemma_start_once_playing(h: PlaybackHandle, samples: Seq<i16>)
    requires
        samples.len() <= usize::MAX,
    ensures
        h.start_once_spec(samples).is_playing_spec() <==> samples.len() > 0,
{
}

/// Law: once the hardware has rendered at least as many samples as a
/// one-shot start queued, the handle reports not-playing without any
/// explicit stop call.
pub proof fn lemma_oneshot_completion(h: PlaybackHandle, samples: Seq<i16>, n: usize)
    requires
        n >= samples.len(),
    ensures
        !h.start_once_spec(samples).drain_spec(n).is_playing_spec(),
{
}

} // verus!
