//! The audio system: the public orchestrator of the audio subsystem.
//!
//! An `AudioSystem` owns two independent name-keyed registries: decoded
//! sounds, and the current live playback handle per name.  A name enters the
//! handle registry when its sound is first started; restarting a name
//! replaces the tracked handle (the previous handle's audio is dropped and
//! thereby stopped), so at most one managed handle per name exists at any
//! time.  Callers wanting overlapping instances of one waveform must load it
//! under distinct names.
//!
//! The host application owns the hardware device: it mints one real mixing
//! queue per started handle, mirrors every transition recorded here onto it,
//! and reports rendering progress back through [`AudioSystem::drain`].

use crate::custom_errors::Errors;
use crate::playback::{valid_volume, PlaybackHandle, VOLUME_SCALE};
use crate::registry::Registry;
use crate::sound::Sound;
use vstd::prelude::*;

verus! {

/// The handle registry after a pause request for `n`: the tracked handle is
/// paused; an untracked name changes nothing.
pub open spec fn pause_by_name(m: Map<Seq<char>, PlaybackHandle>, n: Seq<char>) -> Map<
    Seq<char>,
    PlaybackHandle,
> {
    if m.dom().contains(n) {
        m.insert(n, m[n].pause_spec())
    } else {
        m
    }
}

/// The handle registry after a resume request for `n`.
pub open spec fn resume_by_name(m: Map<Seq<char>, PlaybackHandle>, n: Seq<char>) -> Map<
    Seq<char>,
    PlaybackHandle,
> {
    if m.dom().contains(n) {
        m.insert(n, m[n].resume_spec())
    } else {
        m
    }
}

/// The handle registry after a stop request for `n`.
pub open spec fn stop_by_name(m: Map<Seq<char>, PlaybackHandle>, n: Seq<char>) -> Map<
    Seq<char>,
    PlaybackHandle,
> {
    if m.dom().contains(n) {
        m.insert(n, m[n].stop_spec())
    } else {
        m
    }
}

/// The handle registry after the volume of `n`'s handle is re-bound.
pub open spec fn volume_by_name(
    m: Map<Seq<char>, PlaybackHandle>,
    n: Seq<char>,
    v: i64,
) -> Map<Seq<char>, PlaybackHandle> {
    if m.dom().contains(n) {
        m.insert(n, m[n].with_volume_spec(v))
    } else {
        m
    }
}

/// The handle registry after the hardware reports `rendered` samples
/// consumed from `n`'s queue.
pub open spec fn drain_by_name(
    m: Map<Seq<char>, PlaybackHandle>,
    n: Seq<char>,
    rendered: usize,
) -> Map<Seq<char>, PlaybackHandle> {
    if m.dom().contains(n) {
        m.insert(n, m[n].drain_spec(rendered))
    } else {
        m
    }
}

/// The handle registry after a one-shot start of `n`: a fresh handle is
/// started on the registered waveform and replaces any handle tracked so
/// far; a name with no registered sound changes nothing.
pub open spec fn play_once_by_name(
    sounds: Map<Seq<char>, Seq<i16>>,
    m: Map<Seq<char>, PlaybackHandle>,
    n: Seq<char>,
) -> Map<Seq<char>, PlaybackHandle> {
    if sounds.dom().contains(n) {
        m.insert(n, PlaybackHandle::fresh_spec().start_once_spec(sounds[n]))
    } else {
        m
    }
}

/// The handle registry after a looped start of `n`.
pub open spec fn play_loop_by_name(
    sounds: Map<Seq<char>, Seq<i16>>,
    m: Map<Seq<char>, PlaybackHandle>,
    n: Seq<char>,
) -> Map<Seq<char>, PlaybackHandle> {
    if sounds.dom().contains(n) {
        m.insert(n, PlaybackHandle::fresh_spec().start_loop_spec(sounds[n]))
    } else {
        m
    }
}

/// The audio system.
pub struct AudioSystem {
    sounds: Registry<Sound>,
    handles: Registry<PlaybackHandle>,
}

impl AudioSystem {
    /// The registered waveforms, by name.
    pub closed spec fn sounds_map(self) -> Map<Seq<char>, Seq<i16>> {
        self.sounds.as_map()
    }

    /// The tracked playback handles, by name.
    pub closed spec fn handles_map(self) -> Map<Seq<char>, PlaybackHandle> {
        self.handles.as_map()
    }

    /// Validity: both registries are well-formed, every tracked handle is
    /// well-formed, and a name is tracked only if a sound is registered
    /// under it (loaded-but-never-played names are fine the other way
    /// round).
    pub closed spec fn wf(self) -> bool {
        &&& self.sounds.wf()
        &&& self.handles.wf()
        &&& forall|k: Seq<char>|
            #[trigger] self.handles.as_map().dom().contains(k)
                ==> self.sounds.as_map().dom().contains(k)
        &&& forall|k: Seq<char>|
            #[trigger] self.handles.as_map().dom().contains(k) ==> self.handles.as_map()[k].wf()
    }

    /// Creates an audio system with empty registries.  Opening the hardware
    /// output device is the host application's side of the construction; it
    /// is attempted once and not retried here.
    pub fn new() -> (s: AudioSystem)
        ensures
            s.wf(),
            s.sounds_map() == Map::<Seq<char>, Seq<i16>>::empty(),
            s.handles_map() == Map::<Seq<char>, PlaybackHandle>::empty(),
    {
        AudioSystem { sounds: Registry::new(), handles: Registry::new() }
    }

    /// Registers a decoded waveform under `name`, replacing any earlier one.
    /// A handle already playing under that name is not disturbed: handles
    /// snapshot their sample data at start time.
    pub fn load_sound(&mut self, name: &str, sound: Sound)
        requires
            old(self).wf(),
        ensures
            final(self).wf(),
            final(self).sounds_map() == old(self).sounds_map().insert(name@, sound@),
            final(self).handles_map() == old(self).handles_map(),
    {
        self.sounds.insert(name, sound);
        proof {
            assert forall|k: Seq<char>| #[trigger]
                self.handles.as_map().dom().contains(k) implies self.sounds.as_map().dom().contains(
                k,
            ) by {
                assert(old(self).sounds.as_map().dom().contains(k));
            }
        }
    }

    /// Starts `name`'s sound once: a fresh handle at full volume is started
    /// on the registered waveform and replaces any handle tracked for that
    /// name, implicitly stopping the replaced handle's audio.  Fails with
    /// `SoundNotFoundError` exactly when no sound is registered under
    /// `name`.
    pub fn play_sound_once(&mut self, name: &str) -> (r: Result<(), Errors>)
        requires
            old(self).wf(),
        ensures
            final(self).wf(),
            final(self).sounds_map() == old(self).sounds_map(),
            final(self).handles_map() == play_once_by_name(
                old(self).sounds_map(),
                old(self).handles_map(),
                name@,
            ),
            r is Ok <==> old(self).sounds_map().dom().contains(name@),
            r matches Err(e) ==> (e matches Errors::SoundNotFoundError(m) && m@ == name@),
    {
        match self.sounds.get(name) {
            Some(sound) => {
                let mut h = PlaybackHandle::new();
                h.start_once(sound);
                self.handles.insert(name, h);
                Ok(())
            },
            None => Err(Errors::SoundNotFoundError(name.to_owned())),
        }
    }

    /// Starts `name`'s sound wrapped in an infinite repeat, otherwise
    /// exactly as [`AudioSystem::play_sound_once`].
    pub fn play_sound_loop(&mut self, name: &str) -> (r: Result<(), Errors>)
        requires
            old(self).wf(),
        ensures
            final(self).wf(),
            final(self).sounds_map() == old(self).sounds_map(),
            final(self).handles_map() == play_loop_by_name(
                old(self).sounds_map(),
                old(self).handles_map(),
                name@,
            ),
            r is Ok <==> old(self).sounds_map().dom().contains(name@),
            r matches Err(e) ==> (e matches Errors::SoundNotFoundError(m) && m@ == name@),
    {
        match self.sounds.get(name) {
            Some(sound) => {
                let mut h = PlaybackHandle::new();
                h.start_loop(sound);
                self.handles.insert(name, h);
                Ok(())
            },
            None => Err(Errors::SoundNotFoundError(name.to_owned())),
        }
    }

    /// Sets the volume of `name`'s tracked handle, in thousandths of full
    /// amplitude.  Fails with `SoundNotFoundError` when no handle is
    /// tracked, and with `AudioVolumeError` when the value lies outside the
    /// unit range; a rejected value leaves the previous volume in force.
    pub fn set_volume(&mut self, name: &str, volume: i64) -> (r: Result<(), Errors>)
        requires
            old(self).wf(),
        ensures
            final(self).wf(),
            final(self).sounds_map() == old(self).sounds_map(),
            r is Ok <==> (old(self).handles_map().dom().contains(name@) && valid_volume(
                volume as int,
            )),
            r is Ok ==> final(self).handles_map() == volume_by_name(
                old(self).handles_map(),
                name@,
                volume,
            ),
            !(old(self).handles_map().dom().contains(name@) && valid_volume(volume as int))
                ==> final(self).handles_map() == old(self).handles_map(),
            !old(self).handles_map().dom().contains(name@) ==> (r matches Err(e)
                && e matches Errors::SoundNotFoundError(m) && m@ == name@),
            old(self).handles_map().dom().contains(name@) && !valid_volume(volume as int) ==> (
            r matches Err(e) && e matches Errors::AudioVolumeError(m) && m@
                == "Volume out of range"@),
    {
        match self.handles.get(name) {
            Some(h_ref) => {
                let mut h: PlaybackHandle = *h_ref;
                match h.set_volume(volume) {
                    Ok(_) => {
                        self.handles.insert(name, h);
                        Ok(())
                    },
                    Err(e) => Err(e),
                }
            },
            None => Err(Errors::SoundNotFoundError(name.to_owned())),
        }
    }

    /// Sets the volume of every tracked handle.  Never partial: an invalid
    /// value is rejected before any handle changes.  A benign no-op on an
    /// empty registry.
    pub fn set_volume_all(&mut self, volume: i64) -> (r: Result<(), Errors>)
        requires
            old(self).wf(),
        ensures
            final(self).wf(),
            final(self).sounds_map() == old(self).sounds_map(),
            r is Ok <==> valid_volume(volume as int),
            final(self).handles_map().dom() == old(self).handles_map().dom(),
            valid_volume(volume as int) ==> forall|k: Seq<char>|
                old(self).handles_map().dom().contains(k) ==> #[trigger] final(self).handles_map()[k] == old(self).handles_map()[k].with_volume_spec(volume),
            !valid_volume(volume as int) ==> final(self).handles_map() == old(self).handles_map()
                && (r matches Err(e) && e matches Errors::AudioVolumeError(m) && m@
                == "Volume out of range"@),
    {
        if volume < 0 || volume > VOLUME_SCALE {
            return Err(Errors::AudioVolumeError("Volume out of range".to_owned()));
        }
        self.handles.set_volume_all(volume);
        Ok(())
    }

    /// Pauses `name`'s tracked handle; pausing an already-paused or stopped
    /// handle is a benign no-op.  Fails with `SoundNotFoundError` exactly
    /// when no handle is tracked for `name`.
    pub fn pause(&mut self, name: &str) -> (r: Result<(), Errors>)
        requires
            old(self).wf(),
        ensures
            final(self).wf(),
            final(self).sounds_map() == old(self).sounds_map(),
            final(self).handles_map() == pause_by_name(old(self).handles_map(), name@),
            r is Ok <==> old(self).handles_map().dom().contains(name@),
            r matches Err(e) ==> (e matches Errors::SoundNotFoundError(m) && m@ == name@),
    {
        match self.handles.get(name) {
            Some(h_ref) => {
                let mut h: PlaybackHandle = *h_ref;
                h.pause();
                self.handles.insert(name, h);
                Ok(())
            },
            None => Err(Errors::SoundNotFoundError(name.to_owned())),
        }
    }

    /// Resumes `name`'s tracked handle; resuming an already-playing handle
    /// is a benign no-op, and a stopped handle stays stopped.  Fails with
    /// `SoundNotFoundError` exactly when no handle is tracked for `name`.
    pub fn resume(&mut self, name: &str) -> (r: Result<(), Errors>)
        requires
            old(self).wf(),
        ensures
            final(self).wf(),
            final(self).sounds_map() == old(self).sounds_map(),
            final(self).handles_map() == resume_by_name(old(self).handles_map(), name@),
            r is Ok <==> old(self).handles_map().dom().contains(name@),
            r matches Err(e) ==> (e matches Errors::SoundNotFoundError(m) && m@ == name@),
    {
        match self.handles.get(name) {
            Some(h_ref) => {
                let mut h: PlaybackHandle = *h_ref;
                h.resume();
                self.handles.insert(name, h);
                Ok(())
            },
            None => Err(Errors::SoundNotFoundError(name.to_owned())),
        }
    }

    /// Stops `name`'s tracked handle and flushes its queue; stopping an
    /// already-stopped handle is a benign no-op.  Fails with
    /// `SoundNotFoundError` exactly when no handle is tracked for `name`.
    pub fn stop(&mut self, name: &str) -> (r: Result<(), Errors>)
        requires
            old(self).wf(),
        ensures
            final(self).wf(),
            final(self).sounds_map() == old(self).sounds_map(),
            final(self).handles_map() == stop_by_name(old(self).handles_map(), name@),
            r is Ok <==> old(self).handles_map().dom().contains(name@),
            r matches Err(e) ==> (e matches Errors::SoundNotFoundError(m) && m@ == name@),
    {
        match self.handles.get(name) {
            Some(h_ref) => {
                let mut h: PlaybackHandle = *h_ref;
                h.stop();
                self.handles.insert(name, h);
                Ok(())
            },
            None => Err(Errors::SoundNotFoundError(name.to_owned())),
        }
    }

    /// Pauses every tracked handle.  A benign no-op on an empty registry.
    pub fn pause_all(&mut self)
        requires
            old(self).wf(),
        ensures
            final(self).wf(),
            final(self).sounds_map() == old(self).sounds_map(),
            final(self).handles_map().dom() == old(self).handles_map().dom(),
            forall|k: Seq<char>|
                old(self).handles_map().dom().contains(k) ==> #[trigger] final(self).handles_map()[k] == old(self).handles_map()[k].pause_spec(),
    {
        self.handles.pause_all();
    }

    /// Resumes every tracked handle.  A benign no-op on an empty registry.
    pub fn resume_all(&mut self)
        requires
            old(self).wf(),
        ensures
            final(self).wf(),
            final(self).sounds_map() == old(self).sounds_map(),
            final(self).handles_map().dom() == old(self).handles_map().dom(),
            forall|k: Seq<char>|
                old(self).handles_map().dom().contains(k) ==> #[trigger] final(self).handles_map()[k] == old(self).handles_map()[k].resume_spec(),
    {
        self.handles.resume_all();
    }

    /// Stops every tracked handle.  A benign no-op on an empty registry.
    pub fn stop_all(&mut self)
        requires
            old(self).wf(),
        ensures
            final(self).wf(),
            final(self).sounds_map() == old(self).sounds_map(),
            final(self).handles_map().dom() == old(self).handles_map().dom(),
            forall|k: Seq<char>|
                old(self).handles_map().dom().contains(k) ==> #[trigger] final(self).handles_map()[k] == old(self).handles_map()[k].stop_spec(),
    {
        self.handles.stop_all();
    }

    /// Records that the hardware has rendered `rendered` samples from
    /// `name`'s queue; reported by the host application so that natural
    /// completion of a one-shot sound becomes observable.  Fails with
    /// `SoundNotFoundError` exactly when no handle is tracked for `name`.
    pub fn drain(&mut self, name: &str, rendered: usize) -> (r: Result<(), Errors>)
        requires
            old(self).wf(),
        ensures
            final(self).wf(),
            final(self).sounds_map() == old(self).sounds_map(),
            final(self).handles_map() == drain_by_name(old(self).handles_map(), name@, rendered),
            r is Ok <==> old(self).handles_map().dom().contains(name@),
            r matches Err(e) ==> (e matches Errors::SoundNotFoundError(m) && m@ == name@),
    {
        match self.handles.get(name) {
            Some(h_ref) => {
                let mut h: PlaybackHandle = *h_ref;
                h.drain(rendered);
                self.handles.insert(name, h);
                Ok(())
            },
            None => Err(Errors::SoundNotFoundError(name.to_owned())),
        }
    }

    /// Whether `name`'s tracked handle is audibly in progress: started, not
    /// paused, queue not yet dry.  Reconciled against the modelled queue, so
    /// a one-shot sound that ran out of samples reports `false` with no
    /// explicit stop.  Fails with `SoundNotFoundError` exactly when no
    /// handle is tracked for `name`.
    pub fn is_playing(&self, name: &str) -> (r: Result<bool, Errors>)
        requires
            self.wf(),
        ensures
            r is Ok <==> self.handles_map().dom().contains(name@),
            r matches Ok(b) ==> b == self.handles_map()[name@].is_playing_spec(),
            r matches Err(e) ==> (e matches Errors::SoundNotFoundError(m) && m@ == name@),
    {
        match self.handles.get(name) {
            Some(h_ref) => Ok(h_ref.is_playing()),
            None => Err(Errors::SoundNotFoundError(name.to_owned())),
        }
    }

    /// Whether the last explicit transition on `name`'s tracked handle was a
    /// pause.  A cached flag, not reconciled against the queue.  Fails with
    /// `SoundNotFoundError` exactly when no handle is tracked for `name`.
    pub fn is_paused(&self, name: &str) -> (r: Result<bool, Errors>)
        requires
            self.wf(),
        ensures
            r is Ok <==> self.handles_map().dom().contains(name@),
            r matches Ok(b) ==> b == self.handles_map()[name@].is_paused_spec(),
            r matches Err(e) ==> (e matches Errors::SoundNotFoundError(m) && m@ == name@),
    {
        match self.handles.get(name) {
            Some(h_ref) => Ok(h_ref.is_paused()),
            None => Err(Errors::SoundNotFoundError(name.to_owned())),
        }
    }

    /// The current volume of `name`'s tracked handle, in thousandths of
    /// full amplitude.  Fails with `SoundNotFoundError` exactly when no
    /// handle is tracked for `name`.
    pub fn volume(&self, name: &str) -> (r: Result<i64, Errors>)
        requires
            self.wf(),
        ensures
            r is Ok <==> self.handles_map().dom().contains(name@),
            r matches Ok(v) ==> v == self.handles_map()[name@].volume,
            r matches Err(e) ==> (e matches Errors::SoundNotFoundError(m) && m@ == name@),
    {
        match self.handles.get(name) {
            Some(h_ref) => Ok(h_ref.volume()),
            None => Err(Errors::SoundNotFoundError(name.to_owned())),
        }
    }

    /// Read-only access to the waveform registered under `name`, for the
    /// host application to push into a freshly minted hardware queue.
    pub fn sound(&self, name: &str) -> (r: Option<&Sound>)
        requires
            self.wf(),
        ensures
            r is Some <==> self.sounds_map().dom().contains(name@),
            r matches Some(s) ==> s@ == self.sounds_map()[name@],
    {
        self.sounds.get(name)
    }

    /// Whether a sound is registered under `name`.
    pub fn has_sound(&self, name: &str) -> (b: bool)
        requires
            self.wf(),
        ensures
            b == self.sounds_map().dom().contains(name@),
    {
        self.sounds.contains(name)
    }

    /// Whether a playback handle is tracked for `name`.
    pub fn has_handle(&self, name: &str) -> (b: bool)
        requires
            self.wf(),
        ensures
            b == self.handles_map().dom().contains(name@),
    {
        self.handles.contains(name)
    }

    /// The number of registered sounds.
    pub fn sound_count(&self) -> (n: usize)
        requires
            self.wf(),
        ensures
            n == self.sounds_map().dom().len(),
    {
        self.sounds.len()
    }

    /// The number of tracked playback handles.
    pub fn handle_count(&self) -> (n: usize)
        requires
            self.wf(),
        ensures
            n == self.handles_map().dom().len(),
    {
        self.handles.len()
    }
}

/// Law: pausing a name twice in a row, with nothing in between, leaves the
/// handle registry exactly as pausing it once does.
pub proof fn lemma_pause_by_name_idempotent(m: Map<Seq<char>, PlaybackHandle>, n: Seq<char>)
    ensures
        pause_by_name(pause_by_name(m, n), n) =~= pause_by_name(m, n),
{
    if m.dom().contains(n) {
        crate::playback::lemma_pause_idempotent(m[n]);
    }
}

/// Law: resuming a name twice in a row, with nothing in between, leaves the
/// handle registry exactly as resuming it once does.
pub proof fn lemma_resume_by_name_idempotent(m: Map<Seq<char>, PlaybackHandle>, n: Seq<char>)
    ensures
        resume_by_name(resume_by_name(m, n), n) =~= resume_by_name(m, n),
{
    if m.dom().contains(n) {
        crate::playback::lemma_resume_idempotent(m[n]);
    }
}

/// Law: stopping a name twice in a row, with nothing in between, leaves the
/// handle registry exactly as stopping it once does.
pub proof fn lemma_stop_by_name_idempotent(m: Map<Seq<char>, PlaybackHandle>, n: Seq<char>)
    ensures
        stop_by_name(stop_by_name(m, n), n) =~= stop_by_name(m, n),
{
    if m.dom().contains(n) {
        crate::playback::lemma_stop_idempotent(m[n]);
    }
}

/// Law: restarting a name replaces the tracked handle, it never
/// accumulates.  Two back-to-back one-shot starts leave the registry
/// exactly as one does; the name is bound to the one fresh started handle,
/// and no other binding appears.
pub proof fn lemma_play_once_replaces(
    sounds: Map<Seq<char>, Seq<i16>>,
    m: Map<Seq<char>, PlaybackHandle>,
    n: Seq<char>,
)
    requires
        sounds.dom().contains(n),
    ensures
        play_once_by_name(sounds, play_once_by_name(sounds, m, n), n) =~= play_once_by_name(
            sounds,
            m,
            n,
        ),
        play_once_by_name(sounds, m, n)[n] == PlaybackHandle::fresh_spec().start_once_spec(
            sounds[n],
        ),
        play_once_by_name(sounds, m, n).dom() =~= m.dom().insert(n),
{
}

/// Law: for a name with a tracked handle, setting the volume succeeds for
/// exactly the values of the unit range — the orchestrator's `set_volume`
/// contract ties `Ok` to that condition and leaves the registry untouched
/// on rejection — and an accepted value re-binds that name's volume alone:
/// the handle keeps its state, loop flag and queue, and every other name
/// keeps its handle.  A name with no tracked handle (loaded but never
/// started among them) is outside this law: such a call fails with the
/// not-found error whatever the value.
pub proof fn lemma_set_volume_unit_range(
    m: Map<Seq<char>, PlaybackHandle>,
    n: Seq<char>,
    v: i64,
)
    requires
        m.dom().contains(n),
        valid_volume(v as int),
    ensures
        volume_by_name(m, n, v).dom() =~= m.dom(),
        volume_by_name(m, n, v)[n].volume == v,
        volume_by_name(m, n, v)[n].state == m[n].state,
        volume_by_name(m, n, v)[n].looped == m[n].looped,
        volume_by_name(m, n, v)[n].queued == m[n].queued,
        forall|k: Seq<char>|
            m.dom().contains(k) && k != n ==> #[trigger] volume_by_name(m, n, v)[k] == m[k],
{
}

/// Law: a one-shot start on a waveform with at least one sample leaves the
/// name audibly in progress.
pub proof fn lemma_play_once_starts_playing(
    sounds: Map<Seq<char>, Seq<i16>>,
    m: Map<Seq<char>, PlaybackHandle>,
    n: Seq<char>,
)
    requires
        sounds.dom().contains(n),
        0 < sounds[n].len() <= usize::MAX,
    ensures
        play_once_by_name(sounds, m, n)[n].is_playing_spec(),
{
}

/// Law: once the hardware has rendered a one-shot start's whole waveform,
/// the name reports not-playing with no explicit stop call; a zero-length
/// waveform does so immediately.
pub proof fn lemma_oneshot_completion_by_name(
    sounds: Map<Seq<char>, Seq<i16>>,
    m: Map<Seq<char>, PlaybackHandle>,
    n: Seq<char>,
    rendered: usize,
)
    requires
        sounds.dom().contains(n),
        rendered >= sounds[n].len(),
    ensures
        !drain_by_name(play_once_by_name(sounds, m, n), n, rendered)[n].is_playing_spec(),
{
    crate::playback::lemma_oneshot_completion(
        PlaybackHandle::fresh_spec(),
        sounds[n],
        rendered,
    );
}

/// Law: restarting a name in a loop replaces the tracked handle just as a
/// one-shot restart does.
pub proof fn lemma_play_loop_replaces(
    sounds: Map<Seq<char>, Seq<i16>>,
    m: Map<Seq<char>, PlaybackHandle>,
    n: Seq<char>,
)
    requires
        sounds.dom().contains(n),
    ensures
        play_loop_by_name(sounds, play_loop_by_name(sounds, m, n), n) =~= play_loop_by_name(
            sounds,
            m,
            n,
        ),
        play_loop_by_name(sounds, m, n)[n] == PlaybackHandle::fresh_spec().start_loop_spec(
            sounds[n],
        ),
        play_loop_by_name(sounds, m, n).dom() =~= m.dom().insert(n),
{
}

} // verus!
