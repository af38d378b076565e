//! Tests of the playback handle's state machine, taken on its own.

use glwfr::custom_errors::Errors;
use glwfr::playback::{PlaybackHandle, PlaybackState, VOLUME_SCALE};
use glwfr::sound::Sound;

#[test]
fn fresh_handle_is_stopped_at_full_volume() {
    let h = PlaybackHandle::new();
    assert_eq!(h.state(), PlaybackState::Stopped);
    assert!(!h.is_playing());
    assert!(!h.is_paused());
    assert_eq!(h.volume(), VOLUME_SCALE);
}

#[test]
fn start_once_plays_iff_samples_nonempty() {
    let mut h = PlaybackHandle::new();
    h.start_once(&Sound::new(vec![1, 2, 3]));
    assert_eq!(h.state(), PlaybackState::Playing);
    assert!(h.is_playing());

    let mut empty = PlaybackHandle::new();
    empty.start_once(&Sound::new(Vec::new()));
    assert_eq!(empty.state(), PlaybackState::Playing);
    assert!(!empty.is_playing());
}

#[test]
fn start_loop_on_empty_waveform_is_immediately_dry() {
    let mut h = PlaybackHandle::new();
    h.start_loop(&Sound::new(Vec::new()));
    assert!(!h.is_playing());

    let mut looped = PlaybackHandle::new();
    looped.start_loop(&Sound::new(vec![1]));
    assert!(looped.is_playing());
}

#[test]
fn pause_and_resume_round_trip() {
    let mut h = PlaybackHandle::new();
    h.start_once(&Sound::new(vec![1, 2]));
    h.pause();
    assert_eq!(h.state(), PlaybackState::Paused);
    assert!(h.is_paused());
    assert!(!h.is_playing());
    h.resume();
    assert_eq!(h.state(), PlaybackState::Playing);
    assert!(!h.is_paused());
    assert!(h.is_playing());
}

#[test]
fn pause_on_stopped_handle_is_a_no_op() {
    let mut h = PlaybackHandle::new();
    h.pause();
    assert_eq!(h.state(), PlaybackState::Stopped);
    assert!(!h.is_paused());
}

#[test]
fn resume_never_restarts_a_stopped_handle() {
    let mut h = PlaybackHandle::new();
    h.start_once(&Sound::new(vec![1, 2]));
    h.stop();
    h.resume();
    assert_eq!(h.state(), PlaybackState::Stopped);
    assert!(!h.is_playing());
}

#[test]
fn stop_flushes_the_queue() {
    let mut h = PlaybackHandle::new();
    h.start_loop(&Sound::new(vec![1, 2, 3]));
    assert!(h.is_playing());
    h.stop();
    assert_eq!(h.state(), PlaybackState::Stopped);
    assert!(!h.is_playing());
    h.stop();
    assert_eq!(h.state(), PlaybackState::Stopped);
}

#[test]
fn pausing_a_finished_queue_still_reports_paused() {
    // The pause flag is cached intent, not reconciled against the queue.
    let mut h = PlaybackHandle::new();
    h.start_once(&Sound::new(vec![1]));
    h.drain(1);
    assert!(!h.is_playing());
    h.pause();
    assert!(h.is_paused());
    assert!(!h.is_playing());
}

#[test]
fn handle_volume_is_validated_and_kept_on_failure() {
    let mut h = PlaybackHandle::new();
    assert!(h.set_volume(123).is_ok());
    assert_eq!(h.volume(), 123);
    assert!(matches!(h.set_volume(-5), Err(Errors::AudioVolumeError(_))));
    assert_eq!(h.volume(), 123);
    assert!(matches!(h.set_volume(VOLUME_SCALE + 1), Err(Errors::AudioVolumeError(_))));
    assert_eq!(h.volume(), 123);
}

#[test]
fn volume_set_before_start_stays_in_force() {
    let mut h = PlaybackHandle::new();
    h.set_volume(200).unwrap();
    h.start_once(&Sound::new(vec![1, 2]));
    assert_eq!(h.volume(), 200);
}

#[test]
fn drain_counts_down_one_shot_queues_only() {
    let mut h = PlaybackHandle::new();
    h.start_once(&Sound::new(vec![1, 2, 3, 4, 5]));
    h.drain(3);
    assert!(h.is_playing());
    h.drain(99);
    assert!(!h.is_playing());

    let mut looped = PlaybackHandle::new();
    looped.start_loop(&Sound::new(vec![1, 2, 3]));
    looped.drain(1_000_000);
    assert!(looped.is_playing());
}
