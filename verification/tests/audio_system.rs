//! Tests of the audio system orchestrator: registries, playback control by
//! name, volume handling and the error cases of each operation.

use glwfr::audio::AudioSystem;
use glwfr::custom_errors::Errors;
use glwfr::sound::Sound;

fn loaded_system(name: &str, samples: Vec<i16>) -> AudioSystem {
    let mut sys = AudioSystem::new();
    sys.load_sound(name, Sound::new(samples));
    sys
}

#[test]
fn new_system_is_empty() {
    let sys = AudioSystem::new();
    assert_eq!(sys.sound_count(), 0);
    assert_eq!(sys.handle_count(), 0);
    assert!(!sys.has_sound("anything"));
    assert!(!sys.has_handle("anything"));
}

#[test]
fn load_sound_registers_name() {
    let sys = loaded_system("click", vec![1, 2, 3]);
    assert!(sys.has_sound("click"));
    assert!(!sys.has_handle("click"));
    assert_eq!(sys.sound_count(), 1);
    assert_eq!(sys.handle_count(), 0);
}

#[test]
fn play_unknown_name_fails_once() {
    let mut sys = AudioSystem::new();
    let r = sys.play_sound_once("missing");
    assert!(matches!(r, Err(Errors::SoundNotFoundError(n)) if n == "missing"));
}

#[test]
fn play_unknown_name_fails_loop() {
    let mut sys = loaded_system("present", vec![1]);
    let r = sys.play_sound_loop("absent");
    assert!(matches!(r, Err(Errors::SoundNotFoundError(n)) if n == "absent"));
    assert!(!sys.has_handle("absent"));
}

#[test]
fn untracked_name_fails_every_control_call() {
    // "quiet" is loaded but never started, so no handle is tracked for it.
    let mut sys = loaded_system("quiet", vec![1, 2]);
    assert!(matches!(sys.pause("quiet"), Err(Errors::SoundNotFoundError(n)) if n == "quiet"));
    assert!(matches!(sys.resume("quiet"), Err(Errors::SoundNotFoundError(n)) if n == "quiet"));
    assert!(matches!(sys.stop("quiet"), Err(Errors::SoundNotFoundError(n)) if n == "quiet"));
    assert!(matches!(sys.is_playing("quiet"), Err(Errors::SoundNotFoundError(n)) if n == "quiet"));
    assert!(matches!(sys.is_paused("quiet"), Err(Errors::SoundNotFoundError(n)) if n == "quiet"));
    assert!(
        matches!(sys.set_volume("quiet", 500), Err(Errors::SoundNotFoundError(n)) if n == "quiet")
    );
    assert!(matches!(sys.volume("quiet"), Err(Errors::SoundNotFoundError(n)) if n == "quiet"));
    assert!(matches!(sys.drain("quiet", 1), Err(Errors::SoundNotFoundError(n)) if n == "quiet"));
}

#[test]
fn set_volume_accepts_exactly_the_unit_range() {
    let mut sys = loaded_system("s", vec![5; 10]);
    sys.play_sound_once("s").unwrap();
    assert!(sys.set_volume("s", 0).is_ok());
    assert!(sys.set_volume("s", 1000).is_ok());
    assert!(sys.set_volume("s", 500).is_ok());
    assert!(matches!(sys.set_volume("s", -1), Err(Errors::AudioVolumeError(_))));
    assert!(matches!(sys.set_volume("s", 1001), Err(Errors::AudioVolumeError(_))));
}

#[test]
fn rejected_volume_leaves_previous_volume_in_force() {
    let mut sys = loaded_system("s", vec![5; 10]);
    sys.play_sound_once("s").unwrap();
    sys.set_volume("s", 250).unwrap();
    assert!(sys.set_volume("s", 2000).is_err());
    assert_eq!(sys.volume("s").unwrap(), 250);
    assert!(sys.set_volume("s", -3).is_err());
    assert_eq!(sys.volume("s").unwrap(), 250);
}

#[test]
fn missing_name_outranks_bad_volume() {
    let mut sys = AudioSystem::new();
    let r = sys.set_volume("ghost", 5000);
    assert!(matches!(r, Err(Errors::SoundNotFoundError(n)) if n == "ghost"));
}

#[test]
fn pause_twice_equals_pause_once() {
    let mut sys = loaded_system("s", vec![1, 2, 3]);
    sys.play_sound_once("s").unwrap();
    sys.pause("s").unwrap();
    let paused_once = (
        sys.is_paused("s").unwrap(),
        sys.is_playing("s").unwrap(),
        sys.volume("s").unwrap(),
    );
    sys.pause("s").unwrap();
    let paused_twice = (
        sys.is_paused("s").unwrap(),
        sys.is_playing("s").unwrap(),
        sys.volume("s").unwrap(),
    );
    assert_eq!(paused_once, paused_twice);
    assert_eq!(paused_once, (true, false, 1000));
}

#[test]
fn resume_twice_equals_resume_once() {
    let mut sys = loaded_system("s", vec![1, 2, 3]);
    sys.play_sound_once("s").unwrap();
    sys.pause("s").unwrap();
    sys.resume("s").unwrap();
    let once = (sys.is_paused("s").unwrap(), sys.is_playing("s").unwrap());
    sys.resume("s").unwrap();
    let twice = (sys.is_paused("s").unwrap(), sys.is_playing("s").unwrap());
    assert_eq!(once, twice);
    assert_eq!(once, (false, true));
}

#[test]
fn stop_twice_equals_stop_once() {
    let mut sys = loaded_system("s", vec![1, 2, 3]);
    sys.play_sound_once("s").unwrap();
    sys.stop("s").unwrap();
    let once = (sys.is_paused("s").unwrap(), sys.is_playing("s").unwrap());
    sys.stop("s").unwrap();
    let twice = (sys.is_paused("s").unwrap(), sys.is_playing("s").unwrap());
    assert_eq!(once, twice);
    assert_eq!(once, (false, false));
}

#[test]
fn restart_replaces_the_tracked_handle() {
    let mut sys = loaded_system("x", vec![7; 44100]);
    sys.play_sound_once("x").unwrap();
    sys.pause("x").unwrap();
    assert!(sys.is_paused("x").unwrap());
    assert_eq!(sys.handle_count(), 1);
    // A second start replaces the paused handle by a fresh playing one;
    // nothing accumulates.
    sys.play_sound_once("x").unwrap();
    assert_eq!(sys.handle_count(), 1);
    assert!(!sys.is_paused("x").unwrap());
    assert!(sys.is_playing("x").unwrap());
}

#[test]
fn restart_resets_volume_to_full() {
    let mut sys = loaded_system("x", vec![7; 100]);
    sys.play_sound_once("x").unwrap();
    sys.set_volume("x", 300).unwrap();
    sys.play_sound_once("x").unwrap();
    assert_eq!(sys.volume("x").unwrap(), 1000);
}

#[test]
fn empty_one_shot_reports_finished_without_stop() {
    let mut sys = loaded_system("blip", Vec::new());
    sys.play_sound_once("blip").unwrap();
    assert!(!sys.is_playing("blip").unwrap());
    assert!(!sys.is_paused("blip").unwrap());
}

#[test]
fn drained_one_shot_reports_finished_without_stop() {
    let mut sys = loaded_system("blip", vec![1, 2, 3, 4]);
    sys.play_sound_once("blip").unwrap();
    assert!(sys.is_playing("blip").unwrap());
    sys.drain("blip", 2).unwrap();
    assert!(sys.is_playing("blip").unwrap());
    sys.drain("blip", 2).unwrap();
    assert!(!sys.is_playing("blip").unwrap());
}

#[test]
fn looped_playback_survives_draining() {
    let mut sys = loaded_system("bg", vec![1, 2, 3]);
    sys.play_sound_loop("bg").unwrap();
    sys.drain("bg", 1_000_000).unwrap();
    assert!(sys.is_playing("bg").unwrap());
    sys.stop("bg").unwrap();
    assert!(!sys.is_playing("bg").unwrap());
}

#[test]
fn reload_does_not_disturb_playing_handle() {
    let mut sys = loaded_system("s", vec![9; 50]);
    sys.play_sound_once("s").unwrap();
    assert!(sys.is_playing("s").unwrap());
    // Overwrite the registered waveform while the old one plays.
    sys.load_sound("s", Sound::new(Vec::new()));
    assert!(sys.is_playing("s").unwrap());
    // Only the next start picks up the new (empty) waveform.
    sys.play_sound_once("s").unwrap();
    assert!(!sys.is_playing("s").unwrap());
}

#[test]
fn set_volume_all_is_never_partial() {
    let mut sys = AudioSystem::new();
    sys.load_sound("a", Sound::new(vec![1; 10]));
    sys.load_sound("b", Sound::new(vec![2; 10]));
    sys.play_sound_once("a").unwrap();
    sys.play_sound_loop("b").unwrap();
    sys.set_volume_all(400).unwrap();
    assert_eq!(sys.volume("a").unwrap(), 400);
    assert_eq!(sys.volume("b").unwrap(), 400);
    let r = sys.set_volume_all(1500);
    assert!(matches!(r, Err(Errors::AudioVolumeError(_))));
    assert_eq!(sys.volume("a").unwrap(), 400);
    assert_eq!(sys.volume("b").unwrap(), 400);
}

#[test]
fn set_volume_all_on_empty_registry_only_checks_the_value() {
    let mut sys = AudioSystem::new();
    assert!(sys.set_volume_all(700).is_ok());
    assert!(sys.set_volume_all(-10).is_err());
}

#[test]
fn bulk_transitions_touch_every_handle() {
    let mut sys = AudioSystem::new();
    sys.load_sound("a", Sound::new(vec![1; 10]));
    sys.load_sound("b", Sound::new(vec![2; 10]));
    sys.play_sound_once("a").unwrap();
    sys.play_sound_loop("b").unwrap();
    sys.pause_all();
    assert!(sys.is_paused("a").unwrap());
    assert!(sys.is_paused("b").unwrap());
    sys.resume_all();
    assert!(sys.is_playing("a").unwrap());
    assert!(sys.is_playing("b").unwrap());
    sys.stop_all();
    assert!(!sys.is_playing("a").unwrap());
    assert!(!sys.is_playing("b").unwrap());
    assert!(!sys.is_paused("a").unwrap());
    assert!(!sys.is_paused("b").unwrap());
}

#[test]
fn bulk_transitions_on_empty_registry_are_no_ops() {
    let mut sys = AudioSystem::new();
    sys.pause_all();
    sys.resume_all();
    sys.stop_all();
    assert_eq!(sys.handle_count(), 0);
}

#[test]
fn one_shot_scenario_end_to_end() {
    // Load a short click waveform, start it once, then drive the volume.
    let mut sys = AudioSystem::new();
    sys.load_sound("click", Sound::new(vec![100, -100, 50, -50]));
    sys.play_sound_once("click").unwrap();
    assert!(sys.is_playing("click").unwrap());
    assert!(sys.set_volume("click", 500).is_ok());
    assert!(matches!(sys.set_volume("click", 1500), Err(Errors::AudioVolumeError(_))));
    assert_eq!(sys.volume("click").unwrap(), 500);
}

#[test]
fn loop_pause_resume_scenario_end_to_end() {
    // Load a background waveform, loop it, pause and resume it.
    let mut sys = AudioSystem::new();
    sys.load_sound("bg", Sound::new(vec![1, -1, 2, -2, 3, -3]));
    sys.play_sound_loop("bg").unwrap();
    sys.pause("bg").unwrap();
    assert!(sys.is_paused("bg").unwrap());
    assert!(!sys.is_playing("bg").unwrap());
    sys.resume("bg").unwrap();
    assert!(!sys.is_paused("bg").unwrap());
    assert!(sys.is_playing("bg").unwrap());
}

#[test]
fn stopped_handle_stays_stopped_on_resume() {
    let mut sys = loaded_system("s", vec![4; 20]);
    sys.play_sound_once("s").unwrap();
    sys.stop("s").unwrap();
    sys.resume("s").unwrap();
    assert!(!sys.is_playing("s").unwrap());
    assert!(!sys.is_paused("s").unwrap());
}
