//! Tests of the OpenGL error classifier, the input state and the texture
//! data validation.

use glwfr::custom_errors::{
    check_opengl_error, Errors, GL_INVALID_ENUM, GL_INVALID_OPERATION, GL_INVALID_VALUE,
    GL_NO_ERROR, GL_OUT_OF_MEMORY,
};
use glwfr::input::{reset_state, InputEvent, InputState, KEY_COUNT, MOUSE_BUTTON_COUNT};
use glwfr::sound::{Sound, CHANNEL_COUNT, SAMPLE_RATE};
use glwfr::texture::rgba_data_len_matches;

#[test]
fn no_error_flag_is_ok() {
    assert!(check_opengl_error(GL_NO_ERROR).is_ok());
}

#[test]
fn known_error_flags_carry_their_message() {
    assert_eq!(
        check_opengl_error(GL_INVALID_ENUM),
        Err(Errors::OpenGlError("Invalid enum".to_string(), GL_INVALID_ENUM))
    );
    assert_eq!(
        check_opengl_error(GL_INVALID_VALUE),
        Err(Errors::OpenGlError("Invalid value".to_string(), GL_INVALID_VALUE))
    );
    assert_eq!(
        check_opengl_error(GL_INVALID_OPERATION),
        Err(Errors::OpenGlError("Invalid operation".to_string(), GL_INVALID_OPERATION))
    );
    assert_eq!(
        check_opengl_error(GL_OUT_OF_MEMORY),
        Err(Errors::OpenGlError("Out of memory".to_string(), GL_OUT_OF_MEMORY))
    );
}

#[test]
fn unknown_error_flag_carries_its_code_in_the_message() {
    assert_eq!(
        check_opengl_error(0x9999),
        Err(Errors::OpenGlError("Unknown OpenGL error (code: 39321)".to_string(), 0x9999))
    );
    assert_eq!(
        check_opengl_error(7),
        Err(Errors::OpenGlError("Unknown OpenGL error (code: 7)".to_string(), 7))
    );
    assert_eq!(
        check_opengl_error(u32::MAX),
        Err(Errors::OpenGlError("Unknown OpenGL error (code: 4294967295)".to_string(), u32::MAX))
    );
}

#[test]
fn fresh_input_state_is_clear() {
    let state = InputState::new();
    for key in 0..KEY_COUNT {
        assert!(!state.is_key_pressed(key));
    }
    for button in 0..MOUSE_BUTTON_COUNT {
        assert!(!state.is_mouse_button_pressed(button));
    }
}

#[test]
fn key_events_toggle_exactly_one_slot() {
    let mut state = InputState::new();
    state.process_event(InputEvent::KeyPress(32));
    assert!(state.is_key_pressed(32));
    assert!(!state.is_key_pressed(31));
    assert!(!state.is_key_pressed(33));
    state.process_event(InputEvent::KeyRelease(32));
    assert!(!state.is_key_pressed(32));
}

#[test]
fn mouse_events_toggle_exactly_one_slot() {
    let mut state = InputState::new();
    state.process_event(InputEvent::MouseButtonPress(0));
    state.process_event(InputEvent::MouseButtonPress(7));
    assert!(state.is_mouse_button_pressed(0));
    assert!(state.is_mouse_button_pressed(7));
    assert!(!state.is_mouse_button_pressed(1));
    state.process_event(InputEvent::MouseButtonRelease(7));
    assert!(!state.is_mouse_button_pressed(7));
    assert!(state.is_mouse_button_pressed(0));
}

#[test]
fn reset_state_clears_everything() {
    let mut state = InputState::new();
    state.process_event(InputEvent::KeyPress(10));
    state.process_event(InputEvent::KeyPress(349));
    state.process_event(InputEvent::MouseButtonPress(3));
    reset_state(&mut state);
    for key in 0..KEY_COUNT {
        assert!(!state.is_key_pressed(key));
    }
    for button in 0..MOUSE_BUTTON_COUNT {
        assert!(!state.is_mouse_button_pressed(button));
    }
}

#[test]
fn rgba_length_check_accepts_exact_size() {
    assert!(rgba_data_len_matches(2, 3, 24));
    assert!(rgba_data_len_matches(0, 5, 0));
    assert!(rgba_data_len_matches(1, 1, 4));
}

#[test]
fn rgba_length_check_rejects_wrong_size() {
    assert!(!rgba_data_len_matches(2, 3, 23));
    assert!(!rgba_data_len_matches(2, 3, 25));
    assert!(!rgba_data_len_matches(0, 5, 1));
}

#[test]
fn rgba_length_check_handles_huge_dimensions() {
    // 4294967295 * 4294967295 * 4 overflows every 64-bit width; the check
    // must still answer, not wrap or panic.
    assert!(!rgba_data_len_matches(u32::MAX, u32::MAX, usize::MAX));
    assert!(!rgba_data_len_matches(u32::MAX, 2, 0));
}

#[test]
fn sound_exposes_its_samples_read_only() {
    let sound = Sound::new(vec![3, -3, 7]);
    assert_eq!(sound.len(), 3);
    assert!(!sound.is_empty());
    assert_eq!(sound.samples(), &vec![3, -3, 7]);
    let silent = Sound::new(Vec::new());
    assert!(silent.is_empty());
    assert_eq!(silent.len(), 0);
}

#[test]
fn decode_target_format_is_fixed() {
    assert_eq!(SAMPLE_RATE, 44100);
    assert_eq!(CHANNEL_COUNT, 1);
}
