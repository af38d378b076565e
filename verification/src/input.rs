//! Keyboard and mouse input state.
//!
//! The library tracks which keys and mouse buttons are currently held down,
//! as booleans indexed by plain slot numbers.  The host application
//! translates its windowing library's key, button and action types into
//! [`InputEvent`] values and feeds them through [`InputState::process_event`];
//! cursor position and scroll offsets carry real-valued coordinates and stay
//! on the host's side.

use vstd::prelude::*;

verus! {

/// The number of distinct key slots tracked.
pub const KEY_COUNT: usize = 350;

/// The number of distinct mouse button slots tracked.
pub const MOUSE_BUTTON_COUNT: usize = 8;

/// A plain input event: a key or mouse button going down or up, by slot
/// number.
#[derive(Debug, Clone, Copy, PartialEq, Eq, Structural)]
pub enum InputEvent {
    KeyPress(usize),
    KeyRelease(usize),
    MouseButtonPress(usize),
    MouseButtonRelease(usize),
}

/// Whether the event's slot number fits the tracked ranges.
pub open spec fn event_in_range(event: InputEvent) -> bool {
    match event {
        InputEvent::KeyPress(k) => k < KEY_COUNT,
        InputEvent::KeyRelease(k) => k < KEY_COUNT,
        InputEvent::MouseButtonPress(b) => b < MOUSE_BUTTON_COUNT,
        InputEvent::MouseButtonRelease(b) => b < MOUSE_BUTTON_COUNT,
    }
}

/// The tracked input state: one held-down flag per key and per mouse
/// button.
pub struct InputState {
    keys_pressed: Vec<bool>,
    mouse_buttons_pressed: Vec<bool>,
}

impl InputState {
    /// The held-down flag of each key slot.
    pub closed spec fn keys(self) -> Seq<bool> {
        self.keys_pressed@
    }

    /// The held-down flag of each mouse button slot.
    pub closed spec fn mouse_buttons(self) -> Seq<bool> {
        self.mouse_buttons_pressed@
    }

    /// Validity: one flag per tracked slot.
    pub open spec fn wf(self) -> bool {
        self.keys().len() == KEY_COUNT && self.mouse_buttons().len() == MOUSE_BUTTON_COUNT
    }

    /// Whether nothing at all is held down.
    pub open spec fn is_clear(self) -> bool {
        &&& forall|i: int| 0 <= i < self.keys().len() ==> !(#[trigger] self.keys()[i])
        &&& forall|i: int|
            0 <= i < self.mouse_buttons().len() ==> !(#[trigger] self.mouse_buttons()[i])
    }

    /// A state with nothing held down.
    pub fn new() -> (s: InputState)
        ensures
            s.wf(),
            s.is_clear(),
    {
        let mut keys_pressed: Vec<bool> = Vec::new();
        while keys_pressed.len() < KEY_COUNT
            invariant
                keys_pressed@.len() <= KEY_COUNT,
                forall|i: int| 0 <= i < keys_pressed@.len() ==> !(#[trigger] keys_pressed@[i]),
            decreases KEY_COUNT - keys_pressed@.len(),
        {
            keys_pressed.push(false);
        }
        let mut mouse_buttons_pressed: Vec<bool> = Vec::new();
        while mouse_buttons_pressed.len() < MOUSE_BUTTON_COUNT
            invariant
                mouse_buttons_pressed@.len() <= MOUSE_BUTTON_COUNT,
                forall|i: int|
                    0 <= i < mouse_buttons_pressed@.len() ==> !(
                    #[trigger] mouse_buttons_pressed@[i]),
            decreases MOUSE_BUTTON_COUNT - mouse_buttons_pressed@.len(),
        {
            mouse_buttons_pressed.push(false);
        }
        InputState { keys_pressed, mouse_buttons_pressed }
    }

    /// Applies one event to the state: the named slot's flag follows the
    /// press or release, every other slot is untouched.
    pub fn process_event(&mut self, event: InputEvent)
        requires
            old(self).wf(),
            event_in_range(event),
        ensures
            final(self).wf(),
            event matches InputEvent::KeyPress(k) ==> final(self).keys() == old(self).keys().update(
                k as int,
                true,
            ) && final(self).mouse_buttons() == old(self).mouse_buttons(),
            event matches InputEvent::KeyRelease(k) ==> final(self).keys() == old(
                self,
            ).keys().update(k as int, false) && final(self).mouse_buttons() == old(
                self,
            ).mouse_buttons(),
            event matches InputEvent::MouseButtonPress(b) ==> final(self).mouse_buttons() == old(
                self,
            ).mouse_buttons().update(b as int, true) && final(self).keys() == old(self).keys(),
            event matches InputEvent::MouseButtonRelease(b) ==> final(self).mouse_buttons() == old(
                self,
            ).mouse_buttons().update(b as int, false) && final(self).keys() == old(self).keys(),
    {
        match event {
            InputEvent::KeyPress(k) => {
                vstd::pervasive::VecAdditionalExecFns::set(&mut self.keys_pressed, k, true);
            },
            InputEvent::KeyRelease(k) => {
                vstd::pervasive::VecAdditionalExecFns::set(&mut self.keys_pressed, k, false);
            },
            InputEvent::MouseButtonPress(b) => {
                vstd::pervasive::VecAdditionalExecFns::set(
                    &mut self.mouse_buttons_pressed,
                    b,
                    true,
                );
            },
            InputEvent::MouseButtonRelease(b) => {
                vstd::pervasive::VecAdditionalExecFns::set(
                    &mut self.mouse_buttons_pressed,
                    b,
                    false,
                );
            },
        }
    }

    /// Whether the key in the given slot is currently held down.
    pub fn is_key_pressed(&self, key: usize) -> (b: bool)
        requires
            self.wf(),
            key < KEY_COUNT,
        ensures
            b == self.keys()[key as int],
    {
        self.keys_pressed[key]
    }

    /// Whether the mouse button in the given slot is currently held down.
    pub fn is_mouse_button_pressed(&self, button: usize) -> (b: bool)
        requires
            self.wf(),
            button < MOUSE_BUTTON_COUNT,
        ensures
            b == self.mouse_buttons()[button as int],
    {
        self.mouse_buttons_pressed[button]
    }
}

/// Clears the input state: afterwards no key and no mouse button counts as
/// held down.
pub fn reset_state(state: &mut InputState)
    requires
        old(state).wf(),
    ensures
        final(state).wf(),
        final(state).is_clear(),
{
    *state = InputState::new();
}

} // verus!
