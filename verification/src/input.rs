//! The key-press state machine attached to the presented surface.
//!
//! Two keys are recognised: Escape dismisses the overlay by quitting the
//! whole application, and F12 toggles the surface's keyboard-exclusivity so
//! that an external inspection tool can gain focus. Every other key is left
//! for the toolkit's default handling.

use vstd::prelude::*;

verus! {

/// Keyboard interactivity of the layer-shell surface. `Exclusive` steals all
/// keyboard input from the rest of the desktop; `OnDemand` relinquishes that
/// capture.
#[derive(Clone, Copy, Debug, PartialEq, Eq, Structural)]
pub enum KeyboardMode {
    Exclusive,
    OnDemand,
}

/// A key-press event, already reduced to the three classes the overlay
/// distinguishes.
#[derive(Clone, Copy, Debug, PartialEq, Eq, Structural)]
pub enum Key {
    Escape,
    F12,
    Other,
}

/// What the event-loop shell must do in response to a key press. `Quit` and
/// `SetKeyboardMode` consume the event; `Propagate` leaves it to the
/// toolkit's default handling.
#[derive(Clone, Copy, Debug, PartialEq, Eq, Structural)]
pub enum KeyAction {
    Quit,
    SetKeyboardMode(KeyboardMode),
    Propagate,
}

/// The keyboard mode the F12 toggle switches to, from the mode the surface
/// reports at the moment of the key press.
pub open spec fn toggled(mode: KeyboardMode) -> KeyboardMode {
    match mode {
        KeyboardMode::Exclusive => KeyboardMode::OnDemand,
        KeyboardMode::OnDemand => KeyboardMode::Exclusive,
    }
}

/// The full response of the input state machine to one key press.
pub open spec fn key_action(key: Key, mode: KeyboardMode) -> KeyAction {
    match key {
        Key::Escape => KeyAction::Quit,
        Key::F12 => KeyAction::SetKeyboardMode(toggled(mode)),
        Key::Other => KeyAction::Propagate,
    }
}

/// Decide the response to one key press. `current_mode` is the keyboard mode
/// read from the live surface at the moment of the event, never a cached
/// copy, so an externally performed toggle is never observed stale.
pub fn on_key_press(key: Key, current_mode: KeyboardMode) -> (action: KeyAction)
    ensures
        action == key_action(key, current_mode),
{
    match key {
        Key::Escape => KeyAction::Quit,
        Key::F12 => {
            let new_mode = match current_mode {
                KeyboardMode::Exclusive => KeyboardMode::OnDemand,
                KeyboardMode::OnDemand => KeyboardMode::Exclusive,
            };
            KeyAction::SetKeyboardMode(new_mode)
        },
        Key::Other => KeyAction::Propagate,
    }
}

/// Each F12 press flips the keyboard mode, so two consecutive presses
/// restore whatever mode the surface was in before.
pub proof fn lemma_toggle_involutive(mode: KeyboardMode)
    ensures
        toggled(toggled(mode)) == mode,
{
}

/// An Escape press quits the application whatever the current keyboard mode.
pub proof fn lemma_escape_always_quits(mode: KeyboardMode)
    ensures
        key_action(Key::Escape, mode) == KeyAction::Quit,
{
}

} // verus!
