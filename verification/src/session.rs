//! A specification-level model of the presented overlay's whole input
//! session.
//!
//! Once the surface is presented, the event loop delivers key presses one at
//! a time; each is answered by [`key_action`](crate::input::key_action) and
//! the shell applies the action to the live surface. This module folds that
//! loop over a sequence of events and proves the session-wide facts: the
//! keyboard mode starts `Exclusive`, each F12 press flips it and two presses
//! restore it, other keys leave it alone, and one Escape anywhere ends the
//! process whatever the mode was.

use crate::input::{Key, KeyAction, KeyboardMode, key_action, toggled};
use crate::presenter::initial_layer_config;
use vstd::prelude::*;

verus! {

/// The keyboard mode left on the surface after one key press is handled in
/// mode `mode`: the mode the handler's action sets, or the old mode where
/// the action sets none.
pub open spec fn mode_after_key(mode: KeyboardMode, key: Key) -> KeyboardMode {
    match key_action(key, mode) {
        KeyAction::SetKeyboardMode(new_mode) => new_mode,
        KeyAction::Quit => mode,
        KeyAction::Propagate => mode,
    }
}

/// The surface's keyboard mode after the key presses `keys`, delivered in
/// order since presentation, have each been handled. Presentation leaves
/// the mode the layer-shell configuration requested.
pub open spec fn mode_after(keys: Seq<Key>) -> KeyboardMode
    decreases keys.len(),
{
    if keys.len() == 0 {
        initial_layer_config().keyboard_mode
    } else {
        mode_after_key(mode_after(keys.drop_last()), keys.last())
    }
}

/// Whether the session has requested process termination after the key
/// presses `keys`: exactly when some Escape press is among them.
pub open spec fn terminated_after(keys: Seq<Key>) -> bool {
    exists|i: int| 0 <= i < keys.len() && keys[i] == Key::Escape
}

/// Immediately after presentation, before any key press, the keyboard mode
/// is `Exclusive`.
pub proof fn lemma_mode_starts_exclusive()
    ensures
        mode_after(Seq::<Key>::empty()) == KeyboardMode::Exclusive,
{
}

/// Each F12 press flips the keyboard mode, whatever presses came before.
pub proof fn lemma_f12_flips(keys: Seq<Key>)
    ensures
        mode_after(keys.push(Key::F12)) == toggled(mode_after(keys)),
{
    assert(keys.push(Key::F12).drop_last() =~= keys);
}

/// Two consecutive F12 presses restore whatever keyboard mode the session
/// was in before them.
pub proof fn lemma_double_f12_restores(keys: Seq<Key>)
    ensures
        mode_after(keys.push(Key::F12).push(Key::F12)) == mode_after(keys),
{
    lemma_f12_flips(keys);
    lemma_f12_flips(keys.push(Key::F12));
    crate::input::lemma_toggle_involutive(mode_after(keys));
}

/// Keys other than F12 never change the keyboard mode.
pub proof fn lemma_non_toggle_keys_preserve_mode(keys: Seq<Key>, key: Key)
    requires
        key != Key::F12,
    ensures
        mode_after(keys.push(key)) == mode_after(keys),
{
    assert(keys.push(key).drop_last() =~= keys);
}

/// An Escape press terminates the session, whatever keyboard mode the
/// session is in and wherever in the sequence the press falls.
pub proof fn lemma_escape_terminates(keys: Seq<Key>, i: int)
    requires
        0 <= i < keys.len(),
        keys[i] == Key::Escape,
    ensures
        terminated_after(keys),
        key_action(keys[i], mode_after(keys.take(i))) == KeyAction::Quit,
{
}

/// A session without an Escape press never terminates the process.
pub proof fn lemma_no_escape_no_termination(keys: Seq<Key>)
    requires
        forall|i: int| 0 <= i < keys.len() ==> keys[i] != Key::Escape,
    ensures
        !terminated_after(keys),
{
}

} // verus!
