use sway_cheatsheet::input::{on_key_press, Key, KeyAction, KeyboardMode};

#[test]
fn f12_toggles_exclusive_to_on_demand() {
    let action = on_key_press(Key::F12, KeyboardMode::Exclusive);
    assert_eq!(action, KeyAction::SetKeyboardMode(KeyboardMode::OnDemand));
}

#[test]
fn f12_toggles_on_demand_to_exclusive() {
    let action = on_key_press(Key::F12, KeyboardMode::OnDemand);
    assert_eq!(action, KeyAction::SetKeyboardMode(KeyboardMode::Exclusive));
}

#[test]
fn two_f12_presses_restore_the_original_mode() {
    for original in [KeyboardMode::Exclusive, KeyboardMode::OnDemand] {
        let first = on_key_press(Key::F12, original);
        let mid = match first {
            KeyAction::SetKeyboardMode(mode) => mode,
            _ => panic!("F12 must set a keyboard mode"),
        };
        let second = on_key_press(Key::F12, mid);
        assert_eq!(second, KeyAction::SetKeyboardMode(original));
    }
}

#[test]
fn escape_quits_in_exclusive_mode() {
    assert_eq!(
        on_key_press(Key::Escape, KeyboardMode::Exclusive),
        KeyAction::Quit
    );
}

#[test]
fn escape_quits_in_on_demand_mode() {
    assert_eq!(
        on_key_press(Key::Escape, KeyboardMode::OnDemand),
        KeyAction::Quit
    );
}

#[test]
fn other_keys_propagate_to_default_handling() {
    assert_eq!(
        on_key_press(Key::Other, KeyboardMode::Exclusive),
        KeyAction::Propagate
    );
    assert_eq!(
        on_key_press(Key::Other, KeyboardMode::OnDemand),
        KeyAction::Propagate
    );
}
