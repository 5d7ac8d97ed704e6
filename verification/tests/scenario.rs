//! End-to-end walk through one process lifetime: absent stylesheet, readable
//! document, presentation, an F12 toggle, then dismissal with Escape.

use sway_cheatsheet::config::LaunchConfig;
use sway_cheatsheet::content::{load_content, style_to_apply};
use sway_cheatsheet::input::{Key, KeyAction, KeyboardMode};
use sway_cheatsheet::presenter::{Edge, Layer, OverlayPresenter, PresenterState};

#[test]
fn launch_paths_default_when_omitted() {
    let config = LaunchConfig::new(None, None);
    assert_eq!(config.style_path, "style.css");
    assert_eq!(config.content_path, "cheatsheet.pango");
}

#[test]
fn launch_paths_are_taken_verbatim_when_given() {
    let config = LaunchConfig::new(
        Some(String::from("/etc/overlay/dark.css")),
        Some(String::from("/home/me/keys.pango")),
    );
    assert_eq!(config.style_path, "/etc/overlay/dark.css");
    assert_eq!(config.content_path, "/home/me/keys.pango");
}

#[test]
fn absent_style_readable_content_presents_then_toggles_then_quits() {
    // Startup: the stylesheet path is absent, so no style is registered and
    // the default toolkit appearance stays.
    let style = style_to_apply(Err(String::from(
        "No such file or directory (os error 2)",
    )));
    assert!(style.is_none());

    // Activation: the document reads fine and is displayed verbatim.
    let content = load_content(Ok(String::from("Hello <b>World</b>")));
    assert!(!content.is_fallback);

    let mut presenter = OverlayPresenter::new(&content);
    assert_eq!(presenter.layout().markup, "Hello <b>World</b>");

    presenter.realize();
    let config = presenter.configure_layer_shell();
    assert_eq!(config.layer, Layer::Overlay);
    assert_eq!(config.anchor, Edge::Right);
    assert_eq!(config.keyboard_mode, KeyboardMode::Exclusive);
    presenter.present();
    assert_eq!(presenter.state(), PresenterState::Presented);

    // The window is up with exclusive keyboard capture; F12 relinquishes it.
    let mut mode = config.keyboard_mode;
    let toggle = presenter.handle_key(Key::F12, mode);
    match toggle {
        KeyAction::SetKeyboardMode(new_mode) => mode = new_mode,
        _ => panic!("F12 must set a keyboard mode"),
    }
    assert_eq!(mode, KeyboardMode::OnDemand);

    // Escape then ends the process whatever the mode.
    let quit = presenter.handle_key(Key::Escape, mode);
    assert_eq!(quit, KeyAction::Quit);
}
