//! The overlay presenter: widget layout and the layer-shell
//! realize / configure / present sequence.
//!
//! Layer-shell properties set on an unrealized surface are undefined or
//! ignored by the compositor protocol, so the presenter is a one-directional
//! state machine `Unrealized -> Realized -> LayerConfigured -> Presented`
//! whose contracts make the ordering a precondition, not a convention. The
//! event-loop shell mirrors each transition with the toolkit call it stands
//! for: allocating the native surface, applying the returned layer-shell
//! configuration, and requesting presentation.

use crate::content::LoadedContent;
use crate::input::{Key, KeyAction, KeyboardMode, key_action};
use vstd::prelude::*;
use vstd::string::StringExecFns;

verus! {

/// Minimum content width of the scrollable region, in pixels.
pub const MIN_WIDTH: i32 = 400;

/// Minimum content height of the scrollable region, in pixels.
pub const MIN_HEIGHT: i32 = 300;

/// Spacing between children of the vertical layout box, in pixels.
pub const BOX_SPACING: i32 = 5;

/// Stacking layer of a layer-shell surface. The overlay uses `Overlay`,
/// which renders above normal application windows.
#[derive(Clone, Copy, Debug, PartialEq, Eq, Structural)]
pub enum Layer {
    Background,
    Bottom,
    Top,
    Overlay,
}

/// Screen edge a layer-shell surface can be anchored to. The overlay is
/// anchored to `Right` alone; the compositor derives the position from that
/// single anchor and the minimum dimensions.
#[derive(Clone, Copy, Debug, PartialEq, Eq, Structural)]
pub enum Edge {
    Left,
    Right,
    Top,
    Bottom,
}

/// Alignment of the text inside its allocation. `Start` is left for the
/// horizontal axis and top for the vertical one.
#[derive(Clone, Copy, Debug, PartialEq, Eq, Structural)]
pub enum Align {
    Start,
    Center,
    End,
}

/// The widget tree the shell must build: a selectable, start-aligned markup
/// label inside a scrollable region of fixed minimum size, inside a vertical
/// box, inside a titled top-level surface.
#[derive(Clone, Debug)]
pub struct OverlayLayout {
    pub markup: String,
    pub selectable: bool,
    pub xalign: Align,
    pub yalign: Align,
    pub min_width: i32,
    pub min_height: i32,
    pub spacing: i32,
    pub title: String,
}

/// The layer-shell properties applied in the `Realized -> LayerConfigured`
/// transition.
#[derive(Clone, Copy, Debug, PartialEq, Eq, Structural)]
pub struct LayerShellConfig {
    pub layer: Layer,
    pub anchor: Edge,
    pub keyboard_mode: KeyboardMode,
}

/// The one configuration the overlay ever applies: overlay layer, anchored
/// to the right edge, keyboard input captured exclusively until dismissed.
pub open spec fn initial_layer_config() -> LayerShellConfig {
    LayerShellConfig {
        layer: Layer::Overlay,
        anchor: Edge::Right,
        keyboard_mode: KeyboardMode::Exclusive,
    }
}

/// Stages of the presentation sequence. Transitions are strictly sequential
/// and one-directional; activation fires once, so there is no re-entry.
#[derive(Clone, Copy, Debug, PartialEq, Eq, Structural)]
pub enum PresenterState {
    Unrealized,
    Realized,
    LayerConfigured,
    Presented,
}

/// The overlay window controller. It owns the requested layout and tracks
/// how far the presentation sequence has advanced; the shell consults it
/// before every toolkit call.
#[derive(Clone, Debug)]
pub struct OverlayPresenter {
    state: PresenterState,
    layout: OverlayLayout,
}

impl OverlayPresenter {
    /// How far the presentation sequence has advanced.
    pub fn state(&self) -> (state: PresenterState)
        ensures
            state == self.stage(),
    {
        self.state
    }

    /// The widget tree this presenter asks the shell to build.
    pub fn layout(&self) -> (layout: &OverlayLayout)
        ensures
            layout == self.requested_layout(),
    {
        &self.layout
    }

    /// Spec-level accessor for the presentation stage.
    pub closed spec fn stage(self) -> PresenterState {
        self.state
    }

    /// Spec-level accessor for the requested layout.
    pub closed spec fn requested_layout(self) -> OverlayLayout {
        self.layout
    }

    /// Build the presenter for one loaded document. The markup displayed is
    /// exactly the loaded text; the label is selectable and start-aligned
    /// on both axes, and the scrollable region gets the fixed minimum size.
    pub fn new(content: &LoadedContent) -> (presenter: Self)
        ensures
            presenter.stage() == PresenterState::Unrealized,
            presenter.requested_layout().markup@ == content.text@,
            presenter.requested_layout().selectable,
            presenter.requested_layout().xalign == Align::Start,
            presenter.requested_layout().yalign == Align::Start,
            presenter.requested_layout().min_width == MIN_WIDTH,
            presenter.requested_layout().min_height == MIN_HEIGHT,
            presenter.requested_layout().spacing == BOX_SPACING,
            presenter.requested_layout().title@ == "Sway Cheatsheet"@,
    {
        OverlayPresenter {
            state: PresenterState::Unrealized,
            layout: OverlayLayout {
                markup: content.text.clone(),
                selectable: true,
                xalign: Align::Start,
                yalign: Align::Start,
                min_width: MIN_WIDTH,
                min_height: MIN_HEIGHT,
                spacing: BOX_SPACING,
                title: String::from_str("Sway Cheatsheet"),
            },
        }
    }

    /// Record that the native surface has been allocated. The shell realizes
    /// the top-level surface explicitly before this call; only afterwards
    /// may layer-shell properties be set.
    pub fn realize(&mut self)
        requires
            old(self).stage() == PresenterState::Unrealized,
        ensures
            final(self).stage() == PresenterState::Realized,
            final(self).requested_layout() == old(self).requested_layout(),
    {
        self.state = PresenterState::Realized;
    }

    /// Decide the layer-shell properties to apply to the realized surface:
    /// overlay layer, right-edge anchor, and exclusive keyboard capture.
    /// Demanding `Realized` here makes configuring an unrealized surface a
    /// precondition violation rather than silently ignored behaviour.
    pub fn configure_layer_shell(&mut self) -> (config: LayerShellConfig)
        requires
            old(self).stage() == PresenterState::Realized,
        ensures
            final(self).stage() == PresenterState::LayerConfigured,
            final(self).requested_layout() == old(self).requested_layout(),
            config == initial_layer_config(),
    {
        self.state = PresenterState::LayerConfigured;
        LayerShellConfig {
            layer: Layer::Overlay,
            anchor: Edge::Right,
            keyboard_mode: KeyboardMode::Exclusive,
        }
    }

    /// Record that presentation has been requested; from here the surface is
    /// visible and receives input, with keyboard capture still exactly as
    /// the configuration step set it: `Exclusive`.
    pub fn present(&mut self)
        requires
            old(self).stage() == PresenterState::LayerConfigured,
        ensures
            final(self).stage() == PresenterState::Presented,
            final(self).requested_layout() == old(self).requested_layout(),
    {
        self.state = PresenterState::Presented;
    }

    /// Respond to a key press on the presented surface. `surface_mode` is
    /// the keyboard mode the live surface reports at the moment of the
    /// event; the presenter caches no copy of it, so an external toggle can
    /// never be observed stale.
    pub fn handle_key(&self, key: Key, surface_mode: KeyboardMode) -> (action: KeyAction)
        requires
            self.stage() == PresenterState::Presented,
        ensures
            action == key_action(key, surface_mode),
    {
        crate::input::on_key_press(key, surface_mode)
    }
}

} // verus!
