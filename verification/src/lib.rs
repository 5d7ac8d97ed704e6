//! Controller logic for a styled, keyboard-exclusive text overlay shown as a
//! Wayland layer-shell surface.
//!
//! The library holds everything the overlay decides: how the markup document
//! and the stylesheet degrade when a read fails, the widget layout that is
//! requested, the strictly ordered realize / configure / present sequence, and
//! the key-press state machine (dismiss on Escape, toggle keyboard
//! exclusivity on F12). A thin, unverified shell around the library performs
//! the toolkit calls that each decision asks for.

pub mod config;
pub mod content;
pub mod input;
pub mod presenter;
pub mod session;
