//! The events the controller consumes, as plain tagged variants.
//!
//! The window layer translates its own event types into these before
//! handing them to the library; nothing here depends on how the events
//! were produced.

use vstd::prelude::*;

verus! {

/// The keys with defined effects. Every other key is `Other` and is
/// silently ignored by the controller.
#[derive(Clone, Copy, Debug, PartialEq, Eq, Structural)]
pub enum Key {
    A,
    D,
    W,
    S,
    Space,
    Escape,
    Other,
}

/// Whether a key went down or up.
#[derive(Clone, Copy, Debug, PartialEq, Eq, Structural)]
pub enum KeyState {
    Pressed,
    Released,
}

/// One event delivered by the window's event dispatcher. A key event
/// carries the key, the transition, and whether it is an auto-repeat.
#[derive(Clone, Copy, Debug, PartialEq, Eq, Structural)]
pub enum InputEvent {
    Keyboard { key: Key, state: KeyState, repeat: bool },
    Resized { width: u32, height: u32 },
    CloseRequested,
    RedrawRequested,
    Other,
}

} // verus!
