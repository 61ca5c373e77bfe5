//! A minimal real-time rendering sandbox: a window is cleared to a
//! background color and a hard-coded triangle is drawn with one of two
//! selectable shader pipelines.
//!
//! This crate holds the verified core of the sandbox: the input-driven
//! render-state controller. It consumes keyboard, resize and redraw
//! events, accumulates the clear color, toggles the active pipeline,
//! guards the surface configuration, and decides each frame's draw
//! parameters. The window, GPU device and event loop live outside the
//! library and hand it plain values.

pub mod color;
pub mod controller;
pub mod game;
pub mod input;
pub mod laws;
