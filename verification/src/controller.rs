//! The render-state controller: the accumulated clear color and the
//! active pipeline selection, mutated by input events and read once per
//! frame.

use vstd::prelude::*;
use crate::color::{channel_add, sat_add, Color, ALPHA_OPAQUE, CHANNEL_STEP, STARTUP_RGB};
use crate::input::{InputEvent, Key, KeyState};

verus! {

/// Which of the two statically available shader pipelines draws the
/// frame.
#[derive(Clone, Copy, Debug, PartialEq, Eq, Structural)]
pub enum Pipeline {
    Primary,
    Secondary,
}

/// The other pipeline of the pair.
pub open spec fn toggled(p: Pipeline) -> Pipeline {
    match p {
        Pipeline::Primary => Pipeline::Secondary,
        Pipeline::Secondary => Pipeline::Primary,
    }
}

/// Everything the controller accumulates between frames.
#[derive(Clone, Copy, Debug, PartialEq, Eq, Structural)]
pub struct RenderState {
    pub color: Color,
    pub pipeline: Pipeline,
}

/// The color after one auto-repeated keystroke: A and D lower and raise
/// the green channel by one step, W and S lower and raise the blue
/// channel; every other key leaves the color alone.
pub open spec fn adjusted_color(c: Color, key: Key) -> Color {
    match key {
        Key::A => Color { g: sat_add(c.g, (-CHANNEL_STEP) as i64), ..c },
        Key::D => Color { g: sat_add(c.g, CHANNEL_STEP), ..c },
        Key::W => Color { b: sat_add(c.b, (-CHANNEL_STEP) as i64), ..c },
        Key::S => Color { b: sat_add(c.b, CHANNEL_STEP), ..c },
        _ => c,
    }
}

/// The state after one event, and whether the controller consumed it.
///
/// An auto-repeated key adjusts the color and is never consumed, so the
/// event still reaches the surrounding dispatch. A fresh press of Space
/// flips the pipeline selection and is consumed. Everything else,
/// including Escape and the close request, is left untouched and
/// unconsumed so that the dispatch's exit path fires.
pub open spec fn handle_spec(s: RenderState, e: InputEvent) -> (RenderState, bool) {
    match e {
        InputEvent::Keyboard { key, state, repeat } => {
            if repeat {
                (RenderState { color: adjusted_color(s.color, key), ..s }, false)
            } else if key == Key::Space && state == KeyState::Pressed {
                (RenderState { pipeline: toggled(s.pipeline), ..s }, true)
            } else {
                (s, false)
            }
        },
        _ => (s, false),
    }
}

/// What a frame draws: the clear color exactly as accumulated, never
/// reclamped, and the current pipeline selection.
pub open spec fn decide_frame_spec(s: RenderState) -> (Color, Pipeline) {
    (s.color, s.pipeline)
}

impl RenderState {
    /// Consume one input event, returning whether it was consumed.
    pub fn handle(&mut self, e: InputEvent) -> (consumed: bool)
        ensures
            *final(self) == handle_spec(*old(self), e).0,
            consumed == handle_spec(*old(self), e).1,
    {
        match e {
            InputEvent::Keyboard { key, state, repeat } => {
                if repeat {
                    match key {
                        Key::A => {
                            self.color.g = channel_add(self.color.g, -CHANNEL_STEP);
                        },
                        Key::D => {
                            self.color.g = channel_add(self.color.g, CHANNEL_STEP);
                        },
                        Key::W => {
                            self.color.b = channel_add(self.color.b, -CHANNEL_STEP);
                        },
                        Key::S => {
                            self.color.b = channel_add(self.color.b, CHANNEL_STEP);
                        },
                        _ => {},
                    }
                    false
                } else {
                    match (key, state) {
                        (Key::Space, KeyState::Pressed) => {
                            self.pipeline = match self.pipeline {
                                Pipeline::Primary => Pipeline::Secondary,
                                Pipeline::Secondary => Pipeline::Primary,
                            };
                            true
                        },
                        _ => false,
                    }
                }
            },
            _ => false,
        }
    }

    /// Decide the draw parameters for one frame: a pure read of the
    /// current state, with no side effect.
    pub fn decide_frame(&self) -> (r: (Color, Pipeline))
        ensures
            r == decide_frame_spec(*self),
    {
        (self.color, self.pipeline)
    }
}

impl Default for RenderState {
    /// The startup state: the default clear color with the primary
    /// pipeline active.
    fn default() -> (s: RenderState)
        ensures
            s == (RenderState {
                color: Color { r: STARTUP_RGB, g: STARTUP_RGB, b: STARTUP_RGB, a: ALPHA_OPAQUE },
                pipeline: Pipeline::Primary,
            }),
    {
        RenderState {
            color: Color { r: STARTUP_RGB, g: STARTUP_RGB, b: STARTUP_RGB, a: ALPHA_OPAQUE },
            pipeline: Pipeline::Primary,
        }
    }
}

} // verus!
