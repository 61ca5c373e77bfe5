//! The per-window game state and the event-loop dispatch.
//!
//! One `Game` gathers the render-state controller and the surface
//! bookkeeping. `step` is the whole decision logic of the event loop: it
//! applies one event and tells the surrounding loop what to do — exit,
//! reconfigure the surface, draw a frame, or nothing. The loop itself,
//! which owns the window and the GPU device, performs those actions and
//! feeds the next event back in.

use vstd::prelude::*;
use crate::color::{Color, ALPHA_OPAQUE, STARTUP_RGB};
use crate::controller::{handle_spec, Pipeline, RenderState};
use crate::input::{InputEvent, Key, KeyState};

verus! {

/// Vertices of the fixed full-screen triangle drawn each frame.
pub const VERTEX_COUNT: u32 = 3;

/// Instances of that triangle drawn each frame.
pub const INSTANCE_COUNT: u32 = 1;

/// The dimensions the surface is configured with, and whether it has
/// been configured at all yet. Until the first successful resize the
/// surface is unconfigured and frames must be skipped.
#[derive(Clone, Copy, Debug, PartialEq, Eq, Structural)]
pub struct SurfaceState {
    pub width: u32,
    pub height: u32,
    pub configured: bool,
}

/// The whole mutable state of one running window.
#[derive(Clone, Copy, Debug, PartialEq, Eq, Structural)]
pub struct Game {
    pub state: RenderState,
    pub surface: SurfaceState,
}

/// What the surrounding event loop must do after one `step`.
///
/// `Reconfigure` asks it to reconfigure the surface with the new
/// dimensions. `Render` and `SkipFrame` both ask it to request the next
/// redraw, keeping the loop continuous; only `Render` also draws a
/// frame. `Exit` ends the loop; `Continue` asks nothing.
#[derive(Clone, Copy, Debug, PartialEq, Eq, Structural)]
pub enum LoopAction {
    Continue,
    Exit,
    Reconfigure,
    Render,
    SkipFrame,
}

/// Why a frame's acquisition or presentation failed.
#[derive(Clone, Copy, Debug, PartialEq, Eq, Structural)]
pub enum FrameError {
    Lost,
    Outdated,
    OutOfMemory,
    Timeout,
    Other,
}

/// The surface bookkeeping after a resize: a resize with a zero
/// dimension is a no-op, any other adopts the new dimensions and marks
/// the surface configured.
pub open spec fn resized_surface(s: SurfaceState, width: u32, height: u32) -> SurfaceState {
    if width > 0 && height > 0 {
        SurfaceState { width, height, configured: true }
    } else {
        s
    }
}

/// The game after one event, and the action the loop owes for it.
///
/// The event first passes through the controller; a consumed event goes
/// no further. An unconsumed close request or Escape release exits the
/// loop whatever the current state. A resize updates the surface
/// bookkeeping and, when it changed anything, asks for a reconfigure. A
/// redraw request draws a frame once the surface is configured and is
/// skipped before that. Everything else asks nothing.
pub open spec fn step_spec(g: Game, e: InputEvent) -> (Game, LoopAction) {
    let g2 = Game { state: handle_spec(g.state, e).0, ..g };
    if handle_spec(g.state, e).1 {
        (g2, LoopAction::Continue)
    } else {
        match e {
            InputEvent::CloseRequested => (g2, LoopAction::Exit),
            InputEvent::Keyboard { key: Key::Escape, state: KeyState::Released, repeat: false } => (
                g2,
                LoopAction::Exit,
            ),
            InputEvent::Resized { width, height } => if width > 0 && height > 0 {
                (Game { surface: resized_surface(g2.surface, width, height), ..g2 }, LoopAction::Reconfigure)
            } else {
                (g2, LoopAction::Continue)
            },
            InputEvent::RedrawRequested => if g2.surface.configured {
                (g2, LoopAction::Render)
            } else {
                (g2, LoopAction::SkipFrame)
            },
            _ => (g2, LoopAction::Continue),
        }
    }
}

impl Game {
    /// A fresh game for a window of the given inner size: default color,
    /// primary pipeline, surface not yet configured.
    pub fn new(width: u32, height: u32) -> (g: Game)
        ensures
            g == (Game {
                state: RenderState {
                    color: Color { r: STARTUP_RGB, g: STARTUP_RGB, b: STARTUP_RGB, a: ALPHA_OPAQUE },
                    pipeline: Pipeline::Primary,
                },
                surface: SurfaceState { width, height, configured: false },
            }),
    {
        Game {
            state: RenderState::default(),
            surface: SurfaceState { width, height, configured: false },
        }
    }

    /// Adopt new surface dimensions. A resize with a zero dimension
    /// changes nothing and asks for no reconfiguration; any other
    /// records the dimensions, marks the surface configured, and returns
    /// true so the caller reconfigures the actual surface.
    pub fn resize(&mut self, width: u32, height: u32) -> (reconfigure: bool)
        ensures
            final(self).state == old(self).state,
            final(self).surface == resized_surface(old(self).surface, width, height),
            reconfigure == (width > 0 && height > 0),
    {
        if width > 0 && height > 0 {
            self.surface = SurfaceState { width, height, configured: true };
            true
        } else {
            false
        }
    }

    /// The per-tick update between input handling and drawing. The
    /// sandbox has no simulation, so it changes nothing.
    pub fn update(&mut self)
        ensures
            *final(self) == *old(self),
    {
    }

    /// Apply one event and decide the loop's next action.
    pub fn step(&mut self, e: InputEvent) -> (action: LoopAction)
        ensures
            *final(self) == step_spec(*old(self), e).0,
            action == step_spec(*old(self), e).1,
    {
        let consumed = self.state.handle(e);
        if consumed {
            LoopAction::Continue
        } else {
            match e {
                InputEvent::CloseRequested => LoopAction::Exit,
                InputEvent::Keyboard { key: Key::Escape, state: KeyState::Released, repeat: false } => LoopAction::Exit,
                InputEvent::Resized { width, height } => {
                    if self.resize(width, height) {
                        LoopAction::Reconfigure
                    } else {
                        LoopAction::Continue
                    }
                },
                InputEvent::RedrawRequested => {
                    if self.surface.configured {
                        self.update();
                        LoopAction::Render
                    } else {
                        LoopAction::SkipFrame
                    }
                },
                _ => LoopAction::Continue,
            }
        }
    }

    /// Close out one frame attempt. Every render-step error is
    /// discarded: the frame is simply skipped, with no retry, no
    /// propagation and no change of state, and the loop carries on.
    pub fn after_frame(&mut self, outcome: &Result<(), FrameError>) -> (action: LoopAction)
        ensures
            *final(self) == *old(self),
            action == LoopAction::Continue,
    {
        match outcome {
            Result::Ok(()) => LoopAction::Continue,
            Result::Err(_) => LoopAction::Continue,
        }
    }
}

/// The index of the surface format to configure with, given which of the
/// offered formats are sRGB: the first sRGB format if there is one, else
/// the first format offered.
pub fn choose_surface_format(is_srgb: &Vec<bool>) -> (idx: usize)
    requires
        is_srgb.len() > 0,
    ensures
        idx < is_srgb@.len(),
        forall|j: int| 0 <= j < idx ==> !is_srgb@[j],
        is_srgb@[idx as int] || idx == 0,
        (exists|j: int| 0 <= j < is_srgb@.len() && is_srgb@[j]) ==> is_srgb@[idx as int],
{
    let n = is_srgb.len();
    let mut i: usize = 0;
    while i < n
        invariant
            n == is_srgb@.len(),
            0 <= i <= n,
            forall|j: int| 0 <= j < i ==> !is_srgb@[j],
        decreases n - i,
    {
        if is_srgb[i] {
            return i;
        }
        i += 1;
    }
    0
}

} // verus!
