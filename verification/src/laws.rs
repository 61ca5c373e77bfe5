//! Laws of the controller and of the dispatch, stated over whole event
//! sequences and arbitrary states and proved once and for all.

use vstd::prelude::*;
use crate::color::{Color, CHANNEL_STEP};
use crate::controller::{decide_frame_spec, handle_spec, toggled, RenderState};
use crate::game::{step_spec, Game, LoopAction};
use crate::input::{InputEvent, Key, KeyState};

verus! {

/// The state after the same event has been handled `n` times in a row.
pub open spec fn apply_repeated(s: RenderState, e: InputEvent, n: nat) -> RenderState
    decreases n,
{
    if n == 0 {
        s
    } else {
        handle_spec(apply_repeated(s, e, (n - 1) as nat), e).0
    }
}

/// An auto-repeat of a held key.
pub open spec fn key_repeated(key: Key) -> InputEvent {
    InputEvent::Keyboard { key, state: KeyState::Pressed, repeat: true }
}

/// A fresh press of a key.
pub open spec fn key_pressed(key: Key) -> InputEvent {
    InputEvent::Keyboard { key, state: KeyState::Pressed, repeat: false }
}

/// The release of a key.
pub open spec fn key_released(key: Key) -> InputEvent {
    InputEvent::Keyboard { key, state: KeyState::Released, repeat: false }
}

/// Law: `n` auto-repeats of A lower the green channel by exactly `n`
/// steps of 1/60 — the accumulation is exact and unclamped — and leave
/// every other channel and the pipeline selection alone. The only
/// proviso is the machine's: the result must not fall below the bottom
/// of the `i64` channel range, where the arithmetic saturates.
pub proof fn lemma_green_accumulates(s: RenderState, n: nat)
    requires
        i64::MIN <= s.color.g - CHANNEL_STEP * n,
    ensures
        apply_repeated(s, key_repeated(Key::A), n) == (RenderState {
            color: Color { g: (s.color.g - CHANNEL_STEP * n) as i64, ..s.color },
            ..s
        }),
    decreases n,
{
    if n > 0 {
        lemma_green_accumulates(s, (n - 1) as nat);
    }
}

/// Law: pressing Space `n` times returns the pipeline selection to its
/// starting choice when `n` is even and flips it when `n` is odd, and
/// never touches the color.
pub proof fn lemma_space_parity(s: RenderState, n: nat)
    ensures
        apply_repeated(s, key_pressed(Key::Space), n) == (RenderState {
            pipeline: if n % 2 == 0 { s.pipeline } else { toggled(s.pipeline) },
            ..s
        }),
    decreases n,
{
    if n > 0 {
        lemma_space_parity(s, (n - 1) as nat);
    }
}

/// Law: deciding a frame is a pure function of the render state. Two
/// decisions with no `handle` between them read the same state, so they
/// return the same clear color and the same pipeline selection.
pub proof fn lemma_decide_frame_pure(first: RenderState, second: RenderState)
    requires
        first == second,
    ensures
        decide_frame_spec(first) == decide_frame_spec(second),
{
}

/// Law: a resize with a zero dimension is a complete no-op. The surface
/// dimensions and the configured flag keep their values and the render
/// state is untouched, so every later event — a redraw request in
/// particular — is dispatched exactly as it would have been before the
/// attempt.
pub proof fn lemma_zero_resize_noop(g: Game, width: u32, height: u32)
    requires
        width == 0 || height == 0,
    ensures
        step_spec(g, InputEvent::Resized { width, height }).0 == g,
        step_spec(g, InputEvent::Resized { width, height }).1 == LoopAction::Continue,
{
}

/// Law: the window's close request and the release of Escape are
/// dispatched alike: whatever the current state, neither changes it and
/// both end the loop.
pub proof fn lemma_close_and_escape_exit(g: Game)
    ensures
        step_spec(g, InputEvent::CloseRequested) == (g, LoopAction::Exit),
        step_spec(g, key_released(Key::Escape)) == (g, LoopAction::Exit),
{
}

} // verus!
