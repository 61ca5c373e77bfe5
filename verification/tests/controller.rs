use render_sandbox::color::{Color, ALPHA_OPAQUE, CHANNEL_DENOM, STARTUP_RGB};
use render_sandbox::controller::{Pipeline, RenderState};
use render_sandbox::input::{InputEvent, Key, KeyState};

fn pressed(key: Key) -> InputEvent {
    InputEvent::Keyboard { key, state: KeyState::Pressed, repeat: false }
}

fn repeated(key: Key) -> InputEvent {
    InputEvent::Keyboard { key, state: KeyState::Pressed, repeat: true }
}

fn channel_value(units: i64) -> f64 {
    units as f64 / CHANNEL_DENOM as f64
}

#[test]
fn startup_state() {
    let s = RenderState::default();
    assert_eq!(s.pipeline, Pipeline::Primary);
    assert_eq!(s.color, Color { r: STARTUP_RGB, g: STARTUP_RGB, b: STARTUP_RGB, a: ALPHA_OPAQUE });
    assert!((channel_value(s.color.r) - 0.01).abs() < 1e-9);
    assert!((channel_value(s.color.a) - 1.0).abs() < 1e-9);
}

#[test]
fn space_toggle_scenario() {
    let mut s = RenderState::default();
    assert_eq!(s.color, Color { r: 3, g: 3, b: 3, a: 300 });
    assert_eq!(s.pipeline, Pipeline::Primary);

    let consumed = s.handle(pressed(Key::Space));
    assert!(consumed);
    assert_eq!(s.pipeline, Pipeline::Secondary);

    let consumed = s.handle(pressed(Key::Space));
    assert!(consumed);
    assert_eq!(s.pipeline, Pipeline::Primary);
}

#[test]
fn space_parity() {
    let mut even = RenderState::default();
    for _ in 0..4 {
        even.handle(pressed(Key::Space));
    }
    assert_eq!(even.pipeline, Pipeline::Primary);

    let mut odd = RenderState::default();
    for _ in 0..5 {
        odd.handle(pressed(Key::Space));
    }
    assert_eq!(odd.pipeline, Pipeline::Secondary);
}

#[test]
fn green_accumulation_scenario() {
    let mut s = RenderState::default();
    s.color.g = 0;

    for _ in 0..3 {
        let consumed = s.handle(repeated(Key::D));
        assert!(!consumed);
    }
    assert!((channel_value(s.color.g) - 0.05).abs() < 1e-6);

    let consumed = s.handle(repeated(Key::A));
    assert!(!consumed);
    assert!((channel_value(s.color.g) - 0.033333333).abs() < 1e-6);
}

#[test]
fn green_decreases_by_count() {
    let mut s = RenderState::default();
    s.color.g = 100;
    for _ in 0..4 {
        s.handle(repeated(Key::A));
    }
    assert_eq!(s.color.g, 80);
    assert_eq!(s.color.r, STARTUP_RGB);
    assert_eq!(s.color.b, STARTUP_RGB);
    assert_eq!(s.pipeline, Pipeline::Primary);
}

#[test]
fn blue_adjustments() {
    let mut s = RenderState::default();
    s.color.b = 0;
    s.handle(repeated(Key::S));
    s.handle(repeated(Key::S));
    assert_eq!(s.color.b, 10);
    s.handle(repeated(Key::W));
    assert_eq!(s.color.b, 5);
    assert_eq!(s.color.g, STARTUP_RGB);
}

#[test]
fn color_is_not_clamped() {
    let mut s = RenderState::default();
    s.color.g = 0;
    s.handle(repeated(Key::A));
    assert_eq!(s.color.g, -5);
    assert!(channel_value(s.color.g) < 0.0);
}

#[test]
fn channel_saturates_only_at_machine_range() {
    let mut s = RenderState::default();
    s.color.g = i64::MIN;
    s.handle(repeated(Key::A));
    assert_eq!(s.color.g, i64::MIN);

    s.color.g = i64::MAX - 2;
    s.handle(repeated(Key::D));
    assert_eq!(s.color.g, i64::MAX);
}

#[test]
fn unmapped_keys_are_ignored() {
    let mut s = RenderState::default();
    let before = s;
    assert!(!s.handle(repeated(Key::Other)));
    assert!(!s.handle(repeated(Key::Space)));
    assert!(!s.handle(repeated(Key::Escape)));
    assert!(!s.handle(pressed(Key::D)));
    assert!(!s.handle(pressed(Key::Escape)));
    assert!(!s.handle(InputEvent::Other));
    assert_eq!(s, before);
}

#[test]
fn decide_frame_is_pure() {
    let mut s = RenderState::default();
    s.handle(repeated(Key::D));
    s.handle(pressed(Key::Space));
    let first = s.decide_frame();
    let second = s.decide_frame();
    assert_eq!(first, second);
    assert_eq!(first.0, s.color);
    assert_eq!(first.1, Pipeline::Secondary);
}
