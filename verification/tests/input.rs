//! Event processing: held-key tables, per-frame press lists, pointer
//! position and delta, and scroll accumulation.

use scene_graph::input_event::InputEvent;
use scene_graph::keyboard::{KeyboardState, KeyboardStateSnapshot};
use scene_graph::mouse::MouseState;

#[test]
fn keyboard_tracks_presses_and_releases() {
    let mut kb = KeyboardState::new();
    let events = vec![
        InputEvent::KeyPressed(65),
        InputEvent::KeyReleased(65),
        InputEvent::KeyPressed(66),
        InputEvent::MouseMoved(3, 4),
    ];
    kb.process_events(&events);
    let snap = kb.snapshot();

    assert!(!snap.is_key_pressed(65));
    assert!(snap.is_key_pressed(66));
    assert!(snap.was_key_pressed(65));
    assert!(snap.was_key_pressed(66));
    assert!(snap.was_key_released(65));
    assert!(!snap.was_key_released(66));
    assert!(!snap.was_key_pressed(67));
}

#[test]
fn keyboard_frame_lists_reset_each_frame() {
    let mut kb = KeyboardState::new();
    kb.process_events(&vec![InputEvent::KeyPressed(10)]);
    kb.process_events(&Vec::new());
    let snap = kb.snapshot();
    assert!(snap.is_key_pressed(10));
    assert!(!snap.was_key_pressed(10));
}

#[test]
fn empty_snapshot_reports_nothing() {
    let snap = KeyboardStateSnapshot::new();
    assert!(!snap.is_key_pressed(0));
    assert!(!snap.was_key_pressed(0));
    assert!(!snap.was_key_released(0));
}

#[test]
fn mouse_tracks_buttons_position_and_scroll() {
    let mut ms = MouseState::new();
    let events = vec![
        InputEvent::MouseMoved(10, 20),
        InputEvent::MouseKeyPressed(10, 20, 0),
        InputEvent::ScrollMoved(1.5f64.to_bits()),
        InputEvent::MouseMoved(30, 25),
        InputEvent::ScrollMoved(2.25f64.to_bits()),
        InputEvent::MouseKeyPressed(30, 25, 2),
        InputEvent::MouseKeyReleased(30, 25, 2),
    ];
    ms.process_events(&events);
    let snap = ms.snapshot();

    assert_eq!(snap.position, (30, 25));
    assert_eq!(snap.mouse_delta, (30, 25));
    assert_eq!(f64::from_bits(snap.scroll_delta), 1.5 + 2.25);
    assert!(snap.is_lmb_pressed());
    assert!(!snap.is_mmb_pressed());
    assert!(!snap.is_rmb_pressed());
    assert!(snap.was_button_pressed(0));
    assert!(snap.was_button_pressed(2));
    assert!(snap.was_button_released(2));
    assert!(!snap.was_button_released(0));
}

#[test]
fn mouse_delta_and_scroll_reset_next_frame() {
    let mut ms = MouseState::new();
    ms.process_events(&vec![
        InputEvent::MouseMoved(100, -50),
        InputEvent::ScrollMoved(3.0f64.to_bits()),
    ]);
    ms.process_events(&Vec::new());
    let snap = ms.snapshot();
    assert_eq!(snap.position, (100, -50));
    assert_eq!(snap.mouse_delta, (0, 0));
    assert_eq!(f64::from_bits(snap.scroll_delta), 0.0);
}

#[test]
fn fresh_driver_reports_no_input() {
    let state: scene_graph::app_state::AppState<scene_graph::drawables::Drawable> =
        scene_graph::app_state::AppState::new(0);
    assert!(!state.keyboard.is_key_pressed(65));
    assert!(!state.keyboard.was_key_pressed(65));
    assert!(!state.keyboard.was_key_released(65));
    assert!(!state.mouse.is_lmb_pressed());
    assert!(!state.mouse.was_button_pressed(0));
    assert_eq!(state.mouse.position, (0, 0));
    assert_eq!(state.mouse.mouse_delta, (0, 0));
    assert_eq!(f64::from_bits(state.mouse.scroll_delta), 0.0);
}
