//! Lifecycle, gating and traversal-order behavior of the scene driver.

use scene_graph::app_state::AppState;
use scene_graph::drawables::{BasicBackground, BasicTriangle, Drawable};
use scene_graph::input_event::InputEvent;
use scene_graph::renderer::{DrawCmd, COLOR_BUFFER_BIT, TRIANGLES_MODE};

fn state_with_background() -> (AppState<Drawable>, usize) {
    let mut state: AppState<Drawable> = AppState::new(0);
    let idx = state.add_object_empy();
    state
        .root_mut()
        .get_child_mut(idx)
        .add_component(Drawable::Background(BasicBackground::new()));
    (state, idx)
}

#[test]
fn start_fires_once_over_many_updates() {
    let (mut state, idx) = state_with_background();
    assert!(!state.root().get_child(idx).get_component(0).is_started());

    state.update(0);
    assert!(state.root().get_child(idx).get_component(0).is_started());

    for _ in 0..5 {
        state.update(0);
        assert!(state.root().get_child(idx).get_component(0).is_started());
    }
}

#[test]
fn disabled_object_gates_whole_subtree() {
    let mut state: AppState<Drawable> = AppState::new(0);
    let idx = state.add_object_empy();
    {
        let child = state.root_mut().get_child_mut(idx);
        let grandchild = scene_graph::game_object::GameObject::new();
        let g = child.add_child(grandchild);
        child
            .get_child_mut(g)
            .add_component(Drawable::Triangle(BasicTriangle::new()));
        child.set_enabled(false);
    }

    state.update(0);
    state.update(0);

    // The grandchild is itself enabled, but its disabled parent cuts it off:
    // its component never starts and nothing is drawn.
    let child = state.root().get_child(idx);
    assert!(!child.get_child(0).get_component(0).is_started());
    assert_eq!(state.draw().len(), 0);
}

#[test]
fn reenabled_component_does_not_restart() {
    let (mut state, idx) = state_with_background();
    state.update(0);
    assert!(state.root().get_child(idx).get_component(0).is_started());

    state
        .root_mut()
        .get_child_mut(idx)
        .get_component_mut(0)
        .set_enabled(false);
    state.update(0);
    assert!(state.root().get_child(idx).get_component(0).is_started());

    state
        .root_mut()
        .get_child_mut(idx)
        .get_component_mut(0)
        .set_enabled(true);
    state.update(0);
    assert!(state.root().get_child(idx).get_component(0).is_started());
    assert!(state.root().get_child(idx).get_component(0).is_enabled());
}

#[test]
fn disabled_component_stops_drawing_but_keeps_state() {
    let (mut state, idx) = state_with_background();
    state.update(0);
    assert_eq!(state.draw().len(), 2);

    state
        .root_mut()
        .get_child_mut(idx)
        .get_component_mut(0)
        .set_enabled(false);
    assert_eq!(state.draw().len(), 0);
    assert!(!state.root().get_child(idx).get_component(0).is_enabled());
}

#[test]
fn draw_order_is_preorder_background_before_triangle() {
    let mut state: AppState<Drawable> = AppState::new(0);
    let a = state.add_object_empy();
    state
        .root_mut()
        .get_child_mut(a)
        .add_component(Drawable::Background(BasicBackground::new()));

    let triangle = scene_graph::game_object::GameObject::new();
    let b = state.add_object(triangle);
    state
        .root_mut()
        .get_child_mut(b)
        .add_component(Drawable::Triangle(BasicTriangle::new()));

    let cmds = state.draw();
    assert_eq!(cmds.len(), 3);
    assert_eq!(cmds[0], DrawCmd::ClearColor(0, 0, 0, 1.0f32.to_bits()));
    assert_eq!(cmds[1], DrawCmd::Clear(COLOR_BUFFER_BIT));
    assert_eq!(cmds[2], DrawCmd::DrawArrays(TRIANGLES_MODE, 0, 3));
}

#[test]
fn background_color_follows_held_arrow_key() {
    let (mut state, _idx) = state_with_background();

    let mut events = vec![InputEvent::KeyPressed(38)];
    state.process_events(&mut events);
    assert_eq!(events.len(), 0);

    state.update(0);
    let cmds = state.draw();
    match cmds[0] {
        DrawCmd::ClearColor(r, g, _b, _a) => {
            assert_eq!(f32::from_bits(r), 0.01);
            assert_eq!(f32::from_bits(g), 0.0);
        }
        _ => panic!("first command should set the clear color"),
    }

    // The key stays held with no further events: another update steps again.
    let mut empty: Vec<InputEvent> = Vec::new();
    state.process_events(&mut empty);
    state.update(0);
    let cmds = state.draw();
    match cmds[0] {
        DrawCmd::ClearColor(r, _g, _b, _a) => {
            assert_eq!(f32::from_bits(r), 0.01 + 0.01);
        }
        _ => panic!("first command should set the clear color"),
    }
}

#[test]
fn time_update_measures_delta_and_elapsed() {
    let mut state: AppState<Drawable> = AppState::new(0.5f32.to_bits());
    state.update(1.0f32.to_bits());
    assert_eq!(f32::from_bits(state.time.delta_time), 1.0);
    assert_eq!(f32::from_bits(state.time.elapsed_time), 0.5);

    state.update(1.25f32.to_bits());
    assert_eq!(f32::from_bits(state.time.delta_time), 0.25);
    assert_eq!(f32::from_bits(state.time.elapsed_time), 0.75);
}

#[test]
fn draw_order_is_depth_first_parent_before_grandchild() {
    let mut state: AppState<Drawable> = AppState::new(0);
    let a = state.add_object_empy();
    {
        let child = state.root_mut().get_child_mut(a);
        child.add_component(Drawable::Background(BasicBackground::new()));
        let grandchild = scene_graph::game_object::GameObject::new();
        let g = child.add_child(grandchild);
        child
            .get_child_mut(g)
            .add_component(Drawable::Triangle(BasicTriangle::new()));
    }

    let cmds = state.draw();
    assert_eq!(cmds.len(), 3);
    assert!(matches!(cmds[0], DrawCmd::ClearColor(..)));
    assert!(matches!(cmds[1], DrawCmd::Clear(..)));
    assert!(matches!(cmds[2], DrawCmd::DrawArrays(..)));
}
