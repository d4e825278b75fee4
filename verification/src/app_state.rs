//! Frame timing and the per-frame state handed to behaviors.
//!
//! The scene driver `AppState` lives here as well: it owns the root object
//! and the input state, advances time, and runs one `start`/`update`
//! traversal per frame.

use vstd::prelude::*;

use crate::component::ComponentLogic;
use crate::float_ops::f32_sub;
use crate::float_ops::spec_f32_sub;
use crate::game_object::spec_attach;
use crate::game_object::spec_new_object;
use crate::game_object::spec_obj_draw;
use crate::game_object::spec_obj_start;
use crate::game_object::spec_obj_update;
use crate::game_object::GameObject;
use crate::game_object::ObjectModel;
use crate::input_event::InputEvent;
use crate::keyboard::spec_key_events_ok;
use crate::keyboard::spec_key_presses;
use crate::keyboard::spec_key_releases;
use crate::keyboard::spec_keys_after;
use crate::keyboard::KeyboardState;
use crate::keyboard::KEY_SLOTS;
use crate::keyboard::KeyboardStateSnapshot;
use crate::mouse::spec_button_events_ok;
use crate::mouse::spec_button_presses;
use crate::mouse::spec_button_releases;
use crate::mouse::spec_buttons_after;
use crate::mouse::spec_position_after;
use crate::mouse::spec_scroll_after;
use crate::mouse::spec_wrap_i32;
use crate::mouse::MouseState;
use crate::mouse::MOUSE_SLOTS;
use crate::mouse::MouseStateSnapshot;
use crate::renderer::DrawCmd;

verus! {

/// Frame clock.  All times are single-precision bit patterns of seconds.
#[derive(Clone, Copy, Debug, PartialEq, Eq, Structural)]
pub struct Time {
    start_time: u32,
    last_time: u32,
    /// Seconds between the two most recent updates.
    pub delta_time: u32,
    /// Seconds since the clock started.
    pub elapsed_time: u32,
}

impl Time {
    /// The clock advanced to `time`.
    pub closed spec fn spec_updated(self, time: u32) -> Time {
        Time {
            start_time: self.start_time,
            last_time: time,
            delta_time: spec_f32_sub(time, self.last_time),
            elapsed_time: spec_f32_sub(time, self.start_time),
        }
    }

    pub closed spec fn spec_start_time(self) -> u32 {
        self.start_time
    }

    pub closed spec fn spec_last_time(self) -> u32 {
        self.last_time
    }

    pub closed spec fn spec_delta_time(self) -> u32 {
        self.delta_time
    }

    pub closed spec fn spec_elapsed_time(self) -> u32 {
        self.elapsed_time
    }

    /// A clock started at `now`, before any update.
    pub closed spec fn new_time_spec(now: u32) -> Time {
        Time { start_time: now, last_time: 0, delta_time: 0, elapsed_time: 0 }
    }

    /// A clock started at `now`, with no update seen yet.
    pub fn new(now: u32) -> (r: Time)
        ensures
            r == Time::new_time_spec(now),
            r.spec_start_time() == now,
            r.spec_last_time() == 0u32,
            r.spec_delta_time() == 0u32,
            r.spec_elapsed_time() == 0u32,
    {
        Time { start_time: now, last_time: 0, delta_time: 0, elapsed_time: 0 }
    }

    /// Advances the clock to `time`: the delta is measured from the previous
    /// update, the elapsed time from the start.
    pub fn update(&mut self, time: u32)
        ensures
            *final(self) == old(self).spec_updated(time),
            final(self).spec_delta_time() == spec_f32_sub(time, old(self).spec_last_time()),
            final(self).spec_elapsed_time() == spec_f32_sub(time, old(self).spec_start_time()),
            final(self).spec_last_time() == time,
            final(self).spec_start_time() == old(self).spec_start_time(),
    {
        self.delta_time = f32_sub(time, self.last_time);
        self.elapsed_time = f32_sub(time, self.start_time);
        self.last_time = time;
    }
}

/// The immutable state a frame hands to every behavior callback: the frame
/// clock and the two input snapshots.
pub struct FrameState {
    pub time: Time,
    pub keyboard: KeyboardStateSnapshot,
    pub mouse: MouseStateSnapshot,
}

impl FrameState {
    /// Both snapshots are well formed.
    pub open spec fn wf(self) -> bool {
        self.keyboard.wf() && self.mouse.wf()
    }

    /// A frame state with a fresh clock and empty snapshots.
    pub fn new() -> (r: FrameState)
        ensures
            r.wf(),
    {
        FrameState {
            time: Time::new(0),
            keyboard: KeyboardStateSnapshot::new(),
            mouse: MouseStateSnapshot::new(),
        }
    }
}

/// The scene driver: owns the root object and the input state, advances
/// time, and runs one `start` plus `update` traversal per frame.  The
/// platform drains its raw event buffer into a vector once per frame and
/// hands it to `process_events`; rendering executes the commands `draw`
/// returns.
pub struct AppState<L> {
    /// Frame clock.
    pub time: Time,
    root_object: GameObject<L>,
    keyboard_state: KeyboardState,
    mouse_state: MouseState,
    /// This frame's keyboard snapshot.
    pub keyboard: KeyboardStateSnapshot,
    /// This frame's mouse snapshot.
    pub mouse: MouseStateSnapshot,
}

impl<L: ComponentLogic> AppState<L> {
    pub closed spec fn spec_time(self) -> Time {
        self.time
    }

    pub closed spec fn spec_root(self) -> ObjectModel<L> {
        self.root_object@
    }

    pub closed spec fn spec_keyboard_state(self) -> KeyboardState {
        self.keyboard_state
    }

    pub closed spec fn spec_mouse_state(self) -> MouseState {
        self.mouse_state
    }

    pub closed spec fn spec_keyboard(self) -> KeyboardStateSnapshot {
        self.keyboard
    }

    pub closed spec fn spec_mouse(self) -> MouseStateSnapshot {
        self.mouse
    }

    /// The input state is well formed and the root object is designated as a
    /// root (its own self-reference), so children and components can be
    /// attached to it.
    pub closed spec fn wf(self) -> bool {
        &&& self.keyboard_state.wf()
        &&& self.mouse_state.wf()
        &&& self.keyboard.wf()
        &&& self.mouse.wf()
        &&& self.root_object@.attached
    }

    /// A driver whose clock starts at `cur_time`, with empty input state and
    /// a fresh root node designated as the tree's root.  Both snapshots are
    /// empty: until the first `process_events`, no key or button reads as
    /// held or pressed, and the pointer sits at the origin with zero delta
    /// and scroll.
    pub fn new(cur_time: u32) -> (r: AppState<L>)
        ensures
            r.wf(),
            r.spec_time() == Time::new_time_spec(cur_time),
            r.spec_root() == (ObjectModel { attached: true, ..spec_new_object::<L>() }),
            r.spec_keyboard().spec_keys() == Seq::new(KEY_SLOTS as nat, |i: int| false),
            r.spec_keyboard().spec_presses() == Seq::<u32>::empty(),
            r.spec_keyboard().spec_releases() == Seq::<u32>::empty(),
            r.spec_mouse().spec_keys() == Seq::new(MOUSE_SLOTS as nat, |i: int| false),
            r.spec_mouse().spec_presses() == Seq::<i16>::empty(),
            r.spec_mouse().spec_releases() == Seq::<i16>::empty(),
            r.spec_mouse().spec_position() == (0i32, 0i32),
            r.spec_mouse().spec_mouse_delta() == (0i32, 0i32),
            r.spec_mouse().spec_scroll_delta() == 0u64,
            r.spec_keyboard_state().spec_keys() == Seq::new(KEY_SLOTS as nat, |i: int| false),
            r.spec_keyboard_state().spec_presses() == Seq::<u32>::empty(),
            r.spec_keyboard_state().spec_releases() == Seq::<u32>::empty(),
            r.spec_mouse_state().spec_keys() == Seq::new(MOUSE_SLOTS as nat, |i: int| false),
            r.spec_mouse_state().spec_presses() == Seq::<i16>::empty(),
            r.spec_mouse_state().spec_releases() == Seq::<i16>::empty(),
            r.spec_mouse_state().spec_position() == (0i32, 0i32),
            r.spec_mouse_state().spec_scroll_delta() == 0u64,
    {
        let mut root_node = GameObject::new();
        root_node.set_as_root_node();

        let keyboard_state = KeyboardState::new();
        let keyboard_state_snapshot = KeyboardStateSnapshot::from(&keyboard_state);

        let mouse_state = MouseState::new();
        let mouse_state_snapshot = MouseStateSnapshot::from(&mouse_state);

        AppState {
            time: Time::new(cur_time),
            root_object: root_node,
            keyboard_state,
            mouse_state: MouseState::new(),
            keyboard: keyboard_state_snapshot,
            mouse: mouse_state_snapshot,
        }
    }

    /// Attaches a fresh, empty node under the root and returns its index
    /// among the root's children.
    pub fn add_object_empy(&mut self) -> (idx: usize)
        requires
            old(self).wf(),
        ensures
            final(self).wf(),
            idx == old(self).spec_root().children.len(),
            final(self).spec_root() == (ObjectModel {
                children: old(self).spec_root().children.push(
                    spec_attach(
                        spec_new_object::<L>(),
                        old(self).spec_root().transform_data.world_space_matrix,
                    ),
                ),
                ..old(self).spec_root()
            }),
            final(self).spec_time() == old(self).spec_time(),
            final(self).spec_keyboard() == old(self).spec_keyboard(),
            final(self).spec_mouse() == old(self).spec_mouse(),
    {
        self.root_object.add_child(GameObject::new())
    }

    /// Attaches `object` under the root and returns its index among the
    /// root's children.
    pub fn add_object(&mut self, object: GameObject<L>) -> (idx: usize)
        requires
            old(self).wf(),
        ensures
            final(self).wf(),
            idx == old(self).spec_root().children.len(),
            final(self).spec_root() == (ObjectModel {
                children: old(self).spec_root().children.push(
                    spec_attach(
                        object@,
                        old(self).spec_root().transform_data.world_space_matrix,
                    ),
                ),
                ..old(self).spec_root()
            }),
            final(self).spec_time() == old(self).spec_time(),
            final(self).spec_keyboard() == old(self).spec_keyboard(),
            final(self).spec_mouse() == old(self).spec_mouse(),
    {
        self.root_object.add_child(object)
    }

    /// Runs one frame: advances the clock to `cur_time`, then runs the start
    /// pass (a no-op on every already-started component) followed by the
    /// update pass over the whole tree, both against this frame's snapshots.
    pub fn update(&mut self, cur_time: u32)
        requires
            old(self).wf(),
        ensures
            final(self).wf(),
            final(self).spec_time() == old(self).spec_time().spec_updated(cur_time),
            final(self).spec_keyboard() == old(self).spec_keyboard(),
            final(self).spec_mouse() == old(self).spec_mouse(),
            final(self).spec_root() == spec_obj_update(
                spec_obj_start(
                    old(self).spec_root(),
                    (FrameState {
                        time: old(self).spec_time().spec_updated(cur_time),
                        keyboard: old(self).spec_keyboard(),
                        mouse: old(self).spec_mouse(),
                    }),
                ),
                (FrameState {
                    time: old(self).spec_time().spec_updated(cur_time),
                    keyboard: old(self).spec_keyboard(),
                    mouse: old(self).spec_mouse(),
                }),
            ),
    {
        self.time.update(cur_time);
        let mut kb = KeyboardStateSnapshot::new();
        core::mem::swap(&mut self.keyboard, &mut kb);
        let mut ms = MouseStateSnapshot::new();
        core::mem::swap(&mut self.mouse, &mut ms);
        let state = FrameState { time: self.time, keyboard: kb, mouse: ms };

        // The start pass runs every frame; components already started are
        // skipped by their own started flag.
        self.root_object.start(&state);
        self.root_object.update(&state);

        let FrameState { time: _, keyboard: kb2, mouse: ms2 } = state;
        self.keyboard = kb2;
        self.mouse = ms2;
    }

    /// Applies one frame's drained raw events to the keyboard and mouse
    /// states, replaces the two snapshots, and empties the event buffer.
    pub fn process_events(&mut self, events: &mut Vec<InputEvent>)
        requires
            old(self).wf(),
            spec_key_events_ok(old(events)@),
            spec_button_events_ok(old(events)@),
        ensures
            final(self).wf(),
            final(events)@.len() == 0,
            final(self).spec_time() == old(self).spec_time(),
            final(self).spec_root() == old(self).spec_root(),
            final(self).spec_keyboard().spec_keys() == spec_keys_after(
                old(self).spec_keyboard_state().spec_keys(),
                old(events)@,
            ),
            final(self).spec_keyboard().spec_presses() == spec_key_presses(old(events)@),
            final(self).spec_keyboard().spec_releases() == spec_key_releases(old(events)@),
            final(self).spec_mouse().spec_keys() == spec_buttons_after(
                old(self).spec_mouse_state().spec_keys(),
                old(events)@,
            ),
            final(self).spec_mouse().spec_presses() == spec_button_presses(old(events)@),
            final(self).spec_mouse().spec_releases() == spec_button_releases(old(events)@),
            final(self).spec_mouse().spec_position() == spec_position_after(
                old(self).spec_mouse_state().spec_position(),
                old(events)@,
            ),
            final(self).spec_mouse().spec_scroll_delta() == spec_scroll_after(
                0u64,
                old(events)@,
            ),
            final(self).spec_mouse().spec_mouse_delta().0 as int == spec_wrap_i32(
                final(self).spec_mouse().spec_position().0 as int - old(
                    self,
                ).spec_mouse_state().spec_position().0 as int,
            ),
            final(self).spec_mouse().spec_mouse_delta().1 as int == spec_wrap_i32(
                final(self).spec_mouse().spec_position().1 as int - old(
                    self,
                ).spec_mouse_state().spec_position().1 as int,
            ),
    {
        self.keyboard_state.process_events(events);
        self.mouse_state.process_events(events);

        self.keyboard = self.keyboard_state.snapshot();
        self.mouse = self.mouse_state.snapshot();

        events.clear();
    }

    /// The rendering commands of one draw pass over the whole tree, in
    /// issue order.
    pub fn draw(&self) -> (cmds: Vec<DrawCmd>)
        ensures
            cmds@ == spec_obj_draw(self.spec_root()),
    {
        self.root_object.draw()
    }

    /// The root object.
    pub fn root(&self) -> (r: &GameObject<L>)
        ensures
            (*r)@ == self.spec_root(),
    {
        &self.root_object
    }

    /// Mutable access to the root object.
    pub fn root_mut(&mut self) -> (r: &mut GameObject<L>)
        ensures
            (*r)@ == old(self).spec_root(),
            final(self).spec_root() == (*final(r))@,
            final(self).spec_time() == old(self).spec_time(),
            final(self).spec_keyboard() == old(self).spec_keyboard(),
            final(self).spec_mouse() == old(self).spec_mouse(),
            final(self).spec_keyboard_state() == old(self).spec_keyboard_state(),
            final(self).spec_mouse_state() == old(self).spec_mouse_state(),
    {
        &mut self.root_object
    }
}

} // verus!
