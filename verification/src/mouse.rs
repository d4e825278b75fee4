//! Mouse state accumulated from raw events, and its immutable per-frame
//! snapshot.
//!
//! Button codes index a table of 9 entries; a button event carries a code in
//! `0..9`.  The pointer position is the last position reported this frame;
//! the frame delta is the difference to the previous frame's position, the
//! subtraction wrapping on two's-complement overflow.  The accumulated scroll
//! delta is a double-precision value carried as its bit pattern.

use vstd::prelude::*;
use vstd::pervasive::VecAdditionalExecFns;

use crate::float_ops::f64_add;
use crate::float_ops::spec_f64_add;
use crate::input_event::InputEvent;
use crate::util::copy_vec;
use crate::util::filled_vec;
use crate::util::vec_contains_i16;

verus! {

/// Number of button-code slots tracked.
pub const MOUSE_SLOTS: usize = 9;

/// `x` reduced to the two's-complement range of an `i32`.
pub open spec fn spec_wrap_i32(x: int) -> int {
    ((x + 0x8000_0000) % 0x1_0000_0000) - 0x8000_0000
}

/// One event applied to the held-button table.
pub open spec fn spec_button_step(keys: Seq<bool>, e: InputEvent) -> Seq<bool> {
    match e {
        InputEvent::MouseKeyPressed(_, _, k) => keys.update(k as int, true),
        InputEvent::MouseKeyReleased(_, _, k) => keys.update(k as int, false),
        _ => keys,
    }
}

/// The held-button table after applying `events` in order to `keys`.
pub open spec fn spec_buttons_after(keys: Seq<bool>, events: Seq<InputEvent>) -> Seq<bool>
    decreases events.len(),
{
    if events.len() == 0 {
        keys
    } else {
        spec_button_step(spec_buttons_after(keys, events.drop_last()), events.last())
    }
}

/// The codes of the button-down events of `events`, in order.
pub open spec fn spec_button_presses(events: Seq<InputEvent>) -> Seq<i16>
    decreases events.len(),
{
    if events.len() == 0 {
        Seq::empty()
    } else {
        spec_button_presses(events.drop_last()) + (match events.last() {
            InputEvent::MouseKeyPressed(_, _, k) => seq![k],
            _ => Seq::empty(),
        })
    }
}

/// The codes of the button-up events of `events`, in order.
pub open spec fn spec_button_releases(events: Seq<InputEvent>) -> Seq<i16>
    decreases events.len(),
{
    if events.len() == 0 {
        Seq::empty()
    } else {
        spec_button_releases(events.drop_last()) + (match events.last() {
            InputEvent::MouseKeyReleased(_, _, k) => seq![k],
            _ => Seq::empty(),
        })
    }
}

/// The last pointer position reported by `events`, starting from `pos`.
pub open spec fn spec_position_after(pos: (i32, i32), events: Seq<InputEvent>) -> (i32, i32)
    decreases events.len(),
{
    if events.len() == 0 {
        pos
    } else {
        match events.last() {
            InputEvent::MouseMoved(x, y) => (x, y),
            _ => spec_position_after(pos, events.drop_last()),
        }
    }
}

/// The scroll deltas of `events` summed (double-precision) onto `acc`.
pub open spec fn spec_scroll_after(acc: u64, events: Seq<InputEvent>) -> u64
    decreases events.len(),
{
    if events.len() == 0 {
        acc
    } else {
        match events.last() {
            InputEvent::ScrollMoved(d) => spec_f64_add(
                spec_scroll_after(acc, events.drop_last()),
                d,
            ),
            _ => spec_scroll_after(acc, events.drop_last()),
        }
    }
}

/// Every button event of `events` carries a code in `0..MOUSE_SLOTS`.
pub open spec fn spec_button_events_ok(events: Seq<InputEvent>) -> bool {
    forall|i: int|
        0 <= i < events.len() ==> (match #[trigger] events[i] {
            InputEvent::MouseKeyPressed(_, _, k) => 0 <= k < MOUSE_SLOTS,
            InputEvent::MouseKeyReleased(_, _, k) => 0 <= k < MOUSE_SLOTS,
            _ => true,
        })
}

/// The difference `a - b`, wrapping on overflow.
fn wrap_sub_i32(a: i32, b: i32) -> (r: i32)
    ensures
        r as int == spec_wrap_i32(a as int - b as int),
{
    let d: i64 = a as i64 - b as i64;
    let r: i32 = if d > 0x7FFF_FFFFi64 {
        (d - 0x1_0000_0000i64) as i32
    } else if d < -0x8000_0000i64 {
        (d + 0x1_0000_0000i64) as i32
    } else {
        d as i32
    };
    proof {
        let x = a as int - b as int;
        if d > 0x7FFF_FFFFi64 {
            assert((x + 0x8000_0000) % 0x1_0000_0000 == x + 0x8000_0000 - 0x1_0000_0000);
        } else if d < -0x8000_0000i64 {
            assert((x + 0x8000_0000) % 0x1_0000_0000 == x + 0x8000_0000 + 0x1_0000_0000);
        } else {
            assert((x + 0x8000_0000) % 0x1_0000_0000 == x + 0x8000_0000);
        }
    }
    r
}

pub struct MouseState {
    keys_pressed: Vec<bool>,
    /// Accumulated scroll delta of the frame (double-precision bit pattern).
    pub scroll_delta: u64,
    /// Last reported pointer position.
    pub position: (i32, i32),
    /// Pointer movement since the previous frame.
    pub mouse_delta: (i32, i32),
    key_presses: Vec<i16>,
    key_releases: Vec<i16>,
}

impl MouseState {
    /// The held-button table has one slot per button code.
    pub closed spec fn wf(self) -> bool {
        self.keys_pressed@.len() == MOUSE_SLOTS
    }

    pub closed spec fn spec_keys(self) -> Seq<bool> {
        self.keys_pressed@
    }

    pub closed spec fn spec_presses(self) -> Seq<i16> {
        self.key_presses@
    }

    pub closed spec fn spec_releases(self) -> Seq<i16> {
        self.key_releases@
    }

    pub closed spec fn spec_scroll_delta(self) -> u64 {
        self.scroll_delta
    }

    pub closed spec fn spec_position(self) -> (i32, i32) {
        self.position
    }

    pub closed spec fn spec_mouse_delta(self) -> (i32, i32) {
        self.mouse_delta
    }

    /// A state with no button held, the pointer at the origin and no frame
    /// events.
    pub fn new() -> (r: MouseState)
        ensures
            r.wf(),
            r.spec_keys() == Seq::new(MOUSE_SLOTS as nat, |i: int| false),
            r.spec_scroll_delta() == 0u64,
            r.spec_position() == (0i32, 0i32),
            r.spec_mouse_delta() == (0i32, 0i32),
            r.spec_presses() == Seq::<i16>::empty(),
            r.spec_releases() == Seq::<i16>::empty(),
    {
        let r = MouseState {
            keys_pressed: filled_vec(MOUSE_SLOTS, false),
            scroll_delta: 0,
            position: (0, 0),
            mouse_delta: (0, 0),
            key_presses: Vec::new(),
            key_releases: Vec::new(),
        };
        proof {
            assert(r.spec_keys() =~= Seq::new(MOUSE_SLOTS as nat, |i: int| false));
        }
        r
    }

    /// Applies one frame's drained events: updates the held-button table,
    /// the pointer position and its frame delta, restarts the scroll
    /// accumulator, and replaces the per-frame press and release lists.
    pub fn process_events(&mut self, events: &Vec<InputEvent>)
        requires
            old(self).wf(),
            spec_button_events_ok(events@),
        ensures
            final(self).wf(),
            final(self).spec_keys() == spec_buttons_after(old(self).spec_keys(), events@),
            final(self).spec_presses() == spec_button_presses(events@),
            final(self).spec_releases() == spec_button_releases(events@),
            final(self).spec_position() == spec_position_after(
                old(self).spec_position(),
                events@,
            ),
            final(self).spec_scroll_delta() == spec_scroll_after(0u64, events@),
            final(self).spec_mouse_delta().0 as int == spec_wrap_i32(
                final(self).spec_position().0 as int - old(self).spec_position().0 as int,
            ),
            final(self).spec_mouse_delta().1 as int == spec_wrap_i32(
                final(self).spec_position().1 as int - old(self).spec_position().1 as int,
            ),
    {
        self.key_presses.clear();
        self.key_releases.clear();
        self.scroll_delta = 0;
        let mouse_prev = self.position;

        let ghost keys0 = self.keys_pressed@;
        let ghost pos0 = self.position;
        let n = events.len();
        for i in 0..n
            invariant
                n == events@.len(),
                spec_button_events_ok(events@),
                self.keys_pressed@.len() == MOUSE_SLOTS,
                self.keys_pressed@ == spec_buttons_after(keys0, events@.take(i as int)),
                self.key_presses@ == spec_button_presses(events@.take(i as int)),
                self.key_releases@ == spec_button_releases(events@.take(i as int)),
                self.position == spec_position_after(pos0, events@.take(i as int)),
                self.scroll_delta == spec_scroll_after(0u64, events@.take(i as int)),
        {
            let ghost pre = events@.take(i as int);
            let ghost post = events@.take(i + 1);
            proof {
                assert(post.drop_last() =~= pre);
                assert(post.last() == events@[i as int]);
            }
            match events[i] {
                InputEvent::MouseKeyPressed(_, _, key) => {
                    self.keys_pressed.set(key as usize, true);
                    self.key_presses.push(key);
                },
                InputEvent::MouseKeyReleased(_, _, key) => {
                    self.keys_pressed.set(key as usize, false);
                    self.key_releases.push(key);
                },
                InputEvent::MouseMoved(x, y) => {
                    self.position = (x, y);
                },
                InputEvent::ScrollMoved(delta) => {
                    self.scroll_delta = f64_add(self.scroll_delta, delta);
                },
                _ => {},
            }
            proof {
                assert(self.key_presses@ =~= spec_button_presses(post));
                assert(self.key_releases@ =~= spec_button_releases(post));
            }
        }
        proof {
            assert(events@.take(n as int) =~= events@);
        }

        self.mouse_delta = (
            wrap_sub_i32(self.position.0, mouse_prev.0),
            wrap_sub_i32(self.position.1, mouse_prev.1),
        );
    }

    /// An immutable copy of the current state.
    pub fn snapshot(&self) -> (r: MouseStateSnapshot)
        requires
            self.wf(),
        ensures
            r.wf(),
            r.spec_keys() == self.spec_keys(),
            r.spec_presses() == self.spec_presses(),
            r.spec_releases() == self.spec_releases(),
            r.spec_position() == self.spec_position(),
            r.spec_mouse_delta() == self.spec_mouse_delta(),
            r.spec_scroll_delta() == self.spec_scroll_delta(),
    {
        MouseStateSnapshot::from(self)
    }
}

/// An immutable, frame-scoped copy of the mouse state.
pub struct MouseStateSnapshot {
    keys_pressed: Vec<bool>,
    /// Accumulated scroll delta of the frame (double-precision bit pattern).
    pub scroll_delta: u64,
    /// Last reported pointer position.
    pub position: (i32, i32),
    /// Pointer movement since the previous frame.
    pub mouse_delta: (i32, i32),
    key_presses: Vec<i16>,
    key_releases: Vec<i16>,
}

impl MouseStateSnapshot {
    /// The held-button table has one slot per button code.
    pub closed spec fn wf(self) -> bool {
        self.keys_pressed@.len() == MOUSE_SLOTS
    }

    pub closed spec fn spec_keys(self) -> Seq<bool> {
        self.keys_pressed@
    }

    pub closed spec fn spec_presses(self) -> Seq<i16> {
        self.key_presses@
    }

    pub closed spec fn spec_releases(self) -> Seq<i16> {
        self.key_releases@
    }

    pub closed spec fn spec_scroll_delta(self) -> u64 {
        self.scroll_delta
    }

    pub closed spec fn spec_position(self) -> (i32, i32) {
        self.position
    }

    pub closed spec fn spec_mouse_delta(self) -> (i32, i32) {
        self.mouse_delta
    }

    /// Whether the button with code `key` is currently held.
    pub open spec fn spec_is_button_pressed(self, key: i16) -> bool {
        self.spec_keys()[key as int]
    }

    /// A copy of `state`.
    pub fn from(state: &MouseState) -> (r: MouseStateSnapshot)
        requires
            state.wf(),
        ensures
            r.wf(),
            r.spec_keys() == state.spec_keys(),
            r.spec_presses() == state.spec_presses(),
            r.spec_releases() == state.spec_releases(),
            r.spec_position() == state.spec_position(),
            r.spec_mouse_delta() == state.spec_mouse_delta(),
            r.spec_scroll_delta() == state.spec_scroll_delta(),
    {
        MouseStateSnapshot {
            keys_pressed: copy_vec(&state.keys_pressed),
            scroll_delta: state.scroll_delta,
            position: state.position,
            mouse_delta: state.mouse_delta,
            key_presses: copy_vec(&state.key_presses),
            key_releases: copy_vec(&state.key_releases),
        }
    }

    /// A snapshot with no button held, the pointer at the origin and no
    /// frame events.
    pub fn new() -> (r: MouseStateSnapshot)
        ensures
            r.wf(),
            r.spec_keys() == Seq::new(MOUSE_SLOTS as nat, |i: int| false),
            r.spec_scroll_delta() == 0u64,
            r.spec_position() == (0i32, 0i32),
            r.spec_mouse_delta() == (0i32, 0i32),
            r.spec_presses() == Seq::<i16>::empty(),
            r.spec_releases() == Seq::<i16>::empty(),
    {
        let r = MouseStateSnapshot {
            keys_pressed: filled_vec(MOUSE_SLOTS, false),
            scroll_delta: 0,
            position: (0, 0),
            mouse_delta: (0, 0),
            key_presses: Vec::new(),
            key_releases: Vec::new(),
        };
        proof {
            assert(r.spec_keys() =~= Seq::new(MOUSE_SLOTS as nat, |i: int| false));
        }
        r
    }

    /// Whether the button with code `key` is currently held.
    pub fn is_button_pressed(&self, key: i16) -> (r: bool)
        requires
            self.wf(),
            0 <= key < MOUSE_SLOTS,
        ensures
            r == self.spec_is_button_pressed(key),
    {
        self.keys_pressed[key as usize]
    }

    /// Whether the button with code `key` went down this frame.
    pub fn was_button_pressed(&self, key: i16) -> (r: bool)
        ensures
            r == self.spec_presses().contains(key),
    {
        vec_contains_i16(&self.key_presses, key)
    }

    /// Whether the button with code `key` went up this frame.
    pub fn was_button_released(&self, key: i16) -> (r: bool)
        ensures
            r == self.spec_releases().contains(key),
    {
        vec_contains_i16(&self.key_releases, key)
    }

    /// Whether the left mouse button is currently held.
    pub fn is_lmb_pressed(&self) -> (r: bool)
        requires
            self.wf(),
        ensures
            r == self.spec_is_button_pressed(0),
    {
        self.is_button_pressed(0)
    }

    /// Whether the middle mouse button is currently held.
    pub fn is_mmb_pressed(&self) -> (r: bool)
        requires
            self.wf(),
        ensures
            r == self.spec_is_button_pressed(1),
    {
        self.is_button_pressed(1)
    }

    /// Whether the right mouse button is currently held.
    pub fn is_rmb_pressed(&self) -> (r: bool)
        requires
            self.wf(),
        ensures
            r == self.spec_is_button_pressed(2),
    {
        self.is_button_pressed(2)
    }
}

} // verus!
