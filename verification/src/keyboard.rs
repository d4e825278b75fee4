//! Keyboard state accumulated from raw events, and its immutable per-frame
//! snapshot.
//!
//! Key codes index a table of 255 entries; a key event carries a code below
//! 255.  `key_presses` and `key_releases` hold the codes that went down or up
//! during the current frame, in event order.

use vstd::prelude::*;
use vstd::pervasive::VecAdditionalExecFns;

use crate::input_event::InputEvent;
use crate::util::copy_vec;
use crate::util::filled_vec;
use crate::util::vec_contains_u32;

verus! {

/// Number of key-code slots tracked.
pub const KEY_SLOTS: usize = 255;

/// One event applied to the held-key table.
pub open spec fn spec_key_step(keys: Seq<bool>, e: InputEvent) -> Seq<bool> {
    match e {
        InputEvent::KeyPressed(k) => keys.update(k as int, true),
        InputEvent::KeyReleased(k) => keys.update(k as int, false),
        _ => keys,
    }
}

/// The held-key table after applying `events` in order to `keys`.
pub open spec fn spec_keys_after(keys: Seq<bool>, events: Seq<InputEvent>) -> Seq<bool>
    decreases events.len(),
{
    if events.len() == 0 {
        keys
    } else {
        spec_key_step(spec_keys_after(keys, events.drop_last()), events.last())
    }
}

/// The codes of the key-down events of `events`, in order.
pub open spec fn spec_key_presses(events: Seq<InputEvent>) -> Seq<u32>
    decreases events.len(),
{
    if events.len() == 0 {
        Seq::empty()
    } else {
        spec_key_presses(events.drop_last()) + (match events.last() {
            InputEvent::KeyPressed(k) => seq![k],
            _ => Seq::empty(),
        })
    }
}

/// The codes of the key-up events of `events`, in order.
pub open spec fn spec_key_releases(events: Seq<InputEvent>) -> Seq<u32>
    decreases events.len(),
{
    if events.len() == 0 {
        Seq::empty()
    } else {
        spec_key_releases(events.drop_last()) + (match events.last() {
            InputEvent::KeyReleased(k) => seq![k],
            _ => Seq::empty(),
        })
    }
}

/// Every key event of `events` carries a code below `KEY_SLOTS`.
pub open spec fn spec_key_events_ok(events: Seq<InputEvent>) -> bool {
    forall|i: int|
        0 <= i < events.len() ==> (match #[trigger] events[i] {
            InputEvent::KeyPressed(k) => k < KEY_SLOTS,
            InputEvent::KeyReleased(k) => k < KEY_SLOTS,
            _ => true,
        })
}

pub struct KeyboardState {
    keys_pressed: Vec<bool>,
    key_presses: Vec<u32>,
    key_releases: Vec<u32>,
}

impl KeyboardState {
    /// The held-key table has one slot per key code.
    pub closed spec fn wf(self) -> bool {
        self.keys_pressed@.len() == KEY_SLOTS
    }

    pub closed spec fn spec_keys(self) -> Seq<bool> {
        self.keys_pressed@
    }

    pub closed spec fn spec_presses(self) -> Seq<u32> {
        self.key_presses@
    }

    pub closed spec fn spec_releases(self) -> Seq<u32> {
        self.key_releases@
    }

    /// A state with no key held and no frame events.
    pub fn new() -> (r: KeyboardState)
        ensures
            r.wf(),
            r.spec_keys() == Seq::new(KEY_SLOTS as nat, |i: int| false),
            r.spec_presses() == Seq::<u32>::empty(),
            r.spec_releases() == Seq::<u32>::empty(),
    {
        let r = KeyboardState {
            keys_pressed: filled_vec(KEY_SLOTS, false),
            key_presses: Vec::new(),
            key_releases: Vec::new(),
        };
        proof {
            assert(r.spec_keys() =~= Seq::new(KEY_SLOTS as nat, |i: int| false));
        }
        r
    }

    /// Applies one frame's drained events: updates the held-key table and
    /// replaces the per-frame press and release lists.
    pub fn process_events(&mut self, events: &Vec<InputEvent>)
        requires
            old(self).wf(),
            spec_key_events_ok(events@),
        ensures
            final(self).wf(),
            final(self).spec_keys() == spec_keys_after(old(self).spec_keys(), events@),
            final(self).spec_presses() == spec_key_presses(events@),
            final(self).spec_releases() == spec_key_releases(events@),
    {
        self.key_presses.clear();
        self.key_releases.clear();

        let ghost keys0 = self.keys_pressed@;
        let n = events.len();
        for i in 0..n
            invariant
                n == events@.len(),
                spec_key_events_ok(events@),
                self.keys_pressed@.len() == KEY_SLOTS,
                self.keys_pressed@ == spec_keys_after(keys0, events@.take(i as int)),
                self.key_presses@ == spec_key_presses(events@.take(i as int)),
                self.key_releases@ == spec_key_releases(events@.take(i as int)),
        {
            let ghost pre = events@.take(i as int);
            let ghost post = events@.take(i + 1);
            proof {
                assert(post.drop_last() =~= pre);
                assert(post.last() == events@[i as int]);
            }
            match events[i] {
                InputEvent::KeyPressed(key) => {
                    self.keys_pressed.set(key as usize, true);
                    self.key_presses.push(key);
                },
                InputEvent::KeyReleased(key) => {
                    self.keys_pressed.set(key as usize, false);
                    self.key_releases.push(key);
                },
                _ => {},
            }
            proof {
                assert(self.key_presses@ =~= spec_key_presses(post));
                assert(self.key_releases@ =~= spec_key_releases(post));
            }
        }
        proof {
            assert(events@.take(n as int) =~= events@);
        }
    }

    /// An immutable copy of the current state.
    pub fn snapshot(&self) -> (r: KeyboardStateSnapshot)
        requires
            self.wf(),
        ensures
            r.wf(),
            r.spec_keys() == self.spec_keys(),
            r.spec_presses() == self.spec_presses(),
            r.spec_releases() == self.spec_releases(),
    {
        KeyboardStateSnapshot::from(self)
    }
}

/// An immutable, frame-scoped copy of the keyboard state.
pub struct KeyboardStateSnapshot {
    keys_pressed: Vec<bool>,
    key_presses: Vec<u32>,
    key_releases: Vec<u32>,
}

impl KeyboardStateSnapshot {
    /// The held-key table has one slot per key code.
    pub closed spec fn wf(self) -> bool {
        self.keys_pressed@.len() == KEY_SLOTS
    }

    pub closed spec fn spec_keys(self) -> Seq<bool> {
        self.keys_pressed@
    }

    pub closed spec fn spec_presses(self) -> Seq<u32> {
        self.key_presses@
    }

    pub closed spec fn spec_releases(self) -> Seq<u32> {
        self.key_releases@
    }

    /// Whether the key with code `key` is currently held.
    pub open spec fn spec_is_key_pressed(self, key: u32) -> bool {
        self.spec_keys()[key as int]
    }

    /// A copy of `state`.
    pub fn from(state: &KeyboardState) -> (r: KeyboardStateSnapshot)
        requires
            state.wf(),
        ensures
            r.wf(),
            r.spec_keys() == state.spec_keys(),
            r.spec_presses() == state.spec_presses(),
            r.spec_releases() == state.spec_releases(),
    {
        KeyboardStateSnapshot {
            keys_pressed: copy_vec(&state.keys_pressed),
            key_presses: copy_vec(&state.key_presses),
            key_releases: copy_vec(&state.key_releases),
        }
    }

    /// A snapshot with no key held and no frame events.
    pub fn new() -> (r: KeyboardStateSnapshot)
        ensures
            r.wf(),
            r.spec_keys() == Seq::new(KEY_SLOTS as nat, |i: int| false),
            r.spec_presses() == Seq::<u32>::empty(),
            r.spec_releases() == Seq::<u32>::empty(),
    {
        let r = KeyboardStateSnapshot {
            keys_pressed: filled_vec(KEY_SLOTS, false),
            key_presses: Vec::new(),
            key_releases: Vec::new(),
        };
        proof {
            assert(r.spec_keys() =~= Seq::new(KEY_SLOTS as nat, |i: int| false));
        }
        r
    }

    /// Whether the key with code `key` is currently held.
    pub fn is_key_pressed(&self, key: u32) -> (r: bool)
        requires
            self.wf(),
            key < KEY_SLOTS,
        ensures
            r == self.spec_is_key_pressed(key),
    {
        self.keys_pressed[key as usize]
    }

    /// Whether the key with code `key` went down this frame.
    pub fn was_key_pressed(&self, key: u32) -> (r: bool)
        ensures
            r == self.spec_presses().contains(key),
    {
        vec_contains_u32(&self.key_presses, key)
    }

    /// Whether the key with code `key` went up this frame.
    pub fn was_key_released(&self, key: u32) -> (r: bool)
        ensures
            r == self.spec_releases().contains(key),
    {
        vec_contains_u32(&self.key_releases, key)
    }
}

} // verus!
