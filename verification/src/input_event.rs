//! Raw input events, as the platform hands them to the engine.
//!
//! Events are buffered by platform callbacks between frames and drained into
//! per-frame snapshots at every tick.  A scroll delta is a double-precision
//! value and is carried as its IEEE 754 bit pattern (`u64`).

use vstd::prelude::*;

verus! {

#[derive(Clone, Copy, Debug, PartialEq, Eq, Structural)]
pub enum InputEvent {
    /// Pointer moved to the given screen coordinates.
    MouseMoved(i32, i32),
    /// Keyboard key with the given code went down.
    KeyPressed(u32),
    /// Keyboard key with the given code went up.
    KeyReleased(u32),
    /// Mouse button went down at the given screen coordinates.
    MouseKeyPressed(i32, i32, i16),
    /// Mouse button went up at the given screen coordinates.
    MouseKeyReleased(i32, i32, i16),
    /// Wheel scrolled by the given delta (double-precision bit pattern).
    ScrollMoved(u64),
}

} // verus!
