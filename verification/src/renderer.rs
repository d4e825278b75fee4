//! Rendering commands issued by a draw traversal.
//!
//! The draw pass is a pure computation: it walks the tree and returns the
//! ordered list of commands to issue against a graphics context.  Color
//! channels are single-precision bit patterns; the clear mask and primitive
//! mode carry the graphics API's own constants.

use vstd::prelude::*;

verus! {

/// Mask selecting the color buffer in a clear command.
pub const COLOR_BUFFER_BIT: u32 = 0x0000_4000;

/// Primitive mode drawing independent triangles.
pub const TRIANGLES_MODE: u32 = 4;

/// One rendering side effect, in the order the traversal issues it.
#[derive(Clone, Copy, Debug, PartialEq, Eq, Structural)]
pub enum DrawCmd {
    /// Set the clear color to the given red, green, blue and alpha channels
    /// (single-precision bit patterns).
    ClearColor(u32, u32, u32, u32),
    /// Clear the buffers selected by the mask.
    Clear(u32),
    /// Draw `count` vertices starting at `first` with the given primitive
    /// mode.
    DrawArrays(u32, i32, i32),
}

} // verus!
