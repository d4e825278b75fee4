//! A minimal real-time scene-graph engine core.
//!
//! The library models a tree of game objects, each carrying an enabled flag,
//! a spatial transform and an ordered list of behavioral components.  Every
//! scalar of the transform algebra is an IEEE 754 single-precision value,
//! carried as its raw bit pattern (`u32`); the floating-point computations
//! themselves are delegated to `nalgebra_glm` behind a small set of trusted
//! wrappers, while all data movement, composition, lifecycle and traversal
//! logic is verified.
//!
//! The draw pass is pure: it returns the ordered list of rendering commands
//! to issue, and the platform layer executes them against a real graphics
//! context.

pub mod app_state;
pub mod component;
pub mod drawables;
pub mod float_ops;
pub mod game_object;
pub mod input_event;
pub mod keyboard;
pub mod math;
pub mod matrix_utils;
pub mod mouse;
pub mod renderer;
pub mod transform;
pub mod util;
