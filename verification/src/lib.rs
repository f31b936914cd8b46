//! Conway's Game of Life on a fixed-size grid, with play/pause and speed
//! control, pointer editing, and a fading trail left by dead cells.
//!
//! The simulation state is specified against a mathematical model
//! ([`state::StateModel`]): every public operation says exactly which model
//! state it produces.  The drawing and input-polling layer is kept outside
//! this crate; it hands in a [`state::FrameInput`] snapshot each frame and
//! reads back per-cell visual state.

pub mod fade;
pub mod laws;
pub mod life;
pub mod render;
pub mod state;
