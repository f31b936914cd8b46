//! Derived visual state, the only thing the drawing layer needs.
//!
//! The crate does not own a window, a frame clock or any drawing primitive;
//! it only answers, per cell, whether to draw it and with which of two
//! colours (full "alive" colour, or the trail colour at the cell's current
//! intensity), plus the scalar values shown in the HUD.

use crate::fade::Fade;
use crate::state::{GameState, StateModel};
use vstd::prelude::*;

verus! {

/// What the drawing layer needs to know about one cell.
#[derive(Clone, Copy, Debug, PartialEq, Eq, Structural)]
pub struct CellVisual {
    /// Draw the cell at all?  True exactly when its trail intensity is
    /// above the visibility threshold.
    pub visible: bool,
    /// Full-intensity "alive" colour when true; the fading trail colour,
    /// with opacity given by `fade`, otherwise.
    pub alive: bool,
    /// The trail intensity, which gives the trail colour its opacity.
    pub fade: Fade,
}

/// The visual state of cell `(r, c)` of model `m`, or `None` outside the
/// grid.
pub open spec fn spec_cell_visual(m: StateModel, r: int, c: int) -> Option<CellVisual> {
    if m.in_bounds(r, c) {
        Some(
            CellVisual {
                visible: m.fades[r][c].spec_is_visible(),
                alive: m.cells[r][c],
                fade: m.fades[r][c],
            },
        )
    } else {
        None
    }
}

impl GameState {
    /// Everything the drawing layer needs about cell `(row, col)`, or
    /// `None` outside the grid.
    pub fn cell_visual(&self, row: i32, col: i32) -> (r: Option<CellVisual>)
        ensures
            r == spec_cell_visual(self@, row as int, col as int),
    {
        match (self.get_cell(row, col), self.get_fade(row, col)) {
            (Some(alive), Some(fade)) => Some(
                CellVisual { visible: fade.is_visible(), alive, fade },
            ),
            _ => None,
        }
    }

    /// The HUD label for the play state.
    pub fn status_label(&self) -> (s: &'static str)
        ensures
            self@.running ==> s@ == "RUNNING"@,
            !self@.running ==> s@ == "PAUSED"@,
    {
        if self.is_running() {
            "RUNNING"
        } else {
            "PAUSED"
        }
    }
}

} // verus!
