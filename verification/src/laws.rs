//! Properties of the simulation as a whole, proved over the model.
//!
//! Each proof function here states one law of the state machine: what any
//! number of key presses can do to the pacing delay, what a clear leaves
//! behind, how trails decay over many frames, and which input sequences
//! cancel out.

use crate::fade::Fade;
use crate::life::grid_of;
use crate::state::{FrameInput, StateModel, MAX_DELAY, MIN_DELAY};
use vstd::prelude::*;

verus! {

/// The model after a whole sequence of input frames, applied first to last.
pub open spec fn after_inputs(m: StateModel, inputs: Seq<FrameInput>) -> StateModel
    decreases inputs.len(),
{
    if inputs.len() == 0 {
        m
    } else {
        after_inputs(m.after_input(inputs[0]), inputs.drop_first())
    }
}

/// The model after `n` frames of simulation with no intervening input.
pub open spec fn after_updates(m: StateModel, n: nat) -> StateModel
    decreases n,
{
    if n == 0 {
        m
    } else {
        after_updates(m, (n - 1) as nat).after_update()
    }
}

/// One frame of input handling preserves the state invariant; in
/// particular the grids keep their shape and the pacing delay stays in
/// `[MIN_DELAY, MAX_DELAY]`.
pub proof fn lemma_after_input_inv(m: StateModel, inp: FrameInput)
    requires
        m.inv(),
    ensures
        m.after_input(inp).inv(),
{
    let m1 = m.after_paint(inp);
    assert forall|i: int| 0 <= i < m1.rows implies (#[trigger] m1.cells[i]).len() == m1.cols
        && (#[trigger] m1.fades[i]).len() == m1.cols by {
        assert(m.cells[i].len() == m.cols);
        assert(m.fades[i].len() == m.cols);
    }
    let m2 = m1.after_erase(inp);
    assert forall|i: int| 0 <= i < m2.rows implies (#[trigger] m2.cells[i]).len() == m2.cols
        && (#[trigger] m2.fades[i]).len() == m2.cols by {
        assert(m1.cells[i].len() == m1.cols);
        assert(m1.fades[i].len() == m1.cols);
    }
    let m3 = m2.after_toggle(inp);
    let m4 = m3.after_clear(inp);
    assert forall|i: int| 0 <= i < m4.rows implies (#[trigger] m4.cells[i]).len() == m4.cols
        && (#[trigger] m4.fades[i]).len() == m4.cols by {
        assert(m3.cells[i].len() == m3.cols);
        assert(m3.fades[i].len() == m3.cols);
    }
    assert(m4.after_speed(inp).inv());
}

/// One frame of simulation preserves the state invariant.
pub proof fn lemma_after_update_inv(m: StateModel)
    requires
        m.inv(),
    ensures
        m.after_update().inv(),
{
    let f = m.after_fade();
    assert forall|i: int| 0 <= i < f.rows implies (#[trigger] f.fades[i]).len() == f.cols by {}
    let u = m.after_update();
    assert forall|i: int| 0 <= i < u.rows implies (#[trigger] u.cells[i]).len() == u.cols by {
        assert(m.cells[i].len() == m.cols);
    }
}

/// However many speed-key presses arrive, in whatever direction and mixed
/// with any other input, the pacing delay observed after every frame stays
/// in `[MIN_DELAY, MAX_DELAY]`.
pub proof fn lemma_delay_always_clamped(m: StateModel, inputs: Seq<FrameInput>)
    requires
        m.inv(),
    ensures
        after_inputs(m, inputs).inv(),
        MIN_DELAY <= after_inputs(m, inputs).update_delay <= MAX_DELAY,
    decreases inputs.len(),
{
    if inputs.len() > 0 {
        lemma_after_input_inv(m, inputs[0]);
        lemma_delay_always_clamped(m.after_input(inputs[0]), inputs.drop_first());
    }
}

/// Whatever the prior state, a frame whose input presses the clear key
/// leaves every cell dead, every trail at exactly zero, the simulation
/// paused, and the pacing counter at zero.
pub proof fn lemma_clear_resets(m: StateModel, inp: FrameInput)
    requires
        inp.clear_pressed,
    ensures
        m.after_input(inp).cells == grid_of(m.rows, m.cols, false),
        m.after_input(inp).fades == grid_of(m.rows, m.cols, Fade::Zero),
        !m.after_input(inp).running,
        m.after_input(inp).frame_count == 0,
{
}

/// A trail decays exactly one power of 9/10 per frame: while the simulation
/// is paused, a dead cell whose trail stands at decay exponent `k` stands at
/// exponent `k + n` after `n` further frames — and in particular never at
/// exactly zero.
pub proof fn lemma_fade_counts_frames(m: StateModel, r: int, c: int, k: u32, n: nat)
    requires
        m.inv(),
        !m.running,
        m.in_bounds(r, c),
        !m.cells[r][c],
        m.fades[r][c] == Fade::Level(k),
        k + n <= u32::MAX,
    ensures
        after_updates(m, n).inv(),
        !after_updates(m, n).running,
        after_updates(m, n).cells == m.cells,
        after_updates(m, n).rows == m.rows,
        after_updates(m, n).cols == m.cols,
        after_updates(m, n).fades[r][c] == Fade::Level((k + n) as u32),
    decreases n,
{
    if n == 0 {
    } else {
        lemma_fade_counts_frames(m, r, c, k, (n - 1) as nat);
        let prev = after_updates(m, (n - 1) as nat);
        lemma_after_update_inv(prev);
        assert(after_updates(m, n) == prev.after_fade());
        assert(prev.after_fade().cells == prev.cells);
        assert(prev.after_fade().fades[r][c] == prev.fades[r][c].spec_decay());
    }
}

/// Pressing the toggle-play key on two consecutive frames (without the
/// clear key, which forces a pause) returns the play state to where it
/// started, whatever else those frames' inputs do.
pub proof fn lemma_toggle_twice(m: StateModel, inp: FrameInput)
    requires
        inp.toggle_play_pressed,
        !inp.clear_pressed,
    ensures
        m.after_input(inp).after_input(inp).running == m.running,
{
}

/// Clearing twice is the same as clearing once: a second frame with the
/// clear key pressed (and the speed keys released, which always move the
/// delay) changes nothing further, whatever the pointer does meanwhile.
pub proof fn lemma_clear_idempotent(m: StateModel, inp: FrameInput)
    requires
        inp.clear_pressed,
        !inp.speed_up_pressed,
        !inp.speed_down_pressed,
    ensures
        m.after_input(inp).after_input(inp) == m.after_input(inp),
{
    let once = m.after_input(inp);
    let twice = once.after_input(inp);
    assert(once.rows == m.rows && once.cols == m.cols);
    assert(twice =~~= once);
}

} // verus!
