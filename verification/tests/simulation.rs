use life_sim::fade::{Fade, VISIBLE_STEPS};
use life_sim::state::{FrameInput, GameState, MAX_DELAY, MIN_DELAY};

fn paint(s: &mut GameState, row: i64, col: i64) {
    let mut inp = FrameInput::idle();
    inp.primary_down = true;
    inp.pointer_row = row;
    inp.pointer_col = col;
    s.handle_input(&inp);
}

fn erase(s: &mut GameState, row: i64, col: i64) {
    let mut inp = FrameInput::idle();
    inp.secondary_down = true;
    inp.pointer_row = row;
    inp.pointer_col = col;
    s.handle_input(&inp);
}

fn press_toggle(s: &mut GameState) {
    let mut inp = FrameInput::idle();
    inp.toggle_play_pressed = true;
    s.handle_input(&inp);
}

fn press_clear(s: &mut GameState) {
    let mut inp = FrameInput::idle();
    inp.clear_pressed = true;
    s.handle_input(&inp);
}

fn press_speed_up(s: &mut GameState) {
    let mut inp = FrameInput::idle();
    inp.speed_up_pressed = true;
    s.handle_input(&inp);
}

fn press_speed_down(s: &mut GameState) {
    let mut inp = FrameInput::idle();
    inp.speed_down_pressed = true;
    s.handle_input(&inp);
}

fn alive_cells(s: &GameState) -> Vec<(i32, i32)> {
    let mut out = Vec::new();
    for r in 0..s.rows() {
        for c in 0..s.cols() {
            if s.get_cell(r, c) == Some(true) {
                out.push((r, c));
            }
        }
    }
    out
}

#[test]
fn new_state_is_empty_and_paused() {
    let s = GameState::new(5, 7);
    assert_eq!(s.rows(), 5);
    assert_eq!(s.cols(), 7);
    assert!(!s.is_running());
    assert_eq!(s.frame_count(), 0);
    assert_eq!(s.update_delay(), MIN_DELAY);
    for r in 0..5 {
        for c in 0..7 {
            assert_eq!(s.get_cell(r, c), Some(false));
            assert_eq!(s.get_fade(r, c), Some(Fade::Zero));
        }
    }
}

#[test]
fn neighbor_count_interior_excludes_self() {
    // A fully live 3x3 block: the center sees its 8 neighbours, never itself,
    // so the count is 8, not 9.
    let mut s = GameState::new(5, 5);
    for r in 1..4 {
        for c in 1..4 {
            paint(&mut s, r, c);
        }
    }
    assert_eq!(s.calculate_neighbors(2, 2), 8);
}

#[test]
fn neighbor_count_corner_clamps_to_three() {
    // On a fully live grid a corner cell can see only the 3 in-bounds
    // neighbours: out-of-grid positions contribute 0, with no wraparound.
    let mut s = GameState::new(4, 4);
    for r in 0..4 {
        for c in 0..4 {
            paint(&mut s, r, c);
        }
    }
    assert_eq!(s.calculate_neighbors(0, 0), 3);
    assert_eq!(s.calculate_neighbors(0, 3), 3);
    assert_eq!(s.calculate_neighbors(3, 0), 3);
    assert_eq!(s.calculate_neighbors(3, 3), 3);
    assert_eq!(s.calculate_neighbors(0, 1), 5);
}

#[test]
fn neighbor_count_accepts_out_of_grid_coordinates() {
    let mut s = GameState::new(3, 3);
    paint(&mut s, 0, 0);
    // The cell just outside the corner has exactly one in-bounds neighbour.
    assert_eq!(s.calculate_neighbors(-1, -1), 1);
    assert_eq!(s.calculate_neighbors(3, 3), 0);
}

#[test]
fn lonely_cell_dies() {
    let mut s = GameState::new(3, 3);
    paint(&mut s, 1, 1);
    s.step();
    assert_eq!(alive_cells(&s), Vec::<(i32, i32)>::new());
}

#[test]
fn cell_with_one_neighbor_dies() {
    let mut s = GameState::new(3, 3);
    paint(&mut s, 1, 1);
    paint(&mut s, 1, 2);
    s.step();
    assert_eq!(alive_cells(&s), Vec::<(i32, i32)>::new());
}

#[test]
fn cell_with_three_neighbors_is_born_and_survivors_survive() {
    // An L of three live cells: the fourth corner of the square has exactly
    // 3 neighbours and is born; each live cell has 2 and survives (a block
    // is a still life).
    let mut s = GameState::new(4, 4);
    paint(&mut s, 1, 1);
    paint(&mut s, 1, 2);
    paint(&mut s, 2, 1);
    s.step();
    assert_eq!(alive_cells(&s), vec![(1, 1), (1, 2), (2, 1), (2, 2)]);
    s.step();
    assert_eq!(alive_cells(&s), vec![(1, 1), (1, 2), (2, 1), (2, 2)]);
}

#[test]
fn blinker_oscillates_with_period_two() {
    let mut s = GameState::new(5, 5);
    paint(&mut s, 2, 1);
    paint(&mut s, 2, 2);
    paint(&mut s, 2, 3);
    s.step();
    assert_eq!(alive_cells(&s), vec![(1, 2), (2, 2), (3, 2)]);
    s.step();
    assert_eq!(alive_cells(&s), vec![(2, 1), (2, 2), (2, 3)]);
}

#[test]
fn step_uses_only_the_pre_step_grid() {
    // A horizontal blinker in the top rows.  A naive in-place row-major scan
    // would first set (0, 1) alive, and then wrongly count it as a neighbour
    // of (0, 2), bringing (0, 2) to life.  The synchronous step must leave
    // (0, 2) dead and produce exactly the vertical blinker.
    let mut s = GameState::new(3, 3);
    paint(&mut s, 1, 0);
    paint(&mut s, 1, 1);
    paint(&mut s, 1, 2);
    s.step();
    assert_eq!(s.get_cell(0, 2), Some(false));
    assert_eq!(alive_cells(&s), vec![(0, 1), (1, 1), (2, 1)]);
}

#[test]
fn pointer_outside_grid_is_a_no_op() {
    let mut s = GameState::new(3, 3);
    paint(&mut s, -1, 0);
    paint(&mut s, 0, -7);
    paint(&mut s, 3, 1);
    paint(&mut s, 1, 99);
    assert_eq!(alive_cells(&s), Vec::<(i32, i32)>::new());
    erase(&mut s, 5, 5); // no panic, no effect
}

#[test]
fn paint_sets_cell_and_full_trail() {
    let mut s = GameState::new(3, 3);
    paint(&mut s, 0, 2);
    assert_eq!(s.get_cell(0, 2), Some(true));
    assert_eq!(s.get_fade(0, 2), Some(Fade::Level(0)));
}

#[test]
fn erase_kills_cell_but_keeps_trail() {
    let mut s = GameState::new(3, 3);
    paint(&mut s, 1, 1);
    s.update(); // trail refreshed to full while alive
    erase(&mut s, 1, 1);
    assert_eq!(s.get_cell(1, 1), Some(false));
    // The trail is left to decay on its own, not cleared.
    assert_eq!(s.get_fade(1, 1), Some(Fade::Level(0)));
}

#[test]
fn update_delay_stays_clamped() {
    let mut s = GameState::new(3, 3);
    for _ in 0..100 {
        press_speed_up(&mut s);
        assert!(s.update_delay() >= MIN_DELAY && s.update_delay() <= MAX_DELAY);
    }
    assert_eq!(s.update_delay(), MIN_DELAY);
    for _ in 0..100 {
        press_speed_down(&mut s);
        assert!(s.update_delay() >= MIN_DELAY && s.update_delay() <= MAX_DELAY);
    }
    assert_eq!(s.update_delay(), MAX_DELAY);
    press_speed_up(&mut s);
    assert_eq!(s.update_delay(), MAX_DELAY - 1);
}

#[test]
fn clear_wipes_everything_regardless_of_prior_state() {
    let mut s = GameState::new(4, 4);
    paint(&mut s, 1, 1);
    paint(&mut s, 2, 2);
    press_toggle(&mut s);
    press_speed_down(&mut s);
    s.update();
    press_clear(&mut s);
    assert!(!s.is_running());
    assert_eq!(s.frame_count(), 0);
    for r in 0..4 {
        for c in 0..4 {
            assert_eq!(s.get_cell(r, c), Some(false));
            assert_eq!(s.get_fade(r, c), Some(Fade::Zero));
        }
    }
    // The pacing delay is deliberately kept.
    assert_eq!(s.update_delay(), 2);
}

#[test]
fn toggle_twice_restores_play_state() {
    let mut s = GameState::new(3, 3);
    assert!(!s.is_running());
    press_toggle(&mut s);
    assert!(s.is_running());
    press_toggle(&mut s);
    assert!(!s.is_running());
}

#[test]
fn clear_twice_equals_clear_once() {
    let mut s = GameState::new(3, 3);
    paint(&mut s, 1, 1);
    press_toggle(&mut s);
    press_clear(&mut s);
    let cells_once = alive_cells(&s);
    let running_once = s.is_running();
    let frames_once = s.frame_count();
    let delay_once = s.update_delay();
    press_clear(&mut s);
    assert_eq!(alive_cells(&s), cells_once);
    assert_eq!(s.is_running(), running_once);
    assert_eq!(s.frame_count(), frames_once);
    assert_eq!(s.update_delay(), delay_once);
    for r in 0..3 {
        for c in 0..3 {
            assert_eq!(s.get_fade(r, c), Some(Fade::Zero));
        }
    }
}

#[test]
fn trail_decays_one_step_per_frame_and_never_reaches_zero() {
    let mut s = GameState::new(3, 3);
    paint(&mut s, 1, 1);
    erase(&mut s, 1, 1);
    // Paused: updates only refresh the trails.
    let mut previous = 1.0f64;
    for n in 1..=40u32 {
        s.update();
        assert_eq!(s.get_fade(1, 1), Some(Fade::Level(n)));
        // The exponent n stands for the intensity 1.0 * 0.9^n ...
        let intensity = 0.9f64.powi(n as i32);
        // ... which strictly decreases and stays positive.
        assert!(intensity < previous);
        assert!(intensity > 0.0);
        previous = intensity;
    }
}

#[test]
fn live_cell_keeps_full_trail() {
    let mut s = GameState::new(3, 3);
    paint(&mut s, 0, 0);
    for _ in 0..10 {
        s.update();
        assert_eq!(s.get_fade(0, 0), Some(Fade::Level(0)));
    }
}

#[test]
fn trail_decays_even_while_running() {
    let mut s = GameState::new(3, 3);
    paint(&mut s, 1, 1);
    erase(&mut s, 1, 1);
    press_toggle(&mut s);
    s.update();
    assert_eq!(s.get_fade(1, 1), Some(Fade::Level(1)));
}

#[test]
fn visibility_threshold_is_twenty_eight_steps() {
    // 0.9^28 ~ 0.0523 is still above the 0.05 threshold; 0.9^29 ~ 0.0471
    // falls below it.
    assert!(0.9f64.powi(VISIBLE_STEPS as i32) > 0.05);
    assert!(0.9f64.powi(VISIBLE_STEPS as i32 + 1) < 0.05);
    assert!(Fade::Level(VISIBLE_STEPS).is_visible());
    assert!(!Fade::Level(VISIBLE_STEPS + 1).is_visible());
    assert!(Fade::Level(0).is_visible());
    assert!(!Fade::Zero.is_visible());
}

#[test]
fn pacing_steps_only_after_the_delay_elapses() {
    let mut s = GameState::new(5, 5);
    // A blinker, running at a delay of 2 frames per generation.
    paint(&mut s, 2, 1);
    paint(&mut s, 2, 2);
    paint(&mut s, 2, 3);
    press_speed_down(&mut s);
    assert_eq!(s.update_delay(), 2);
    press_toggle(&mut s);
    s.update();
    // First frame: counter advances, no generation yet.
    assert_eq!(s.frame_count(), 1);
    assert_eq!(alive_cells(&s), vec![(2, 1), (2, 2), (2, 3)]);
    s.update();
    // Second frame: the generation fires and the counter resets.
    assert_eq!(s.frame_count(), 0);
    assert_eq!(alive_cells(&s), vec![(1, 2), (2, 2), (3, 2)]);
}

#[test]
fn paused_simulation_never_steps() {
    let mut s = GameState::new(5, 5);
    paint(&mut s, 2, 1);
    paint(&mut s, 2, 2);
    paint(&mut s, 2, 3);
    for _ in 0..5 {
        s.update();
    }
    assert_eq!(s.frame_count(), 0);
    assert_eq!(alive_cells(&s), vec![(2, 1), (2, 2), (2, 3)]);
}
