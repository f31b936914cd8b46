//! The simulation state and its per-frame transitions.
//!
//! [`GameState`] owns the cell grid, the trail grid, and the playback
//! controls.  Its mathematical model is [`StateModel`]; every public
//! operation's contract says exactly which model state it produces.  Input
//! arrives as a [`FrameInput`] snapshot, so the whole state machine is
//! specified (and testable) without any windowing layer.

use crate::fade::Fade;
use crate::life::{grid_of, neighbor_count, next_cell, stepped};
use vstd::prelude::*;

verus! {

/// Fewest frames allowed between generations (fastest speed).
pub const MIN_DELAY: i32 = 1;

/// Most frames allowed between generations (slowest speed).
pub const MAX_DELAY: i32 = 60;

/// Everything the simulation reads from the windowing layer in one frame.
///
/// The pointer position arrives already converted to grid coordinates (row
/// and column index under the pointer); it may lie outside the grid, in
/// which case pointer edits are silently ignored.  The four key fields are
/// edge-triggered: true only on the frame the key goes down.
#[derive(Clone, Copy, Debug, PartialEq, Eq, Structural)]
pub struct FrameInput {
    /// Grid row under the pointer; may be negative or past the last row.
    pub pointer_row: i64,
    /// Grid column under the pointer; may be negative or past the last column.
    pub pointer_col: i64,
    /// Primary button held: paint the pointed-at cell alive.
    pub primary_down: bool,
    /// Secondary button held: erase the pointed-at cell, leaving its trail.
    pub secondary_down: bool,
    /// Toggle-play key went down this frame: flip running/paused.
    pub toggle_play_pressed: bool,
    /// Clear key went down this frame: wipe the board and pause.
    pub clear_pressed: bool,
    /// Speed-up key went down this frame: shrink the pacing delay.
    pub speed_up_pressed: bool,
    /// Speed-down key went down this frame: grow the pacing delay.
    pub speed_down_pressed: bool,
}

impl FrameInput {
    /// A frame in which nothing is pressed and the pointer rests at the
    /// origin cell.
    pub fn idle() -> (inp: FrameInput)
        ensures
            inp == (FrameInput {
                pointer_row: 0,
                pointer_col: 0,
                primary_down: false,
                secondary_down: false,
                toggle_play_pressed: false,
                clear_pressed: false,
                speed_up_pressed: false,
                speed_down_pressed: false,
            }),
    {
        FrameInput {
            pointer_row: 0,
            pointer_col: 0,
            primary_down: false,
            secondary_down: false,
            toggle_play_pressed: false,
            clear_pressed: false,
            speed_up_pressed: false,
            speed_down_pressed: false,
        }
    }
}

/// Mathematical model of the whole simulation state.
#[verifier::ext_equal]
pub ghost struct StateModel {
    /// The cell grid: `true` is alive.
    pub cells: Seq<Seq<bool>>,
    /// The trail grid, one intensity per cell.
    pub fades: Seq<Seq<Fade>>,
    /// Playing (`true`) or paused.
    pub running: bool,
    /// Frames elapsed since the last generation was taken.
    pub frame_count: int,
    /// Number of rows; fixed for the state's whole life.
    pub rows: int,
    /// Number of columns; fixed for the state's whole life.
    pub cols: int,
    /// Frames required between generations, always in `[MIN_DELAY, MAX_DELAY]`.
    pub update_delay: int,
}

impl StateModel {
    /// Shape and bounds every reachable state keeps: both grids are `rows`
    /// by `cols`, the pacing delay is clamped, and the pacing counter never
    /// outruns the largest delay.
    pub open spec fn inv(self) -> bool {
        &&& 0 <= self.rows
        &&& 0 <= self.cols
        &&& self.cells.len() == self.rows
        &&& self.fades.len() == self.rows
        &&& forall|r: int| 0 <= r < self.rows ==> (#[trigger] self.cells[r]).len() == self.cols
        &&& forall|r: int| 0 <= r < self.rows ==> (#[trigger] self.fades[r]).len() == self.cols
        &&& MIN_DELAY <= self.update_delay <= MAX_DELAY
        &&& 0 <= self.frame_count <= MAX_DELAY
    }

    /// Whether `(r, c)` is a cell of the grid.
    pub open spec fn in_bounds(self, r: int, c: int) -> bool {
        0 <= r < self.rows && 0 <= c < self.cols
    }

    /// The model with cell `(r, c)` set to `alive`.
    pub open spec fn set_cell(self, r: int, c: int, alive: bool) -> StateModel {
        StateModel { cells: self.cells.update(r, self.cells[r].update(c, alive)), ..self }
    }

    /// The model with the trail at `(r, c)` set to `f`.
    pub open spec fn set_fade(self, r: int, c: int, f: Fade) -> StateModel {
        StateModel { fades: self.fades.update(r, self.fades[r].update(c, f)), ..self }
    }

    /// Held primary button: the pointed-at cell becomes alive at full trail
    /// intensity; a pointer outside the grid does nothing.
    pub open spec fn after_paint(self, inp: FrameInput) -> StateModel {
        if inp.primary_down && self.in_bounds(inp.pointer_row as int, inp.pointer_col as int) {
            self.set_cell(inp.pointer_row as int, inp.pointer_col as int, true).set_fade(
                inp.pointer_row as int,
                inp.pointer_col as int,
                Fade::Level(0),
            )
        } else {
            self
        }
    }

    /// Held secondary button: the pointed-at cell dies, but its trail is
    /// left to decay on its own; a pointer outside the grid does nothing.
    pub open spec fn after_erase(self, inp: FrameInput) -> StateModel {
        if inp.secondary_down && self.in_bounds(inp.pointer_row as int, inp.pointer_col as int) {
            self.set_cell(inp.pointer_row as int, inp.pointer_col as int, false)
        } else {
            self
        }
    }

    /// Edge-triggered toggle-play key: flip between running and paused.
    pub open spec fn after_toggle(self, inp: FrameInput) -> StateModel {
        if inp.toggle_play_pressed {
            StateModel { running: !self.running, ..self }
        } else {
            self
        }
    }

    /// Edge-triggered clear key: every cell dead, every trail exactly zero,
    /// paused, pacing counter reset.  The pacing delay is kept.
    pub open spec fn after_clear(self, inp: FrameInput) -> StateModel {
        if inp.clear_pressed {
            StateModel {
                cells: grid_of(self.rows, self.cols, false),
                fades: grid_of(self.rows, self.cols, Fade::Zero),
                running: false,
                frame_count: 0,
                ..self
            }
        } else {
            self
        }
    }

    /// Edge-triggered speed keys: speed-up lowers the delay, speed-down
    /// raises it, each clamped to `[MIN_DELAY, MAX_DELAY]`; both may fire in
    /// one frame, speed-up first.
    pub open spec fn after_speed(self, inp: FrameInput) -> StateModel {
        let up = if inp.speed_up_pressed {
            if self.update_delay > MIN_DELAY {
                self.update_delay - 1
            } else {
                MIN_DELAY as int
            }
        } else {
            self.update_delay
        };
        let down = if inp.speed_down_pressed {
            if up < MAX_DELAY {
                up + 1
            } else {
                MAX_DELAY as int
            }
        } else {
            up
        };
        StateModel { update_delay: down, ..self }
    }

    /// Effect of one frame of input handling: pointer paint, pointer erase,
    /// toggle-play, clear, speed keys — exactly in that order.
    pub open spec fn after_input(self, inp: FrameInput) -> StateModel {
        self.after_paint(inp).after_erase(inp).after_toggle(inp).after_clear(inp).after_speed(inp)
    }

    /// Per-frame trail refresh, independent of running: a live cell shows
    /// full intensity, a dead cell's trail takes one decay step.
    pub open spec fn after_fade(self) -> StateModel {
        StateModel {
            fades: Seq::new(
                self.rows as nat,
                |r: int|
                    Seq::new(
                        self.cols as nat,
                        |c: int|
                            if self.cells[r][c] {
                                Fade::Level(0)
                            } else {
                                self.fades[r][c].spec_decay()
                            },
                    ),
            ),
            ..self
        }
    }

    /// Effect of one frame of simulation: trails refresh always; when
    /// running, the pacing counter advances, and once it reaches the delay a
    /// generation is taken (against the pre-frame grid) and the counter
    /// resets.
    pub open spec fn after_update(self) -> StateModel {
        let faded = self.after_fade();
        if self.running {
            if self.frame_count + 1 >= self.update_delay {
                StateModel { cells: stepped(self.cells), frame_count: 0, ..faded }
            } else {
                StateModel { frame_count: self.frame_count + 1, ..faded }
            }
        } else {
            faded
        }
    }
}

/// Set one entry of a grid held as a vector of rows, leaving every other
/// entry and all row lengths unchanged.
fn set_grid_entry<T>(grid: &mut Vec<Vec<T>>, r: usize, c: usize, v: T)
    requires
        r < old(grid)@.len(),
        c < old(grid)@[r as int]@.len(),
    ensures
        final(grid)@.len() == old(grid)@.len(),
        forall|i: int| 0 <= i < old(grid)@.len() && i != r as int ==> final(grid)@[i] == old(
            grid,
        )@[i],
        final(grid)@[r as int]@ == old(grid)@[r as int]@.update(c as int, v),
    no_unwind
{
    grid[r][c] = v;
}

/// The simulation state: cell grid, trail grid, and playback controls.
///
/// Grid dimensions are fixed at construction and never change.
pub struct GameState {
    cells: Vec<Vec<bool>>,
    fade_grid: Vec<Vec<Fade>>,
    running: bool,
    frame_count: i32,
    grid_rows: i32,
    grid_cols: i32,
    update_delay: i32,
}

impl View for GameState {
    type V = StateModel;

    closed spec fn view(&self) -> StateModel {
        StateModel {
            cells: Seq::new(self.cells@.len(), |r: int| self.cells@[r]@),
            fades: Seq::new(self.fade_grid@.len(), |r: int| self.fade_grid@[r]@),
            running: self.running,
            frame_count: self.frame_count as int,
            rows: self.grid_rows as int,
            cols: self.grid_cols as int,
            update_delay: self.update_delay as int,
        }
    }
}

impl GameState {
    /// Every value of this type keeps the model invariant.
    #[verifier::type_invariant]
    spec fn wf(self) -> bool {
        self@.inv()
    }

    /// A fresh board: all cells dead, all trails zero, paused, pacing
    /// counter at zero, fastest pacing delay.
    #[verifier::loop_isolation(false)]
    pub fn new(rows: i32, cols: i32) -> (s: GameState)
        requires
            0 <= rows,
            0 <= cols,
        ensures
            s@ == (StateModel {
                cells: grid_of(rows as int, cols as int, false),
                fades: grid_of(rows as int, cols as int, Fade::Zero),
                running: false,
                frame_count: 0,
                rows: rows as int,
                cols: cols as int,
                update_delay: MIN_DELAY as int,
            }),
    {
        let mut cells: Vec<Vec<bool>> = Vec::new();
        let mut fades: Vec<Vec<Fade>> = Vec::new();
        let mut r: i32 = 0;
        while r < rows
            invariant
                0 <= r <= rows,
                cells@.len() == r as int,
                fades@.len() == r as int,
                forall|i: int| 0 <= i < r as int ==> (#[trigger] cells@[i])@ =~= Seq::new(
                    cols as nat,
                    |c: int| false,
                ),
                forall|i: int| 0 <= i < r as int ==> (#[trigger] fades@[i])@ =~= Seq::new(
                    cols as nat,
                    |c: int| Fade::Zero,
                ),
            decreases rows - r,
        {
            let mut row_cells: Vec<bool> = Vec::new();
            let mut row_fades: Vec<Fade> = Vec::new();
            let mut c: i32 = 0;
            while c < cols
                invariant
                    0 <= c <= cols,
                    row_cells@.len() == c as int,
                    row_fades@.len() == c as int,
                    forall|j: int| 0 <= j < c as int ==> !(#[trigger] row_cells@[j]),
                    forall|j: int| 0 <= j < c as int ==> (#[trigger] row_fades@[j]) == Fade::Zero,
                decreases cols - c,
            {
                row_cells.push(false);
                row_fades.push(Fade::Zero);
                c = c + 1;
            }
            proof {
                assert(row_cells@ =~= Seq::new(cols as nat, |j: int| false));
                assert(row_fades@ =~= Seq::new(cols as nat, |j: int| Fade::Zero));
            }
            cells.push(row_cells);
            fades.push(row_fades);
            r = r + 1;
        }
        let s = GameState {
            cells,
            fade_grid: fades,
            running: false,
            frame_count: 0,
            grid_rows: rows,
            grid_cols: cols,
            update_delay: MIN_DELAY,
        };
        proof {
            assert(s@ =~~= (StateModel {
                cells: grid_of(rows as int, cols as int, false),
                fades: grid_of(rows as int, cols as int, Fade::Zero),
                running: false,
                frame_count: 0,
                rows: rows as int,
                cols: cols as int,
                update_delay: MIN_DELAY as int,
            }));
        }
        s
    }

    /// True exactly when `(r, c)` lies on the grid and holds a live cell.
    fn live(&self, r: i64, c: i64) -> (b: bool)
        ensures
            b == (crate::life::live_at(self@.cells, r as int, c as int) == 1),
    {
        proof {
            use_type_invariant(&*self);
        }
        if r >= 0 && r < self.grid_rows as i64 && c >= 0 && c < self.grid_cols as i64 {
            proof {
                assert(self@.cells[r as int] == self.cells@[r as int]@);
                assert(self@.cells[r as int].len() == self@.cols);
            }
            self.cells[r as usize][c as usize]
        } else {
            false
        }
    }

    /// Count of live cells among the eight neighbours of `(row, col)`,
    /// with positions outside the grid counting as dead.  Any coordinates
    /// are accepted; the count is always in `[0, 8]`.
    pub fn calculate_neighbors(&self, row: i32, col: i32) -> (n: i32)
        ensures
            n == neighbor_count(self@.cells, row as int, col as int),
            0 <= n <= 8,
    {
        let r = row as i64;
        let c = col as i64;
        let mut n: i32 = 0;
        if self.live(r - 1, c - 1) {
            n = n + 1;
        }
        if self.live(r - 1, c) {
            n = n + 1;
        }
        if self.live(r - 1, c + 1) {
            n = n + 1;
        }
        if self.live(r, c - 1) {
            n = n + 1;
        }
        if self.live(r, c + 1) {
            n = n + 1;
        }
        if self.live(r + 1, c - 1) {
            n = n + 1;
        }
        if self.live(r + 1, c) {
            n = n + 1;
        }
        if self.live(r + 1, c + 1) {
            n = n + 1;
        }
        n
    }

    /// Take one synchronous generation: afterwards the cell grid is exactly
    /// [`stepped`] of the grid before the call, so every neighbour count was
    /// taken against the pre-step grid, never against the grid being built.
    /// Trails, playback state and pacing are untouched.
    #[verifier::loop_isolation(false)]
    pub fn step(&mut self)
        ensures
            final(self)@ == (StateModel { cells: stepped(old(self)@.cells), ..old(self)@ }),
    {
        proof {
            use_type_invariant(&*self);
        }
        let rows = self.grid_rows;
        let cols = self.grid_cols;
        let mut new_cells: Vec<Vec<bool>> = Vec::new();
        let mut r: i32 = 0;
        while r < rows
            invariant
                0 <= r <= rows,
                new_cells@.len() == r as int,
                forall|i: int| 0 <= i < r as int ==> (#[trigger] new_cells@[i])@.len()
                    == cols as int,
                forall|i: int, j: int|
                    0 <= i < r as int && 0 <= j < cols as int ==> (#[trigger] new_cells@[i]@[j])
                        == next_cell(self@.cells, i, j),
            decreases rows - r,
        {
            let mut row_vec: Vec<bool> = Vec::new();
            let mut c: i32 = 0;
            while c < cols
                invariant
                    0 <= c <= cols,
                    row_vec@.len() == c as int,
                    forall|j: int| 0 <= j < c as int ==> (#[trigger] row_vec@[j]) == next_cell(
                        self@.cells,
                        r as int,
                        j,
                    ),
                decreases cols - c,
            {
                proof {
                    assert(self@.cells[r as int] == self.cells@[r as int]@);
                    assert(self@.cells[r as int].len() == self@.cols);
                }
                let alive = self.cells[r as usize][c as usize];
                let n = self.calculate_neighbors(r, c);
                let next = if alive {
                    n >= 2 && n <= 3
                } else {
                    n == 3
                };
                row_vec.push(next);
                c = c + 1;
            }
            new_cells.push(row_vec);
            r = r + 1;
        }
        self.cells = new_cells;
        proof {
            assert(self@ =~~= (StateModel { cells: stepped(old(self)@.cells), ..old(self)@ }));
        }
    }

    /// Apply one frame of pointer and key input: paint, erase, toggle-play,
    /// clear, speed keys, in that order.  Pointer positions outside the grid
    /// are silently ignored; the pacing delay stays clamped to
    /// `[MIN_DELAY, MAX_DELAY]`.
    #[verifier::loop_isolation(false)]
    pub fn handle_input(&mut self, input: &FrameInput)
        ensures
            final(self)@ == old(self)@.after_input(*input),
    {
        proof {
            use_type_invariant(&*self);
        }
        // Held primary button: paint the pointed-at cell alive, full trail.
        if input.primary_down {
            let row = input.pointer_row;
            let col = input.pointer_col;
            if row >= 0 && row < self.grid_rows as i64 && col >= 0 && col < self.grid_cols as i64 {
                proof {
                    assert forall|i: int| 0 <= i < self@.rows implies (#[trigger] self.cells@[i])@.len()
                        == self@.cols by {
                        assert(self@.cells[i] == self.cells@[i]@);
                        assert(self@.cells[i].len() == self@.cols);
                    }
                    assert forall|i: int|
                        0 <= i < self@.rows implies (#[trigger] self.fade_grid@[i])@.len()
                        == self@.cols by {
                        assert(self@.fades[i] == self.fade_grid@[i]@);
                        assert(self@.fades[i].len() == self@.cols);
                    }
                }
                set_grid_entry(&mut self.cells, row as usize, col as usize, true);
                set_grid_entry(&mut self.fade_grid, row as usize, col as usize, Fade::Level(0));
            }
        }
        let ghost painted = old(self)@.after_paint(*input);
        proof {
            assert(self@ =~~= painted);
            use_type_invariant(&*self);
        }
        // Held secondary button: erase the cell; its trail decays on its own.
        if input.secondary_down {
            let row = input.pointer_row;
            let col = input.pointer_col;
            if row >= 0 && row < self.grid_rows as i64 && col >= 0 && col < self.grid_cols as i64 {
                proof {
                    assert forall|i: int| 0 <= i < self@.rows implies (#[trigger] self.cells@[i])@.len()
                        == self@.cols by {
                        assert(self@.cells[i] == self.cells@[i]@);
                        assert(self@.cells[i].len() == self@.cols);
                    }
                }
                set_grid_entry(&mut self.cells, row as usize, col as usize, false);
            }
        }
        let ghost erased = painted.after_erase(*input);
        proof {
            assert(self@ =~~= erased);
        }
        // Edge-triggered toggle-play key.
        if input.toggle_play_pressed {
            self.running = !self.running;
        }
        let ghost toggled = erased.after_toggle(*input);
        proof {
            assert(self@ =~~= toggled);
        }
        // Edge-triggered clear key: wipe the board, pause, reset pacing.
        if input.clear_pressed {
            let rows = self.grid_rows;
            let cols = self.grid_cols;
            let mut r: i32 = 0;
            while r < rows
                invariant
                    0 <= r <= rows,
                    self@ == (StateModel {
                        cells: self@.cells,
                        fades: self@.fades,
                        ..toggled
                    }),
                    self@.cells.len() == rows as int,
                    self@.fades.len() == rows as int,
                    forall|i: int| 0 <= i < rows as int ==> (#[trigger] self@.cells[i]).len()
                        == cols as int,
                    forall|i: int| 0 <= i < rows as int ==> (#[trigger] self@.fades[i]).len()
                        == cols as int,
                    forall|i: int, j: int|
                        0 <= i < r as int && 0 <= j < cols as int ==> !(#[trigger] self@.cells[i][j]),
                    forall|i: int, j: int|
                        0 <= i < r as int && 0 <= j < cols as int ==> (#[trigger] self@.fades[i][j])
                            == Fade::Zero,
                decreases rows - r,
            {
                let mut c: i32 = 0;
                while c < cols
                    invariant
                        0 <= r < rows,
                        0 <= c <= cols,
                        self@ == (StateModel {
                            cells: self@.cells,
                            fades: self@.fades,
                            ..toggled
                        }),
                        self@.cells.len() == rows as int,
                        self@.fades.len() == rows as int,
                        forall|i: int| 0 <= i < rows as int ==> (#[trigger] self@.cells[i]).len()
                            == cols as int,
                        forall|i: int| 0 <= i < rows as int ==> (#[trigger] self@.fades[i]).len()
                            == cols as int,
                        forall|i: int, j: int|
                            0 <= i < r as int && 0 <= j < cols as int ==> !(#[trigger] self@.cells[i][j]),
                        forall|i: int, j: int|
                            0 <= i < r as int && 0 <= j < cols as int ==> (#[trigger] self@.fades[i][j])
                                == Fade::Zero,
                        forall|j: int| 0 <= j < c as int ==> !(#[trigger] self@.cells[r as int][j]),
                        forall|j: int| 0 <= j < c as int ==> (#[trigger] self@.fades[r as int][j])
                            == Fade::Zero,
                    decreases cols - c,
                {
                    let ghost prev = self@;
                    proof {
                        use_type_invariant(&*self);
                        assert forall|i: int|
                            0 <= i < self@.rows implies (#[trigger] self.cells@[i])@.len()
                            == self@.cols by {
                            assert(self@.cells[i] == self.cells@[i]@);
                            assert(self@.cells[i].len() == self@.cols);
                        }
                        assert forall|i: int|
                            0 <= i < self@.rows implies (#[trigger] self.fade_grid@[i])@.len()
                            == self@.cols by {
                            assert(self@.fades[i] == self.fade_grid@[i]@);
                            assert(self@.fades[i].len() == self@.cols);
                        }
                    }
                    set_grid_entry(&mut self.cells, r as usize, c as usize, false);
                    set_grid_entry(&mut self.fade_grid, r as usize, c as usize, Fade::Zero);
                    proof {
                        assert(self@ =~~= prev.set_cell(r as int, c as int, false).set_fade(
                            r as int,
                            c as int,
                            Fade::Zero,
                        ));
                    }
                    c = c + 1;
                }
                r = r + 1;
            }
            self.running = false;
            self.frame_count = 0;
        }
        let ghost cleared = toggled.after_clear(*input);
        proof {
            assert(self@ =~~= cleared);
        }
        // Edge-triggered speed keys, each clamped.
        if input.speed_up_pressed {
            if self.update_delay > MIN_DELAY {
                self.update_delay = self.update_delay - 1;
            } else {
                self.update_delay = MIN_DELAY;
            }
        }
        if input.speed_down_pressed {
            if self.update_delay < MAX_DELAY {
                self.update_delay = self.update_delay + 1;
            } else {
                self.update_delay = MAX_DELAY;
            }
        }
        proof {
            assert(self@ =~~= cleared.after_speed(*input));
        }
    }

    /// One frame of simulation.  The trails refresh first (every frame,
    /// paused or not, so edits stay visible while paused): a live cell shows
    /// full intensity, a dead cell's trail takes one decay step.  Then, only
    /// when running, the pacing counter advances, and once it reaches the
    /// pacing delay a generation is taken and the counter resets.
    #[verifier::loop_isolation(false)]
    pub fn update(&mut self)
        ensures
            final(self)@ == old(self)@.after_update(),
    {
        proof {
            use_type_invariant(&*self);
        }
        let rows = self.grid_rows;
        let cols = self.grid_cols;
        let mut new_fades: Vec<Vec<Fade>> = Vec::new();
        let mut r: i32 = 0;
        while r < rows
            invariant
                0 <= r <= rows,
                new_fades@.len() == r as int,
                forall|i: int| 0 <= i < r as int ==> (#[trigger] new_fades@[i])@.len()
                    == cols as int,
                forall|i: int, j: int|
                    0 <= i < r as int && 0 <= j < cols as int ==> (#[trigger] new_fades@[i]@[j])
                        == (if self@.cells[i][j] {
                        Fade::Level(0)
                    } else {
                        self@.fades[i][j].spec_decay()
                    }),
            decreases rows - r,
        {
            let mut row_vec: Vec<Fade> = Vec::new();
            let mut c: i32 = 0;
            while c < cols
                invariant
                    0 <= c <= cols,
                    row_vec@.len() == c as int,
                    forall|j: int| 0 <= j < c as int ==> (#[trigger] row_vec@[j]) == (if self@.cells[r as int][j] {
                        Fade::Level(0)
                    } else {
                        self@.fades[r as int][j].spec_decay()
                    }),
                decreases cols - c,
            {
                proof {
                    assert(self@.cells[r as int] == self.cells@[r as int]@);
                    assert(self@.cells[r as int].len() == self@.cols);
                    assert(self@.fades[r as int] == self.fade_grid@[r as int]@);
                    assert(self@.fades[r as int].len() == self@.cols);
                }
                let f = if self.cells[r as usize][c as usize] {
                    Fade::Level(0)
                } else {
                    self.fade_grid[r as usize][c as usize].decay()
                };
                row_vec.push(f);
                c = c + 1;
            }
            new_fades.push(row_vec);
            r = r + 1;
        }
        self.fade_grid = new_fades;
        let ghost faded = old(self)@.after_fade();
        proof {
            assert(self@ =~~= faded);
        }
        if self.running {
            if self.frame_count + 1 >= self.update_delay {
                self.frame_count = 0;
                self.step();
            } else {
                self.frame_count = self.frame_count + 1;
            }
        }
        proof {
            assert(self@ =~~= old(self)@.after_update());
        }
    }

    /// Number of rows of the grid.
    pub fn rows(&self) -> (n: i32)
        ensures
            n == self@.rows,
    {
        self.grid_rows
    }

    /// Number of columns of the grid.
    pub fn cols(&self) -> (n: i32)
        ensures
            n == self@.cols,
    {
        self.grid_cols
    }

    /// Whether the simulation is playing (as opposed to paused).
    pub fn is_running(&self) -> (b: bool)
        ensures
            b == self@.running,
    {
        self.running
    }

    /// Frames elapsed since the last generation was taken.
    pub fn frame_count(&self) -> (n: i32)
        ensures
            n == self@.frame_count,
    {
        self.frame_count
    }

    /// Frames required between generations; always in
    /// `[MIN_DELAY, MAX_DELAY]`.
    pub fn update_delay(&self) -> (d: i32)
        ensures
            d == self@.update_delay,
            MIN_DELAY <= d <= MAX_DELAY,
    {
        proof {
            use_type_invariant(&*self);
        }
        self.update_delay
    }

    /// Live/dead state of cell `(row, col)`, or `None` outside the grid.
    pub fn get_cell(&self, row: i32, col: i32) -> (r: Option<bool>)
        ensures
            r == (if self@.in_bounds(row as int, col as int) {
                Some(self@.cells[row as int][col as int])
            } else {
                None::<bool>
            }),
    {
        proof {
            use_type_invariant(&*self);
        }
        if row >= 0 && row < self.grid_rows && col >= 0 && col < self.grid_cols {
            proof {
                assert(self@.cells[row as int] == self.cells@[row as int]@);
                assert(self@.cells[row as int].len() == self@.cols);
            }
            Some(self.cells[row as usize][col as usize])
        } else {
            None
        }
    }

    /// Trail intensity of cell `(row, col)`, or `None` outside the grid.
    pub fn get_fade(&self, row: i32, col: i32) -> (r: Option<Fade>)
        ensures
            r == (if self@.in_bounds(row as int, col as int) {
                Some(self@.fades[row as int][col as int])
            } else {
                None::<Fade>
            }),
    {
        proof {
            use_type_invariant(&*self);
        }
        if row >= 0 && row < self.grid_rows && col >= 0 && col < self.grid_cols {
            proof {
                assert(self@.fades[row as int] == self.fade_grid@[row as int]@);
                assert(self@.fades[row as int].len() == self@.cols);
            }
            Some(self.fade_grid[row as usize][col as usize])
        } else {
            None
        }
    }
}

} // verus!
