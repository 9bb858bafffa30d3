//! The decisions of the interactive loop.
//!
//! The caller owns the terminal and the clock. Once per round of its loop it
//! waits for an event, at most for the poll timeout, and hands what arrived
//! to `Session::advance`, together with the reading of a clock in
//! milliseconds. `advance` applies the round to the grid and answers with
//! what the caller has to do next: go on, draw the grid, or leave the loop.

use vstd::prelude::*;
use crate::grid::{Cell, Grid, empty_grid, lemma_empty_grid, sand_count, well_formed, with_cell};
use crate::physics::{lemma_step_well_formed, sand_fall, step};
use crate::screen::{cell_at, cell_under};

verus! {

/// How a loop behaves.
#[derive(Clone, Copy, Debug, PartialEq, Eq, Structural)]
pub struct Options {
    /// Click and drag: pressing a button on the canvas starts painting, and
    /// sand is placed under the pointer in every round until a button is
    /// released; the key `r` empties the grid. Without it a press on the
    /// canvas places one grain, and nothing else places any.
    pub continuous_paint: bool,
    /// Milliseconds between two timed passes of the gravity rule.
    pub tick_interval_ms: u64,
    /// Whether every round begins with a pass of the gravity rule, besides
    /// the timed passes.
    pub physics_every_frame: bool,
}

/// Whether the loop goes on.
#[derive(Clone, Copy, Debug, PartialEq, Eq, Structural)]
pub enum Phase {
    Running,
    Terminating,
}

/// What a pointer report says of the buttons.
#[derive(Clone, Copy, Debug, PartialEq, Eq, Structural)]
pub enum Button {
    /// A button went down.
    Pressed,
    /// A button went up.
    Released,
    /// Neither: the pointer moved, was dragged, or the wheel turned.
    Unchanged,
}

/// What arrived in one round of the loop.
#[derive(Clone, Copy, Debug, PartialEq, Eq, Structural)]
pub enum Input {
    /// No event before the poll timed out, or one that the loop has no use for.
    Nothing,
    /// A key that stands for a character.
    Key(char),
    /// A pointer report with the screen position of the pointer.
    Pointer { button: Button, column: u16, row: u16 },
}

/// What the caller has to do after a round.
#[derive(Clone, Copy, Debug, PartialEq, Eq, Structural)]
pub enum Outcome {
    /// Nothing to draw; go on with the next round.
    Continue,
    /// A timed pass was made: draw the grid, then go on.
    Redraw,
    /// Leave the loop.
    Quit,
}

/// The state of a loop as a mathematical value.
pub struct State {
    pub grid: Seq<Seq<Cell>>,
    pub options: Options,
    pub phase: Phase,
    /// Whether sand is being painted under the pointer.
    pub painting: bool,
    /// The last known screen position `(column, row)` of the pointer.
    pub pointer: (u16, u16),
    /// The clock reading at the last timed pass.
    pub last_update_ms: u64,
}

/// The state in which a loop starts: an empty grid, nothing painted, the
/// pointer in the top left corner, and the timer started at `now_ms`.
pub open spec fn initial(options: Options, now_ms: u64) -> State {
    State {
        grid: empty_grid(),
        options,
        phase: Phase::Running,
        painting: false,
        pointer: (0, 0),
        last_update_ms: now_ms,
    }
}

/// `g` with sand at the cell drawn at a screen position; `g` itself when the
/// position lies outside the canvas.
pub open spec fn stamped(g: Seq<Seq<Cell>>, column: u16, row: u16) -> Seq<Seq<Cell>> {
    match cell_under(column as int, row as int) {
        Some((r, c)) => with_cell(g, r, c, Cell::Sand),
        None => g,
    }
}

/// The state after the event of a round. The key `q` ends the loop. With
/// `continuous_paint`, the key `r` empties the grid, every pointer report
/// moves the pointer, a press on the canvas starts painting and a release
/// anywhere ends it. Without it, a press on the canvas places one grain
/// under the pointer, and nothing else has an effect.
pub open spec fn after_input(s: State, input: Input) -> State {
    match input {
        Input::Nothing => s,
        Input::Key(key) => {
            if key == 'q' {
                State { phase: Phase::Terminating, ..s }
            } else if key == 'r' && s.options.continuous_paint {
                State { grid: empty_grid(), ..s }
            } else {
                s
            }
        },
        Input::Pointer { button, column, row } => {
            if s.options.continuous_paint {
                State {
                    pointer: (column, row),
                    painting: match button {
                        Button::Pressed => s.painting || cell_under(column as int, row as int)
                            is Some,
                        Button::Released => false,
                        Button::Unchanged => s.painting,
                    },
                    ..s
                }
            } else if button == Button::Pressed {
                State { grid: stamped(s.grid, column, row), ..s }
            } else {
                s
            }
        },
    }
}

/// The state after the painting of a round: while painting is on in a loop
/// with `continuous_paint`, sand is placed under the pointer.
pub open spec fn after_paint(s: State) -> State {
    if s.painting && s.options.continuous_paint {
        State { grid: stamped(s.grid, s.pointer.0, s.pointer.1), ..s }
    } else {
        s
    }
}

/// Whether a timed pass is due: the tick interval has gone by since the last
/// one. A clock that reads less than at the last timed pass counts as no
/// time gone by.
pub open spec fn tick_due(s: State, now_ms: u64) -> bool {
    now_ms >= s.last_update_ms && now_ms - s.last_update_ms >= s.options.tick_interval_ms
}

/// The state after the timer check of a round: when a timed pass is due, one
/// pass is made and the timer starts again at `now_ms`.
pub open spec fn after_tick(s: State, now_ms: u64) -> State {
    if tick_due(s, now_ms) {
        State { grid: step(s.grid), last_update_ms: now_ms, ..s }
    } else {
        s
    }
}

/// The state at the beginning of a round, after the pass that
/// `physics_every_frame` asks for.
pub open spec fn after_frame_pass(s: State) -> State {
    if s.options.physics_every_frame {
        State { grid: step(s.grid), ..s }
    } else {
        s
    }
}

/// The state after one round. A loop that is terminating stays as it is.
/// Otherwise the round makes its pass if every round has one, takes in the
/// event, and, unless the event ends the loop, paints and checks the timer.
pub open spec fn next(s: State, input: Input, now_ms: u64) -> State {
    if s.phase == Phase::Terminating {
        s
    } else {
        let heard = after_input(after_frame_pass(s), input);
        if heard.phase == Phase::Terminating {
            heard
        } else {
            after_tick(after_paint(heard), now_ms)
        }
    }
}

/// What the caller has to do after the round that leads from `s` to
/// `next(s, input, now_ms)`.
pub open spec fn outcome(s: State, input: Input, now_ms: u64) -> Outcome {
    if s.phase == Phase::Terminating {
        Outcome::Quit
    } else {
        let heard = after_input(after_frame_pass(s), input);
        if heard.phase == Phase::Terminating {
            Outcome::Quit
        } else if tick_due(after_paint(heard), now_ms) {
            Outcome::Redraw
        } else {
            Outcome::Continue
        }
    }
}

/// A pointer report from outside the canvas places no sand, whatever it says
/// of the buttons: the event and the painting of its round leave the grid as
/// it was. So does the whole round where it makes no pass.
pub proof fn lemma_pointer_outside_canvas(
    s: State,
    button: Button,
    column: u16,
    row: u16,
    now_ms: u64,
)
    requires
        cell_under(column as int, row as int) is None,
    ensures
        after_paint(after_input(s, Input::Pointer { button, column, row })).grid == s.grid,
        !s.options.physics_every_frame && !tick_due(s, now_ms) ==> next(
            s,
            Input::Pointer { button, column, row },
            now_ms,
        ).grid == s.grid,
{
}

/// The key `r` in a loop with `continuous_paint` leaves an empty grid of the
/// same dimensions, and the loop goes on as before.
pub proof fn lemma_reset(s: State)
    requires
        s.options.continuous_paint,
    ensures
        after_input(s, Input::Key('r')) == (State { grid: empty_grid(), ..s }),
        well_formed(empty_grid()),
        sand_count(empty_grid()) == 0,
{
    lemma_empty_grid();
}

/// The key `q` ends the loop, and a loop that has ended stays as it is.
pub proof fn lemma_quit(s: State, input: Input, now_ms: u64)
    ensures
        next(s, Input::Key('q'), now_ms).phase == Phase::Terminating,
        outcome(s, Input::Key('q'), now_ms) == Outcome::Quit,
        s.phase == Phase::Terminating ==> next(s, input, now_ms) == s && outcome(s, input, now_ms)
            == Outcome::Quit,
        outcome(s, input, now_ms) == Outcome::Quit <==> next(s, input, now_ms).phase
            == Phase::Terminating,
{
}

/// A round keeps the dimensions of the grid.
pub proof fn lemma_next_well_formed(s: State, input: Input, now_ms: u64)
    requires
        well_formed(s.grid),
    ensures
        well_formed(next(s, input, now_ms).grid),
{
    lemma_empty_grid();
    lemma_step_well_formed(s.grid);
    let painted = after_paint(after_input(after_frame_pass(s), input));
    lemma_step_well_formed(painted.grid);
}

impl Options {
    /// Click and drag with reset, a timed pass every 30 milliseconds, and a
    /// pass at the beginning of every round.
    pub fn standard() -> (options: Options)
        ensures
            options == (Options {
                continuous_paint: true,
                tick_interval_ms: 30,
                physics_every_frame: true,
            }),
    {
        Options { continuous_paint: true, tick_interval_ms: 30, physics_every_frame: true }
    }

    /// How long, in milliseconds, a round may wait for an event. Where every
    /// round makes a pass, the wait sets the pace of the simulation and is a
    /// full tick interval; where only the timer does, the wait is one
    /// millisecond.
    pub fn poll_timeout_ms(&self) -> (ms: u64)
        ensures
            ms == if self.physics_every_frame {
                self.tick_interval_ms
            } else {
                1
            },
    {
        if self.physics_every_frame {
            self.tick_interval_ms
        } else {
            1
        }
    }
}

/// A loop in progress: the grid and what the loop remembers between rounds.
#[derive(Clone, Copy, Debug)]
pub struct Session {
    grid: Grid,
    options: Options,
    phase: Phase,
    painting: bool,
    pointer: (u16, u16),
    last_update_ms: u64,
}

impl Session {
    /// The state of the loop.
    pub closed spec fn view(&self) -> State {
        State {
            grid: self.grid@,
            options: self.options,
            phase: self.phase,
            painting: self.painting,
            pointer: self.pointer,
            last_update_ms: self.last_update_ms,
        }
    }

    /// Starts a loop at the clock reading `now_ms`.
    pub fn new(options: Options, now_ms: u64) -> (session: Session)
        ensures
            session@ == initial(options, now_ms),
    {
        Session {
            grid: Grid::new(),
            options,
            phase: Phase::Running,
            painting: false,
            pointer: (0, 0),
            last_update_ms: now_ms,
        }
    }

    /// The grid.
    pub fn grid(&self) -> (grid: &Grid)
        ensures
            grid@ == self@.grid,
    {
        &self.grid
    }

    /// The options that the loop was started with.
    pub fn options(&self) -> (options: Options)
        ensures
            options == self@.options,
    {
        self.options
    }

    /// Whether the loop goes on.
    pub fn is_running(&self) -> (running: bool)
        ensures
            running == (self@.phase == Phase::Running),
    {
        match self.phase {
            Phase::Running => true,
            Phase::Terminating => false,
        }
    }

    /// Whether sand is being painted under the pointer.
    pub fn is_painting(&self) -> (painting: bool)
        ensures
            painting == self@.painting,
    {
        self.painting
    }

    /// Places sand at the cell drawn at a screen position, if there is one.
    fn stamp(&mut self, column: u16, row: u16)
        ensures
            final(self)@ == (State { grid: stamped(old(self)@.grid, column, row), ..old(self)@ }),
    {
        match cell_at(column, row) {
            Some((r, c)) => {
                self.grid.put(r, c, Cell::Sand);
            },
            None => {},
        }
    }

    /// Takes in the event of a round.
    fn hear(&mut self, input: Input)
        ensures
            final(self)@ == after_input(old(self)@, input),
    {
        match input {
            Input::Nothing => {},
            Input::Key(key) => {
                if key == 'q' {
                    self.phase = Phase::Terminating;
                } else if key == 'r' && self.options.continuous_paint {
                    self.grid.clear();
                }
            },
            Input::Pointer { button, column, row } => {
                if self.options.continuous_paint {
                    self.pointer = (column, row);
                    match button {
                        Button::Pressed => {
                            if cell_at(column, row).is_some() {
                                self.painting = true;
                            }
                        },
                        Button::Released => {
                            self.painting = false;
                        },
                        Button::Unchanged => {},
                    }
                } else {
                    match button {
                        Button::Pressed => {
                            self.stamp(column, row);
                        },
                        _ => {},
                    }
                }
            },
        }
    }

    /// Paints under the pointer while painting is on.
    fn paint(&mut self)
        ensures
            final(self)@ == after_paint(old(self)@),
    {
        if self.painting && self.options.continuous_paint {
            let (column, row) = self.pointer;
            self.stamp(column, row);
        }
    }

    /// Makes the timed pass if it is due and says whether it was.
    fn tick(&mut self, now_ms: u64) -> (due: bool)
        ensures
            due == tick_due(old(self)@, now_ms),
            final(self)@ == after_tick(old(self)@, now_ms),
    {
        if now_ms >= self.last_update_ms && now_ms - self.last_update_ms
            >= self.options.tick_interval_ms {
            self.last_update_ms = now_ms;
            sand_fall(&mut self.grid);
            true
        } else {
            false
        }
    }

    /// Plays one round of the loop: `input` is what arrived in this round and
    /// `now_ms` the clock reading after the wait for it.
    pub fn advance(&mut self, input: Input, now_ms: u64) -> (answer: Outcome)
        ensures
            final(self)@ == next(old(self)@, input, now_ms),
            answer == outcome(old(self)@, input, now_ms),
    {
        if !self.is_running() {
            return Outcome::Quit;
        }
        if self.options.physics_every_frame {
            sand_fall(&mut self.grid);
        }
        self.hear(input);
        if !self.is_running() {
            return Outcome::Quit;
        }
        self.paint();
        if self.tick(now_ms) {
            Outcome::Redraw
        } else {
            Outcome::Continue
        }
    }
}

} // verus!
