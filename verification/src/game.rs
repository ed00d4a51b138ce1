//! A run of the game: the board, the snake, the two timers and the state
//! that decides what a tick does.

use crate::block::BlockType;
use crate::grid::{fruit_cell, vacant_count, Grid, GridView};
use crate::random::next_usize;
use crate::snake::{Snake, SnakeView, SnekError};
use crate::utils::Direction;
use vstd::prelude::*;
use vstd::string::StringExecFns;

verus! {

/// The time between two moves of the snake, in microseconds.
pub const MOVEMENT_INTERVAL: u64 = 250_000;

/// The time between two fruits, in microseconds.
pub const SPAWN_INTERVAL: u64 = 5_000_000;

/// Where a run stands.
#[derive(Debug, Clone, Copy, PartialEq, Eq, Structural)]
pub enum State {
    /// Waiting for the first direction.
    Start,
    /// The snake moves and fruits arrive.
    InProgress,
    /// A move has failed; the failure is still to be reported.
    Error(SnekError),
    /// The run is over.
    End,
}

/// What one tick did.
#[derive(Debug, Clone, Copy, PartialEq, Eq, Structural)]
pub struct Tick {
    /// The cell on which a fruit arrived.
    pub fruit: Option<usize>,
    /// Whether the snake moved.
    pub moved: bool,
    /// The failure that ended the run, handed out once, on the tick after
    /// the failed move.
    pub over: Option<SnekError>,
}

/// A run of the game. Times are in microseconds.
#[derive(Debug, Clone)]
pub struct Game {
    grid: Grid,
    snake: Snake,
    state: State,
    movement_time: u64,
    spawn_time: u64,
}

/// What a run is.
pub ghost struct GameView {
    pub grid: GridView,
    pub snake: SnakeView,
    pub state: State,
    /// The time since the last move was due.
    pub movement_time: u64,
    /// The time since the last fruit was due.
    pub spawn_time: u64,
}

/// A timer's reading `elapsed` later: the sum, held at the largest `u64`.
pub open spec fn accumulated(time: u64, elapsed: u64) -> u64 {
    if time + elapsed > u64::MAX {
        u64::MAX
    } else {
        (time + elapsed) as u64
    }
}

impl GameView {
    /// The snake sits properly on the board.
    pub open spec fn wf(self) -> bool {
        self.snake.wf(self.grid)
    }

    /// Whether a fruit is due on a tick `elapsed` after the last.
    pub open spec fn spawn_due(self, elapsed: u64) -> bool {
        self.state == State::InProgress && accumulated(self.spawn_time, elapsed) >= SPAWN_INTERVAL
    }

    /// Whether a move is due on a tick `elapsed` after the last.
    pub open spec fn move_due(self, elapsed: u64) -> bool {
        self.state == State::InProgress && accumulated(self.movement_time, elapsed)
            >= MOVEMENT_INTERVAL
    }

    /// The board that a due move finds: with the fruit of this tick on it,
    /// where one was due.
    pub open spec fn fruited(self, elapsed: u64, fruit: Option<usize>) -> GridView {
        if self.spawn_due(elapsed) {
            self.grid.with_fruit(fruit)
        } else {
            self.grid
        }
    }

    /// Whether a tick `elapsed` after the last moves the snake.
    pub open spec fn moves(self, elapsed: u64, fruit: Option<usize>) -> bool {
        self.move_due(elapsed) && self.snake.move_result(self.fruited(elapsed, fruit)) is Ok
    }

    /// The run after a tick `elapsed` after the last, on which a due fruit
    /// arrived on `fruit`.
    ///
    /// Both timers run in every state, and a timer that fires starts again
    /// from zero. A waiting run goes in progress once the snake has a
    /// direction. A run in progress first takes the fruit, where one is
    /// due, then makes the move, where one is due; a failed move leaves
    /// the snake where it was and ends the run. A run that has ended
    /// changes no more.
    pub open spec fn ticked(self, elapsed: u64, fruit: Option<usize>) -> GameView {
        let movement = accumulated(self.movement_time, elapsed);
        let spawn = accumulated(self.spawn_time, elapsed);
        match self.state {
            State::Start => GameView {
                grid: self.grid,
                snake: self.snake,
                state: if self.snake.direction is Some {
                    State::InProgress
                } else {
                    State::Start
                },
                movement_time: movement,
                spawn_time: spawn,
            },
            State::InProgress => {
                let grid = self.fruited(elapsed, fruit);
                let spawn = if self.spawn_due(elapsed) {
                    0
                } else {
                    spawn
                };
                if self.move_due(elapsed) {
                    match self.snake.move_result(grid) {
                        Ok(()) => GameView {
                            grid: self.snake.moved_board(grid, self.snake.target(grid).unwrap()),
                            snake: self.snake.moved(grid, self.snake.target(grid).unwrap()),
                            state: State::InProgress,
                            movement_time: 0,
                            spawn_time: spawn,
                        },
                        Err(e) => GameView {
                            grid,
                            snake: self.snake,
                            state: State::Error(e),
                            movement_time: 0,
                            spawn_time: spawn,
                        },
                    }
                } else {
                    GameView {
                        grid,
                        snake: self.snake,
                        state: State::InProgress,
                        movement_time: movement,
                        spawn_time: spawn,
                    }
                }
            },
            State::Error(_) | State::End => GameView {
                grid: self.grid,
                snake: self.snake,
                state: State::End,
                movement_time: movement,
                spawn_time: spawn,
            },
        }
    }

    /// The failure that a tick hands out: the one that the run holds.
    pub open spec fn reported(self) -> Option<SnekError> {
        match self.state {
            State::Error(e) => Some(e),
            _ => None,
        }
    }

    /// Once a move has failed, no tick changes the board or the snake any
    /// more, and the run is over from the next tick on.
    pub proof fn ended_is_final(self, elapsed: u64, fruit: Option<usize>)
        requires
            self.state is Error || self.state is End,
        ensures
            self.ticked(elapsed, fruit).state == State::End,
            self.ticked(elapsed, fruit).grid == self.grid,
            self.ticked(elapsed, fruit).snake == self.snake,
    {
    }

    /// A run leaves the start exactly when the snake has a direction, and a
    /// run in progress ends exactly when a due move fails.
    pub proof fn transitions(self, elapsed: u64, fruit: Option<usize>)
        ensures
            self.state is Start ==> (self.ticked(elapsed, fruit).state == State::InProgress
                <==> self.snake.direction is Some),
            self.state is Start ==> self.ticked(elapsed, fruit).state is Start || self.ticked(
                elapsed,
                fruit,
            ).state is InProgress,
            self.state is InProgress ==> (self.ticked(elapsed, fruit).state is Error <==> self.move_due(
                elapsed,
            ) && self.snake.move_result(self.fruited(elapsed, fruit)) is Err),
            self.state is InProgress ==> self.ticked(elapsed, fruit).state is Error || self.ticked(
                elapsed,
                fruit,
            ).state is InProgress,
    {
    }
}

impl View for Game {
    type V = GameView;

    closed spec fn view(&self) -> GameView {
        GameView {
            grid: self.grid@,
            snake: self.snake@,
            state: self.state,
            movement_time: self.movement_time,
            spawn_time: self.spawn_time,
        }
    }
}

/// The sum of a timer's reading and the time that has passed, held at
/// the largest `u64`.
fn accumulate(time: u64, elapsed: u64) -> (r: u64)
    ensures
        r == accumulated(time, elapsed),
{
    if time > u64::MAX - elapsed {
        u64::MAX
    } else {
        time + elapsed
    }
}

impl Game {
    /// The snake sits properly on the board.
    pub open spec fn wf(&self) -> bool {
        self@.wf()
    }

    /// A run that waits for the first direction, with both timers at zero.
    pub fn new(grid: Grid, snake: Snake) -> (game: Game)
        requires
            snake.wf(&grid),
        ensures
            game.wf(),
            game@ == (GameView {
                grid: grid@,
                snake: snake@,
                state: State::Start,
                movement_time: 0,
                spawn_time: 0,
            }),
    {
        Game { grid, snake, state: State::Start, movement_time: 0, spawn_time: 0 }
    }

    /// A run on a new board of `x` columns and `y` rows, with the snake's
    /// head on a cell picked at random.
    pub fn start(x: usize, y: usize) -> (game: Game)
        requires
            x >= 1,
            y >= 1,
            x * y <= usize::MAX,
        ensures
            game.wf(),
            game@.state == State::Start,
            game@.movement_time == 0,
            game@.spawn_time == 0,
            game@.snake.head < x * y,
            game@.snake.body == Seq::<usize>::empty(),
            game@.snake.direction is None,
            game@.grid == (GridView {
                width: x as nat,
                height: y as nat,
                cells: Seq::new((x * y) as nat, |i: int| BlockType::Vacant),
            }).with(game@.snake.head, BlockType::OccupiedSnake),
    {
        let mut grid = Grid::new(x, y);
        let snake = Snake::new(&mut grid);
        Game::new(grid, snake)
    }

    /// The board.
    pub fn grid(&self) -> (grid: &Grid)
        ensures
            grid@ == self@.grid,
    {
        &self.grid
    }

    /// The snake.
    pub fn snake(&self) -> (snake: &Snake)
        ensures
            snake@ == self@.snake,
    {
        &self.snake
    }

    /// Where the run stands.
    pub fn state(&self) -> (state: State)
        ensures
            state == self@.state,
    {
        self.state
    }

    /// The time since the last move was due, in microseconds.
    pub fn movement_time(&self) -> (time: u64)
        ensures
            time == self@.movement_time,
    {
        self.movement_time
    }

    /// The time since the last fruit was due, in microseconds.
    pub fn spawn_time(&self) -> (time: u64)
        ensures
            time == self@.spawn_time,
    {
        self.spawn_time
    }

    /// Asks the snake to turn towards `direction`, in any state of the run.
    /// A turn back on itself is refused and changes nothing.
    pub fn turn(&mut self, direction: Direction) -> (r: Result<(), SnekError>)
        requires
            old(self).wf(),
        ensures
            final(self).wf(),
            r == old(self)@.snake.turn_result(direction),
            final(self)@ == (GameView {
                grid: old(self)@.grid,
                snake: if r is Ok {
                    old(self)@.snake.turned(direction)
                } else {
                    old(self)@.snake
                },
                state: old(self)@.state,
                movement_time: old(self)@.movement_time,
                spawn_time: old(self)@.spawn_time,
            }),
    {
        proof {
            self.snake@.turn_keeps_wf(self.grid@, direction);
        }
        self.snake.set_direction(direction)
    }

    /// Whether a tick `elapsed` after the last is to bring a fruit.
    pub fn spawn_due(&self, elapsed: u64) -> (due: bool)
        ensures
            due == self@.spawn_due(elapsed),
    {
        self.state == State::InProgress && accumulate(self.spawn_time, elapsed) >= SPAWN_INTERVAL
    }

    /// Advances the run by `elapsed`, with `r` as the random number that
    /// picks the cell of a fruit where one is due.
    pub fn tick_with(&mut self, elapsed: u64, r: usize) -> (tick: Tick)
        requires
            old(self).wf(),
        ensures
            final(self).wf(),
            old(self)@.spawn_due(elapsed) ==> fruit_cell(old(self)@.grid.cells, r, tick.fruit),
            !old(self)@.spawn_due(elapsed) ==> tick.fruit is None,
            tick.moved == old(self)@.moves(elapsed, tick.fruit),
            tick.over == old(self)@.reported(),
            final(self)@ == old(self)@.ticked(elapsed, tick.fruit),
    {
        let mut tick = Tick { fruit: None, moved: false, over: None };
        self.movement_time = accumulate(self.movement_time, elapsed);
        self.spawn_time = accumulate(self.spawn_time, elapsed);
        match self.state {
            State::Start => {
                if self.snake.has_direction() {
                    self.state = State::InProgress;
                }
            },
            State::InProgress => {
                if self.spawn_time >= SPAWN_INTERVAL {
                    tick.fruit = self.grid.spawn_fruit_at(r);
                    proof {
                        if let Some(p) = tick.fruit {
                            old(self)@.snake.fruit_keeps_wf(old(self)@.grid, p);
                        }
                    }
                    self.spawn_time = 0;
                }
                if self.movement_time >= MOVEMENT_INTERVAL {
                    match self.snake.move_forward(&mut self.grid) {
                        Ok(()) => {
                            tick.moved = true;
                        },
                        Err(err) => {
                            self.state = State::Error(err);
                        },
                    }
                    self.movement_time = 0;
                }
            },
            State::Error(err) => {
                tick.over = Some(err);
                self.state = State::End;
            },
            State::End => {},
        }
        tick
    }

    /// Advances the run by `elapsed`. A fruit that is due arrives on a
    /// vacant cell picked at random.
    pub fn tick(&mut self, elapsed: u64) -> (tick: Tick)
        requires
            old(self).wf(),
        ensures
            final(self).wf(),
            match tick.fruit {
                Some(p) => old(self)@.spawn_due(elapsed) && p < old(self)@.grid.cells.len()
                    && old(self)@.grid.cells[p as int] == BlockType::Vacant,
                None => old(self)@.spawn_due(elapsed) ==> vacant_count(old(self)@.grid.cells) == 0,
            },
            tick.moved == old(self)@.moves(elapsed, tick.fruit),
            tick.over == old(self)@.reported(),
            final(self)@ == old(self)@.ticked(elapsed, tick.fruit),
    {
        let r: usize = if self.spawn_due(elapsed) {
            let mut rng = rand::thread_rng();
            next_usize(&mut rng)
        } else {
            0
        };
        self.tick_with(elapsed, r)
    }
}

/// The line that reports `error` under the heading `title`: the title, a
/// colon and a space, the failure in words, and " - over!" behind it
/// where the failure ended the run.
pub fn status_line(title: &str, error: &SnekError, over: bool) -> (line: String)
    ensures
        line@ == title@ + ": "@ + error.spec_message()@ + if over {
            " - over!"@
        } else {
            Seq::<char>::empty()
        },
{
    let mut line = String::from_str(title);
    line.append(": ");
    let text = error.message();
    line.append(text.as_str());
    if over {
        line.append(" - over!");
    }
    line
}

} // verus!
