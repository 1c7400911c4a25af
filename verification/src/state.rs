//! The game as a mathematical state machine: what a state is, when it is
//! valid, and what a step, a key press and a tick make of it.

use vstd::prelude::*;
use crate::snake::{chosen, neighbour, stepped, Direction};

verus! {

/// Time between two steps of the snake when no key is pressed, in microseconds.
pub const MOVING_PERIOD: u64 = 100_000;

/// Time a finished game stays on show before a new one starts, in microseconds.
pub const RESTART_TIME: u64 = 1_000_000;

/// The narrowest board: the border, and room for the first food.
pub const MIN_WIDTH: i32 = 8;

/// The lowest board: the border, and room for the first food.
pub const MIN_HEIGHT: i32 = 6;

/// Where the head of a new snake is.
pub const START_X: i32 = 2;

pub const START_Y: i32 = 2;

/// Where the food of a new game is.
pub const FIRST_FOOD_X: i32 = 6;

pub const FIRST_FOOD_Y: i32 = 4;

/// The two delays of a game, in microseconds.
#[derive(Clone, Copy, Debug, PartialEq, Eq, Structural)]
pub struct Config {
    /// Time between two steps of the snake when no key is pressed.
    pub moving_period: u64,
    /// Time a finished game stays on show before a new one starts.
    pub restart_time: u64,
}

impl Config {
    /// A step every `MOVING_PERIOD`, a restart after `RESTART_TIME`.
    pub open spec fn standard() -> Config {
        Config { moving_period: MOVING_PERIOD, restart_time: RESTART_TIME }
    }

    pub fn new() -> (c: Config)
        ensures
            c == Config::standard(),
    {
        Config { moving_period: MOVING_PERIOD, restart_time: RESTART_TIME }
    }
}

/// A key as the game sees it: one of the four arrows, or anything else.
#[derive(Clone, Copy, Debug, PartialEq, Eq, Structural)]
pub enum Key {
    Up,
    Down,
    Left,
    Right,
    Other,
}

impl Key {
    /// The heading an arrow key asks for; no other key asks for one.
    pub open spec fn direction(self) -> Option<Direction> {
        match self {
            Key::Up => Some(Direction::Up),
            Key::Down => Some(Direction::Down),
            Key::Left => Some(Direction::Left),
            Key::Right => Some(Direction::Right),
            Key::Other => None,
        }
    }

    pub fn to_direction(&self) -> (d: Option<Direction>)
        ensures
            d == self.direction(),
    {
        match *self {
            Key::Up => Some(Direction::Up),
            Key::Down => Some(Direction::Down),
            Key::Left => Some(Direction::Left),
            Key::Right => Some(Direction::Right),
            Key::Other => None,
        }
    }
}

/// What a tick will do, by priority: a finished game waits for its restart, a
/// game without food gets food, and only a game with food moves the snake.
#[derive(Clone, Copy, Debug, PartialEq, Eq, Structural)]
pub enum Phase {
    GameOver,
    FoodPending,
    Playing,
}

/// Whether `p` lies inside the one-cell border of a `width` by `height` board.
pub open spec fn interior(width: int, height: int, p: (int, int)) -> bool {
    1 <= p.0 <= width - 2 && 1 <= p.1 <= height - 2
}

/// Time adds up, and stops at the largest value the clock can hold.
pub open spec fn accumulated(waiting: nat, elapsed: nat) -> nat {
    if waiting + elapsed > u64::MAX {
        u64::MAX as nat
    } else {
        waiting + elapsed
    }
}

/// Everything the game knows, as mathematical values.
pub struct GameState {
    /// The snake's cells, head first.
    pub cells: Seq<(int, int)>,
    pub heading: Direction,
    /// Whether the snake keeps its tail on its next step.
    pub growth_pending: bool,
    pub food: Option<(int, int)>,
    pub width: int,
    pub height: int,
    pub config: Config,
    pub game_over: bool,
    /// Microseconds since the last step, or since the game ended.
    pub waiting_time: nat,
}

impl GameState {
    /// A valid state: the board has room, the snake is inside the border, and
    /// the food, if there is any, is inside the border and not under the snake.
    pub open spec fn wf(self) -> bool {
        &&& self.width >= MIN_WIDTH
        &&& self.height >= MIN_HEIGHT
        &&& self.cells.len() >= 1
        &&& forall|i: int|
            0 <= i < self.cells.len() ==> interior(
                self.width,
                self.height,
                #[trigger] self.cells[i],
            )
        &&& match self.food {
            Some(p) => self.free(p),
            None => true,
        }
    }

    /// The state every game starts from.
    pub open spec fn initial(width: int, height: int, config: Config) -> GameState {
        GameState {
            cells: seq![(START_X as int, START_Y as int), (START_X - 1, START_Y as int)],
            heading: Direction::Right,
            growth_pending: false,
            food: Some((FIRST_FOOD_X as int, FIRST_FOOD_Y as int)),
            width,
            height,
            config,
            game_over: false,
            waiting_time: 0,
        }
    }

    pub open spec fn phase(self) -> Phase {
        if self.game_over {
            Phase::GameOver
        } else if self.food is None {
            Phase::FoodPending
        } else {
            Phase::Playing
        }
    }

    pub open spec fn head(self) -> (int, int) {
        self.cells[0]
    }

    /// Where a step in `dir` would put the head.
    pub open spec fn next_head(self, dir: Option<Direction>) -> (int, int) {
        neighbour(self.head(), chosen(dir, self.heading))
    }

    /// A cell where food can go: inside the border and not under the snake.
    pub open spec fn free(self, p: (int, int)) -> bool {
        interior(self.width, self.height, p) && !self.cells.contains(p)
    }

    /// No cell is left for food.
    pub open spec fn full(self) -> bool {
        forall|x: int, y: int| !#[trigger] self.free((x, y))
    }

    /// A step in `dir` kills the snake: it would run into the border or into
    /// itself.
    pub open spec fn fatal(self, dir: Option<Direction>) -> bool {
        !self.free(self.next_head(dir))
    }

    /// The snake has its head on the food: the food goes, and the snake will
    /// keep its tail on its next step.
    pub open spec fn after_eating(self) -> GameState {
        if self.food == Some(self.head()) {
            GameState { food: None, growth_pending: true, ..self }
        } else {
            self
        }
    }

    /// The snake takes the step, with no regard to what is in the way.
    pub open spec fn moved(self, dir: Option<Direction>) -> GameState {
        GameState {
            cells: stepped(self.cells, self.next_head(dir), self.growth_pending),
            heading: chosen(dir, self.heading),
            growth_pending: false,
            ..self
        }
    }

    /// One movement step. A fatal step ends the game and leaves the snake
    /// where it is; any other is taken, and the snake eats what it finds.
    /// Either way the clock starts again.
    pub open spec fn step(self, dir: Option<Direction>) -> GameState {
        if self.fatal(dir) {
            GameState { game_over: true, waiting_time: 0, ..self }
        } else {
            GameState { waiting_time: 0, ..self.moved(dir).after_eating() }
        }
    }

    /// A key press. It does nothing when the game is over, when the key is no
    /// arrow, or when the arrow points straight back; otherwise the snake
    /// steps that way at once.
    pub open spec fn press(self, key: Key) -> GameState {
        match key.direction() {
            Some(d) => if self.game_over || d == self.heading.reversed() {
                self
            } else {
                self.step(Some(d))
            },
            None => self,
        }
    }

    /// The clock, and nothing else, after `elapsed` more microseconds.
    pub open spec fn waited(self, elapsed: nat) -> GameState {
        GameState { waiting_time: accumulated(self.waiting_time, elapsed), ..self }
    }

    /// A tick of `elapsed` microseconds, but for the food that a game without
    /// food gets. A finished game restarts once it has waited longer than
    /// its restart time; a game with food steps straight on once it has waited
    /// longer than its moving period; otherwise only the clock moves.
    pub open spec fn tick(self, elapsed: nat) -> GameState {
        match self.phase() {
            Phase::GameOver => if self.waited(elapsed).waiting_time > self.config.restart_time {
                GameState::initial(self.width, self.height, self.config)
            } else {
                self.waited(elapsed)
            },
            Phase::FoodPending => self.waited(elapsed),
            Phase::Playing => if self.waited(elapsed).waiting_time > self.config.moving_period {
                self.step(None)
            } else {
                self.waited(elapsed)
            },
        }
    }

    /// The state with food at `p`.
    pub open spec fn fed(self, p: (int, int)) -> GameState {
        GameState { food: Some(p), ..self }
    }

    /// `self` is `prev` after food was looked for: food lies on a cell that
    /// was free, or none was free and there is no food. Nothing else differs.
    pub open spec fn fed_from(self, prev: GameState) -> bool {
        &&& self == GameState { food: self.food, ..prev }
        &&& match self.food {
            Some(p) => prev.free(p),
            None => prev.full(),
        }
    }
}

} // verus!
