//! The game itself: the state a host owns and drives with key presses and
//! ticks of its clock.

use vstd::prelude::*;
use rand::Rng;
use crate::laws::{lemma_step_keeps_valid, lemma_tick_keeps_valid};
use crate::scene::{block, border, scene, shapes, Paint, Rect};
use crate::snake::{cell_of, Direction, Snake};
use crate::state::{
    Config, GameState, Key, Phase, FIRST_FOOD_X, FIRST_FOOD_Y, MIN_HEIGHT, MIN_WIDTH, START_X,
    START_Y,
};

verus! {

/// How often food is thrown at random before the board is searched for a
/// free cell.
pub const FOOD_ATTEMPTS: u32 = 64;

/// `rand::rngs::ThreadRng`, the generator that `rand::thread_rng` hands
/// out. It is only passed on; nothing is known of what it holds.
#[verifier::external_type_specification]
#[verifier::external_body]
pub struct ExThreadRng(rand::rngs::ThreadRng);

/// `rand::thread_rng`: the calling thread's random number generator. Nothing
/// is claimed of it.
#[verifier::external_body]
fn thread_rng() -> (rng: rand::rngs::ThreadRng) {
    rand::thread_rng()
}

/// `rand::Rng::gen_range` on the half-open range `low..high`, which must not
/// be empty: the number that comes back lies in the range. Which one it is
/// is left open.
#[verifier::external_body]
fn gen_range(rng: &mut rand::rngs::ThreadRng, low: i32, high: i32) -> (r: i32)
    requires
        low < high,
    ensures
        low <= r < high,
{
    rng.gen_range(low..high)
}

pub struct Game {
    snake: Snake,
    food: Option<(i32, i32)>,
    width: i32,
    height: i32,
    config: Config,
    game_over: bool,
    /// Microseconds since the last step, or since the game ended.
    waiting_time: u64,
}

impl View for Game {
    type V = GameState;

    closed spec fn view(&self) -> GameState {
        GameState {
            cells: self.snake.cells(),
            heading: self.snake.heading(),
            growth_pending: self.snake.growth_pending(),
            food: match self.food {
                Some(p) => Some(cell_of(p)),
                None => None,
            },
            width: self.width as int,
            height: self.height as int,
            config: self.config,
            game_over: self.game_over,
            waiting_time: self.waiting_time as nat,
        }
    }
}

impl Game {
    /// The game holds a valid state.
    pub closed spec fn wf(&self) -> bool {
        self.snake.wf() && self@.wf()
    }

    /// A valid game holds a valid state, on a board and with a clock that
    /// the machine can count.
    pub proof fn lemma_wf(&self)
        requires
            self.wf(),
        ensures
            self@.wf(),
            self@.width <= i32::MAX,
            self@.height <= i32::MAX,
            self@.waiting_time <= u64::MAX,
    {
    }

    /// A new game on a board of `width` by `height` cells, border included,
    /// with the standard delays.
    pub fn new(width: i32, height: i32) -> (g: Game)
        requires
            width >= MIN_WIDTH,
            height >= MIN_HEIGHT,
        ensures
            g.wf(),
            g@ == GameState::initial(width as int, height as int, Config::standard()),
    {
        Game::with_config(width, height, Config::new())
    }

    /// A new game on a board of `width` by `height` cells, border included,
    /// with the delays of `config`.
    pub fn with_config(width: i32, height: i32, config: Config) -> (g: Game)
        requires
            width >= MIN_WIDTH,
            height >= MIN_HEIGHT,
        ensures
            g.wf(),
            g@ == GameState::initial(width as int, height as int, config),
    {
        let g = Game {
            snake: Snake::new(START_X, START_Y),
            waiting_time: 0,
            food: Some((FIRST_FOOD_X, FIRST_FOOD_Y)),
            width,
            height,
            config,
            game_over: false,
        };
        proof {
            let start = GameState::initial(width as int, height as int, config);
            assert(start.cells[0] == (2int, 2int));
            assert(start.cells[1] == (1int, 2int));
        }
        g
    }

    /// A key press: see `GameState::press`.
    pub fn key_pressed(&mut self, key: Key)
        requires
            old(self).wf(),
        ensures
            final(self).wf(),
            final(self)@ == old(self)@.press(key),
    {
        if self.game_over {
            return ;
        }
        match key.to_direction() {
            Some(d) => {
                if d == self.snake.head_direction().opposite() {
                    return ;
                }
                self.update_snake(Some(d));
            },
            None => {},
        }
    }

    /// A tick of the host's clock, `delta_time` microseconds after the last
    /// one: see `GameState::tick`. A game without food gets food on a free
    /// cell, if the board has one.
    pub fn update(&mut self, delta_time: u64)
        requires
            old(self).wf(),
        ensures
            final(self).wf(),
            old(self)@.phase() != Phase::FoodPending ==> final(self)@ == old(self)@.tick(
                delta_time as nat,
            ),
            old(self)@.phase() == Phase::FoodPending ==> final(self)@.fed_from(
                old(self)@.tick(delta_time as nat),
            ),
    {
        proof {
            lemma_tick_keeps_valid(self@, delta_time as nat);
        }
        self.waiting_time = self.waiting_time.saturating_add(delta_time);
        if self.game_over {
            if self.waiting_time > self.config.restart_time {
                self.restart();
            }
            return ;
        }
        if self.food.is_none() {
            self.add_food();
            return ;
        }
        if self.waiting_time > self.config.moving_period {
            self.update_snake(None);
        }
    }

    /// Lets the snake eat the food under its head, if there is any.
    fn check_eating(&mut self)
        requires
            old(self).snake.wf(),
        ensures
            final(self).snake.wf(),
            final(self)@ == old(self)@.after_eating(),
    {
        let (head_x, head_y): (i32, i32) = self.snake.head_position();
        match self.food {
            Some((food_x, food_y)) => {
                if food_x == head_x && food_y == head_y {
                    self.food = None;
                    self.snake.restore_tail();
                }
            },
            None => {},
        }
    }

    /// Whether the snake survives a step in `dir`.
    pub fn check_if_snake_alive(&self, dir: Option<Direction>) -> (alive: bool)
        requires
            self.wf(),
        ensures
            alive == !self@.fatal(dir),
    {
        let (next_x, next_y): (i32, i32) = self.snake.next_head(dir);
        if self.snake.overlap_tail(next_x, next_y) {
            return false;
        }
        next_x > 0 && next_x < self.width - 1 && next_y > 0 && next_y < self.height - 1
    }

    /// Puts the food on `(x, y)` if that cell is free, and says whether it did.
    pub fn place_food(&mut self, x: i32, y: i32) -> (placed: bool)
        requires
            old(self).wf(),
        ensures
            final(self).wf(),
            placed == old(self)@.free((x as int, y as int)),
            placed ==> final(self)@ == old(self)@.fed((x as int, y as int)),
            !placed ==> final(self)@ == old(self)@,
    {
        if x > 0 && x < self.width - 1 && y > 0 && y < self.height - 1 && !self.snake.overlap_tail(
            x,
            y,
        ) {
            self.food = Some((x, y));
            true
        } else {
            false
        }
    }

    /// Puts the food on the first free cell, row by row from the top left;
    /// on a board without a free cell there is no food afterwards.
    fn place_first_free(&mut self)
        requires
            old(self).wf(),
        ensures
            final(self).wf(),
            final(self)@.fed_from(old(self)@),
    {
        let ghost before = self@;
        let mut y: i32 = 1;
        while y < self.height - 1
            invariant
                self.wf(),
                self@ == before,
                before == old(self)@,
                1 <= y <= self.height - 1,
                forall|a: int, b: int| b < y ==> !#[trigger] before.free((a, b)),
            decreases self.height - y,
        {
            let mut x: i32 = 1;
            while x < self.width - 1
                invariant
                    self.wf(),
                    self@ == before,
                    before == old(self)@,
                before == old(self)@,
                    1 <= y < self.height - 1,
                    1 <= x <= self.width - 1,
                    forall|a: int, b: int| b < y ==> !#[trigger] before.free((a, b)),
                    forall|a: int| a < x ==> !#[trigger] before.free((a, y as int)),
                decreases self.width - x,
            {
                if self.place_food(x, y) {
                    return ;
                }
                x += 1;
            }
            y += 1;
        }
        self.food = None;
    }

    /// Puts the food on a free cell: on one picked at random, and after
    /// `FOOD_ATTEMPTS` picks that hit the snake, on the first free one. On a
    /// board without a free cell there is no food afterwards.
    pub fn add_food(&mut self)
        requires
            old(self).wf(),
        ensures
            final(self).wf(),
            final(self)@.fed_from(old(self)@),
    {
        let ghost before = self@;
        let mut rng = thread_rng();
        let mut attempts: u32 = 0;
        while attempts < FOOD_ATTEMPTS
            invariant
                self.wf(),
                self@ == before,
                before == old(self)@,
            decreases FOOD_ATTEMPTS - attempts,
        {
            let new_x: i32 = gen_range(&mut rng, 1, self.width - 1);
            let new_y: i32 = gen_range(&mut rng, 1, self.height - 1);
            if self.place_food(new_x, new_y) {
                return ;
            }
            attempts += 1;
        }
        self.place_first_free();
    }

    /// One movement step: see `GameState::step`.
    pub fn update_snake(&mut self, dir: Option<Direction>)
        requires
            old(self).wf(),
        ensures
            final(self).wf(),
            final(self)@ == old(self)@.step(dir),
    {
        proof {
            lemma_step_keeps_valid(self@, dir);
            self.snake.lemma_wf();
        }
        if self.check_if_snake_alive(dir) {
            self.snake.move_forward(dir);
            self.check_eating();
        } else {
            self.game_over = true;
        }
        self.waiting_time = 0;
    }

    /// Starts over on the same board.
    pub fn restart(&mut self)
        requires
            old(self).wf(),
        ensures
            final(self).wf(),
            final(self)@ == GameState::initial(
                old(self)@.width,
                old(self)@.height,
                old(self)@.config,
            ),
    {
        self.snake = Snake::new(START_X, START_Y);
        self.waiting_time = 0;
        self.food = Some((FIRST_FOOD_X, FIRST_FOOD_Y));
        self.game_over = false;
        proof {
            let start = GameState::initial(self.width as int, self.height as int, self.config);
            assert(start.cells[0] == (2int, 2int));
            assert(start.cells[1] == (1int, 2int));
        }
    }

    /// What to paint for the current frame: see `scene`.
    pub fn draw(&self) -> (rects: Vec<Rect>)
        requires
            self.wf(),
        ensures
            shapes(rects@) == scene(self@),
    {
        let mut rects: Vec<Rect> = Vec::new();
        let n: usize = self.snake.len();
        let mut i: usize = 0;
        while i < n
            invariant
                n == self@.cells.len(),
                i <= n,
                rects@.len() == i,
                forall|j: int|
                    0 <= j < i ==> (#[trigger] rects@[j])@ == block(Paint::Snake, self@.cells[j]),
            decreases n - i,
        {
            let (x, y): (i32, i32) = self.snake.segment(i);
            rects.push(Rect { paint: Paint::Snake, x, y, width: 1, height: 1 });
            i += 1;
        }
        if let Some((x, y)) = self.food {
            rects.push(Rect { paint: Paint::Food, x, y, width: 1, height: 1 });
        }
        let w: i32 = self.width;
        let h: i32 = self.height;
        rects.push(Rect { paint: Paint::Border, x: 0, y: 0, width: w, height: 1 });
        rects.push(Rect { paint: Paint::Border, x: 0, y: h - 1, width: w, height: 1 });
        rects.push(Rect { paint: Paint::Border, x: 0, y: 0, width: 1, height: h });
        rects.push(Rect { paint: Paint::Border, x: w - 1, y: 0, width: 1, height: h });
        if self.game_over {
            rects.push(Rect { paint: Paint::GameOver, x: 0, y: 0, width: w, height: h });
        }
        proof {
            let b = border(w as int, h as int);
            assert(b.len() == 4);
            assert(shapes(rects@) =~= scene(self@));
        }
        rects
    }

    /// The snake, to look at.
    pub fn snake(&self) -> (s: &Snake)
        requires
            self.wf(),
        ensures
            s.wf(),
            s.cells() == self@.cells,
            s.heading() == self@.heading,
            s.growth_pending() == self@.growth_pending,
    {
        &self.snake
    }

    /// The cell the food is on, if there is food.
    pub fn food(&self) -> (f: Option<(i32, i32)>)
        ensures
            match f {
                Some(p) => self@.food == Some(cell_of(p)),
                None => self@.food is None,
            },
    {
        self.food
    }

    pub fn width(&self) -> (w: i32)
        ensures
            w == self@.width,
    {
        self.width
    }

    pub fn height(&self) -> (h: i32)
        ensures
            h == self@.height,
    {
        self.height
    }

    pub fn config(&self) -> (c: Config)
        ensures
            c == self@.config,
    {
        self.config
    }

    pub fn is_game_over(&self) -> (over: bool)
        ensures
            over == self@.game_over,
    {
        self.game_over
    }

    /// Microseconds since the last step, or since the game ended.
    pub fn waiting_time(&self) -> (t: u64)
        ensures
            t == self@.waiting_time,
    {
        self.waiting_time
    }

    /// What the next tick will do.
    pub fn phase(&self) -> (p: Phase)
        ensures
            p == self@.phase(),
    {
        if self.game_over {
            Phase::GameOver
        } else if self.food.is_none() {
            Phase::FoodPending
        } else {
            Phase::Playing
        }
    }
}

} // verus!
