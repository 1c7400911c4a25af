//! What holds of every game, proved from the state machine alone.

use vstd::prelude::*;
use crate::snake::{chosen, neighbour, stepped, Direction};
use crate::state::{accumulated, interior, GameState, Key, Phase};

verus! {

/// A movement step keeps a valid state valid: the snake stays inside the
/// border, and food stays inside the border and clear of the snake.
pub proof fn lemma_step_keeps_valid(s: GameState, dir: Option<Direction>)
    requires
        s.wf(),
    ensures
        s.step(dir).wf(),
{
    if !s.fatal(dir) {
        let next = s.next_head(dir);
        let m = s.moved(dir);
        let t = s.step(dir);
        assert(m.cells[0] == next);
        assert forall|i: int| 0 <= i < m.cells.len() implies interior(
            s.width,
            s.height,
            #[trigger] m.cells[i],
        ) by {
            if i > 0 {
                assert(m.cells[i] == s.cells[i - 1]);
            }
        }
        assert forall|p: (int, int)| m.cells.contains(p) implies p == next || s.cells.contains(
            p,
        ) by {
            let i = choose|i: int| 0 <= i < m.cells.len() && m.cells[i] == p;
            if i > 0 {
                assert(m.cells[i] == s.cells[i - 1]);
            }
        }
        assert(t.cells == m.cells);
    }
}

/// A key press keeps a valid state valid.
pub proof fn lemma_press_keeps_valid(s: GameState, key: Key)
    requires
        s.wf(),
    ensures
        s.press(key).wf(),
{
    match key.direction() {
        Some(d) => lemma_step_keeps_valid(s, Some(d)),
        None => {},
    }
}

/// A tick keeps a valid state valid.
pub proof fn lemma_tick_keeps_valid(s: GameState, elapsed: nat)
    requires
        s.wf(),
    ensures
        s.tick(elapsed).wf(),
{
    lemma_step_keeps_valid(s, None);
    let start = GameState::initial(s.width, s.height, s.config);
    assert(start.cells[0] == (2int, 2int));
    assert(start.cells[1] == (1int, 2int));
}

/// Food put on a free cell keeps a valid state valid, and such food is
/// inside the border and on no cell of the snake.
pub proof fn lemma_food_keeps_valid(s: GameState, t: GameState)
    requires
        s.wf(),
        t.fed_from(s),
    ensures
        t.wf(),
        match t.food {
            Some(p) => 1 <= p.0 <= t.width - 2 && 1 <= p.1 <= t.height - 2 && !t.cells.contains(p),
            None => true,
        },
{
}

/// While the game runs, an arrow key that does not point straight back moves
/// the head to the cell computed beforehand, unless that cell is fatal.
pub proof fn lemma_press_moves_head(s: GameState, key: Key, d: Direction)
    requires
        s.wf(),
        !s.game_over,
        key.direction() == Some(d),
        d != s.heading.reversed(),
        !s.fatal(Some(d)),
    ensures
        s.press(key).head() == s.next_head(Some(d)),
        s.press(key).head() == neighbour(s.head(), d),
        s.press(key).heading == d,
        !s.press(key).game_over,
{
}

/// A step that is not fatal moves the head to the cell computed beforehand.
pub proof fn lemma_step_moves_head(s: GameState, dir: Option<Direction>)
    requires
        s.wf(),
        !s.fatal(dir),
    ensures
        s.step(dir).head() == s.next_head(dir),
        s.step(dir).heading == chosen(dir, s.heading),
        s.step(dir).game_over == s.game_over,
        s.step(dir).waiting_time == 0,
{
}

/// An arrow key that points straight back changes nothing, the clock included.
pub proof fn lemma_reverse_ignored(s: GameState, key: Key)
    requires
        key.direction() == Some(s.heading.reversed()),
    ensures
        s.press(key) == s,
{
}

/// No key press changes a finished game, and no key press ends a game but
/// by a fatal step.
pub proof fn lemma_press_game_over(s: GameState, key: Key)
    ensures
        s.game_over ==> s.press(key) == s,
        key.direction() is None ==> s.press(key) == s,
        s.press(key).game_over ==> s.game_over || (key.direction() is Some && s.fatal(
            key.direction(),
        )),
{
}

/// Eating: a step that brings the head onto the food takes the food away
/// and leaves growth pending; the step itself adds no cell but one that was
/// pending before, and the next step that is taken adds exactly one.
pub proof fn lemma_eating_grows(s: GameState, dir: Option<Direction>, then: Option<Direction>)
    requires
        s.wf(),
        !s.fatal(dir),
        s.food == Some(s.next_head(dir)),
    ensures
        s.step(dir).food is None,
        s.step(dir).growth_pending,
        s.step(dir).cells.len() == s.cells.len() + if s.growth_pending {
            1int
        } else {
            0int
        },
        !s.step(dir).fatal(then) ==> s.step(dir).step(then).cells.len() == s.step(dir).cells.len()
            + 1,
        !s.step(dir).fatal(then) ==> !s.step(dir).step(then).growth_pending,
{
}

/// A step that finds no food on the new head cell leaves the food alone and
/// the snake no longer than a pending growth makes it.
pub proof fn lemma_no_food_no_growth(s: GameState, dir: Option<Direction>)
    requires
        s.wf(),
        !s.fatal(dir),
        s.food != Some(s.next_head(dir)),
    ensures
        s.step(dir).food == s.food,
        !s.step(dir).growth_pending,
        s.step(dir).cells == stepped(s.cells, s.next_head(dir), s.growth_pending),
{
}

/// A step into the border, beyond it, or into a cell of the snake ends the
/// game and leaves the snake, the food and the board as they were.
pub proof fn lemma_fatal_step(s: GameState, dir: Option<Direction>)
    requires
        s.wf(),
        !interior(s.width, s.height, s.next_head(dir)) || s.cells.contains(s.next_head(dir)),
    ensures
        s.fatal(dir),
        s.step(dir).game_over,
        s.step(dir).cells == s.cells,
        s.step(dir) == (GameState { game_over: true, waiting_time: 0, ..s }),
{
}

/// A finished game stays finished until it has waited longer than the
/// restart delay; the tick that takes it past the delay gives the initial
/// state on the same board.
pub proof fn lemma_restart_after_delay(s: GameState, elapsed: nat)
    requires
        s.game_over,
    ensures
        accumulated(s.waiting_time, elapsed) > s.config.restart_time ==> s.tick(elapsed)
            == GameState::initial(s.width, s.height, s.config),
        accumulated(s.waiting_time, elapsed) <= s.config.restart_time ==> s.tick(elapsed)
            == s.waited(elapsed) && s.tick(elapsed).game_over,
{
}

/// A tick does one thing at most: it restarts a finished game, or leaves a
/// game without food to be fed, or steps the snake of a game with food.
/// Below the thresholds only the clock moves.
pub proof fn lemma_tick_branches(s: GameState, elapsed: nat)
    ensures
        s.phase() == Phase::FoodPending ==> s.tick(elapsed) == s.waited(elapsed),
        s.phase() == Phase::Playing && accumulated(s.waiting_time, elapsed)
            > s.config.moving_period ==> s.tick(elapsed) == s.step(None),
        s.phase() == Phase::Playing && accumulated(s.waiting_time, elapsed)
            <= s.config.moving_period ==> s.tick(elapsed) == s.waited(elapsed),
        s.phase() != Phase::GameOver ==> (s.tick(elapsed).game_over ==> s.fatal(None)),
{
}

} // verus!
