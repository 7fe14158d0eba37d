use vstd::prelude::*;

use crate::apple::{has_free_cell, is_free, Apple};
use crate::direction::Direction;
use crate::snake::{advanced_body, hits_tail, same_cell, step, Cell, Snake};

verus! {

/// What a direction request does to the latch and the direction: once the
/// latch is set the request is ignored; otherwise it sets the latch, and the
/// direction becomes the requested one unless that is the exact opposite.
pub open spec fn press_step(latched: bool, current: Direction, requested: Direction) -> (bool, Direction) {
    if latched {
        (latched, current)
    } else if requested == current.reverse() {
        (true, current)
    } else {
        (true, requested)
    }
}

/// The latch and direction after the requests `reqs`, in order.
pub open spec fn press_all(latched: bool, current: Direction, reqs: Seq<Direction>) -> (bool, Direction)
    decreases reqs.len(),
{
    if reqs.len() == 0 {
        (latched, current)
    } else {
        let next = press_step(latched, current, reqs[0]);
        press_all(next.0, next.1, reqs.drop_first())
    }
}

/// Whether a snake with body `body` moving in direction `d` ends the game:
/// the head is off the board, or the next move would put it on another
/// segment. Both coordinates of the head are held against `grid_y`.
pub open spec fn terminal(body: Seq<Cell>, d: Direction, grid_y: int) -> bool {
    let h = body[0];
    h.0 > grid_y || h.1 > grid_y || h.0 < 0 || h.1 < 0 || hits_tail(body, step(h, d))
}

/// A game in progress: the snake, the apple, the board's size, and the latch
/// that lets through at most one direction change per tick.
pub struct SnakeGame {
    snake: Snake,
    apple: Apple,
    direction_pressed: bool,
    grid_x: i32,
    grid_y: i32,
}

impl SnakeGame {
    pub closed spec fn spec_snake(&self) -> Snake {
        self.snake
    }

    pub closed spec fn spec_apple(&self) -> Cell {
        self.apple.loc
    }

    pub closed spec fn spec_latched(&self) -> bool {
        self.direction_pressed
    }

    pub closed spec fn spec_grid_x(&self) -> int {
        self.grid_x as int
    }

    pub closed spec fn spec_grid_y(&self) -> int {
        self.grid_y as int
    }

    /// The snake can make its next move and the board is not empty.
    pub open spec fn wf(&self) -> bool {
        &&& self.spec_snake().head_interior()
        &&& 0 < self.spec_grid_x() <= i32::MAX
        &&& 0 < self.spec_grid_y() < i32::MAX
    }

    /// A new game on a board of `grid_x` by `grid_y` cells: the initial
    /// snake, and an apple on a cell that the snake does not cover.
    pub fn new(grid_x: i32, grid_y: i32) -> (r: SnakeGame)
        requires
            0 < grid_x,
            0 < grid_y < i32::MAX,
        ensures
            r.wf(),
            r.spec_grid_x() == grid_x,
            r.spec_grid_y() == grid_y,
            r.spec_snake().body@ == seq![(0i32, 0i32), (0i32, 1i32)],
            r.spec_snake().direction == Direction::Right,
            !r.spec_snake()._eating_apple,
            !r.spec_latched(),
            has_free_cell(r.spec_snake().body@, grid_x as int, grid_y as int) ==> is_free(
                r.spec_apple(),
                r.spec_snake().body@,
                grid_x as int,
                grid_y as int,
            ),
    {
        let mut game = SnakeGame {
            snake: Snake::initial(),
            apple: Apple { loc: (0, 0) },
            direction_pressed: false,
            grid_x,
            grid_y,
        };
        game.reset_apple();
        game
    }

    /// A game in the given state, with the latch clear.
    pub fn with_state(grid_x: i32, grid_y: i32, snake: Snake, apple: Apple) -> (r: SnakeGame)
        requires
            0 < grid_x,
            0 < grid_y < i32::MAX,
            snake.head_interior(),
        ensures
            r.wf(),
            r.spec_grid_x() == grid_x,
            r.spec_grid_y() == grid_y,
            r.spec_snake() == snake,
            r.spec_apple() == apple.loc,
            !r.spec_latched(),
    {
        SnakeGame { snake, apple, direction_pressed: false, grid_x, grid_y }
    }

    pub fn snake(&self) -> (r: &Snake)
        ensures
            *r == self.spec_snake(),
    {
        &self.snake
    }

    pub fn apple(&self) -> (r: &Apple)
        ensures
            r.loc == self.spec_apple(),
    {
        &self.apple
    }

    pub fn direction_pressed(&self) -> (r: bool)
        ensures
            r == self.spec_latched(),
    {
        self.direction_pressed
    }

    pub fn grid_x(&self) -> (r: i32)
        ensures
            r == self.spec_grid_x(),
    {
        self.grid_x
    }

    pub fn grid_y(&self) -> (r: i32)
        ensures
            r == self.spec_grid_y(),
    {
        self.grid_y
    }

    /// One tick: note whether the apple is just ahead, move the snake (it
    /// grows if so), put the apple elsewhere if it was eaten, start over if
    /// the snake left the board or would run into itself, and clear the latch.
    pub fn update(&mut self)
        requires
            old(self).wf(),
        ensures
            final(self).wf(),
            final(self).spec_grid_x() == old(self).spec_grid_x(),
            final(self).spec_grid_y() == old(self).spec_grid_y(),
            !final(self).spec_latched(),
            ({
                let s0 = old(self).spec_snake();
                let ate = same_cell(old(self).spec_apple(), s0.next_head());
                let moved = advanced_body(s0.body@, s0.direction, s0._eating_apple || ate);
                let gx = old(self).spec_grid_x();
                let gy = old(self).spec_grid_y();
                let s1 = final(self).spec_snake();
                if terminal(moved, s0.direction, gy) {
                    &&& s1.body@ == seq![(0i32, 0i32), (0i32, 1i32)]
                    &&& s1.direction == Direction::Right
                    &&& !s1._eating_apple
                    &&& has_free_cell(s1.body@, gx, gy) ==> is_free(final(self).spec_apple(), s1.body@, gx, gy)
                } else {
                    &&& s1.body@ == moved
                    &&& s1.direction == s0.direction
                    &&& !s1._eating_apple
                    &&& ate && has_free_cell(moved, gx, gy) ==> is_free(final(self).spec_apple(), moved, gx, gy)
                    &&& !(ate && has_free_cell(moved, gx, gy)) ==> final(self).spec_apple() == old(self).spec_apple()
                }
            }),
    {
        let eating_apple = self.snake.check_apple_in_front(self.apple.loc);
        self.snake.update();

        if eating_apple {
            self.reset_apple();
        }

        let (hx, hy) = self.snake.body[0];
        if hx > self.grid_y || hy > self.grid_y || hx < 0 || hy < 0
            || self.snake.check_head_self_collision() {
            self.reset_game_state();
        }
        self.direction_pressed = false;
    }

    /// A request to move in `requested`: ignored once a request was taken
    /// since the last tick; otherwise it is taken, and the direction changes
    /// to `requested` unless that is the exact opposite of the current one.
    pub fn pressed(&mut self, requested: Direction)
        requires
            old(self).wf(),
        ensures
            final(self).wf(),
            (final(self).spec_latched(), final(self).spec_snake().direction) == press_step(
                old(self).spec_latched(),
                old(self).spec_snake().direction,
                requested,
            ),
            requested == old(self).spec_snake().direction.reverse()
                ==> final(self).spec_snake().direction == old(self).spec_snake().direction,
            final(self).spec_snake().body == old(self).spec_snake().body,
            final(self).spec_snake()._eating_apple == old(self).spec_snake()._eating_apple,
            final(self).spec_apple() == old(self).spec_apple(),
            final(self).spec_grid_x() == old(self).spec_grid_x(),
            final(self).spec_grid_y() == old(self).spec_grid_y(),
    {
        if self.direction_pressed {
            return;
        }
        self.direction_pressed = true;
        let last_dir = self.snake.direction;
        if !last_dir.is_opposite(&requested) {
            self.snake.direction = requested;
        }
    }

    /// Puts a fresh snake on the board and a new apple beside it.
    fn reset_game_state(&mut self)
        requires
            0 < old(self).grid_x,
            0 < old(self).grid_y < i32::MAX,
        ensures
            final(self).wf(),
            final(self).grid_x == old(self).grid_x,
            final(self).grid_y == old(self).grid_y,
            final(self).direction_pressed == old(self).direction_pressed,
            final(self).snake.body@ == seq![(0i32, 0i32), (0i32, 1i32)],
            final(self).snake.direction == Direction::Right,
            !final(self).snake._eating_apple,
            has_free_cell(final(self).snake.body@, final(self).grid_x as int, final(self).grid_y as int)
                ==> is_free(final(self).apple.loc, final(self).snake.body@, final(self).grid_x as int, final(self).grid_y as int),
    {
        self.snake = Snake::initial();
        self.reset_apple();
    }

    /// Moves the apple to a cell of the board that the snake does not cover,
    /// if there is one.
    fn reset_apple(&mut self) -> (placed: bool)
        ensures
            final(self).snake == old(self).snake,
            final(self).grid_x == old(self).grid_x,
            final(self).grid_y == old(self).grid_y,
            final(self).direction_pressed == old(self).direction_pressed,
            placed == has_free_cell(old(self).snake.body@, old(self).grid_x as int, old(self).grid_y as int),
            placed ==> is_free(final(self).apple.loc, old(self).snake.body@, old(self).grid_x as int, old(self).grid_y as int),
            !placed ==> final(self).apple == old(self).apple,
    {
        self.apple.place_randomly(&self.snake, self.grid_x, self.grid_y)
    }
}

/// Between two ticks at most one direction change is taken: whatever
/// requests follow the first, latch and direction end as the first alone
/// left them.
pub proof fn lemma_one_change_per_tick(current: Direction, reqs: Seq<Direction>)
    requires
        reqs.len() >= 1,
    ensures
        press_all(false, current, reqs) == press_step(false, current, reqs[0]),
{
    let first = press_step(false, current, reqs[0]);
    lemma_latched_ignores(first.1, reqs.drop_first());
}

/// Once the latch is set, no request changes anything.
pub proof fn lemma_latched_ignores(current: Direction, reqs: Seq<Direction>)
    ensures
        press_all(true, current, reqs) == (true, current),
    decreases reqs.len(),
{
    if reqs.len() > 0 {
        lemma_latched_ignores(current, reqs.drop_first());
    }
}

} // verus!
