use rand::Rng;
use vstd::prelude::*;

use crate::snake::{Cell, Snake};

verus! {

/// Whether `c` lies on the board `[0, grid_x) x [0, grid_y)`.
pub open spec fn in_grid(c: Cell, grid_x: int, grid_y: int) -> bool {
    0 <= c.0 < grid_x && 0 <= c.1 < grid_y
}

/// Whether `c` is on the board and not covered by `body`.
pub open spec fn is_free(c: Cell, body: Seq<Cell>, grid_x: int, grid_y: int) -> bool {
    in_grid(c, grid_x, grid_y) && !body.contains(c)
}

/// Whether the board has a cell that `body` does not cover.
pub open spec fn has_free_cell(body: Seq<Cell>, grid_x: int, grid_y: int) -> bool {
    exists|c: Cell| is_free(c, body, grid_x, grid_y)
}

/// Column-major order on cells: by x, then by y.
pub open spec fn cell_lt(a: Cell, b: Cell) -> bool {
    a.0 < b.0 || (a.0 == b.0 && a.1 < b.1)
}

/// Relies on rand::thread_rng and rand::Rng::gen_range: a value drawn from
/// `[0, n)` by the thread-local generator; gen_range panics only on an
/// empty range.
#[verifier::external_body]
fn random_below(n: usize) -> (r: usize)
    requires
        0 < n,
    ensures
        r < n,
{
    rand::thread_rng().gen_range(0, n)
}

/// Every cell of the board that `snake` does not cover, each once, in
/// column-major order.
pub fn free_cells(snake: &Snake, grid_x: i32, grid_y: i32) -> (r: Vec<Cell>)
    ensures
        forall|i: int| 0 <= i < r@.len() ==> is_free(#[trigger] r@[i], snake.body@, grid_x as int, grid_y as int),
        forall|c: Cell| is_free(c, snake.body@, grid_x as int, grid_y as int) ==> r@.contains(c),
        forall|i: int, j: int| 0 <= i < j < r@.len() ==> cell_lt(r@[i], r@[j]),
{
    let mut r: Vec<Cell> = Vec::new();
    let mut x: i32 = 0;
    while x < grid_x
        invariant
            0 <= x,
            grid_x <= 0 || x <= grid_x,
            forall|i: int| 0 <= i < r@.len() ==> is_free(#[trigger] r@[i], snake.body@, grid_x as int, grid_y as int) && r@[i].0 < x,
            forall|c: Cell| is_free(c, snake.body@, grid_x as int, grid_y as int) && c.0 < x ==> r@.contains(c),
            forall|i: int, j: int| 0 <= i < j < r@.len() ==> cell_lt(r@[i], r@[j]),
        decreases grid_x - x,
    {
        let mut y: i32 = 0;
        while y < grid_y
            invariant
                0 <= x < grid_x,
                0 <= y,
                grid_y <= 0 || y <= grid_y,
                forall|i: int| 0 <= i < r@.len() ==> is_free(#[trigger] r@[i], snake.body@, grid_x as int, grid_y as int)
                    && (r@[i].0 < x || (r@[i].0 == x && r@[i].1 < y)),
                forall|c: Cell| is_free(c, snake.body@, grid_x as int, grid_y as int) && (c.0 < x || (c.0 == x && c.1 < y)) ==> r@.contains(c),
                forall|i: int, j: int| 0 <= i < j < r@.len() ==> cell_lt(r@[i], r@[j]),
            decreases grid_y - y,
        {
            let c: Cell = (x, y);
            if !snake.check_collision(c) {
                let ghost r0 = r@;
                r.push(c);
                assert forall|d: Cell| is_free(d, snake.body@, grid_x as int, grid_y as int) && (d.0 < x || (d.0 == x && d.1 < y + 1)) implies r@.contains(d) by {
                    if d == c {
                        assert(r@[r0.len() as int] == c);
                    } else {
                        assert(r0.contains(d));
                        let k = choose|k: int| 0 <= k < r0.len() && r0[k] == d;
                        assert(r@[k] == d);
                    }
                }
            }
            y += 1;
        }
        x += 1;
    }
    r
}

/// The apple: the one cell the snake can eat.
pub struct Apple {
    pub loc: Cell,
}

impl Apple {
    /// Moves the apple to a cell of `[0, grid_x) x [0, grid_y)` that
    /// `forbidden` does not cover, drawn uniformly among all such cells.
    /// Returns whether there was such a cell; if not, the apple stays.
    pub fn place_randomly(&mut self, forbidden: &Snake, grid_x: i32, grid_y: i32) -> (placed: bool)
        ensures
            placed == has_free_cell(forbidden.body@, grid_x as int, grid_y as int),
            placed ==> is_free(final(self).loc, forbidden.body@, grid_x as int, grid_y as int),
            !placed ==> final(self).loc == old(self).loc,
    {
        let free = free_cells(forbidden, grid_x, grid_y);
        if free.len() == 0 {
            assert forall|c: Cell| !is_free(c, forbidden.body@, grid_x as int, grid_y as int) by {
                if is_free(c, forbidden.body@, grid_x as int, grid_y as int) {
                    assert(free@.contains(c));
                }
            }
            return false;
        }
        let pick = random_below(free.len());
        self.loc = free[pick];
        assert(is_free(free@[pick as int], forbidden.body@, grid_x as int, grid_y as int));
        true
    }
}

} // verus!
