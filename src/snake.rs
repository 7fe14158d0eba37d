use vstd::prelude::*;

use crate::direction::Direction;

verus! {

/// A cell of the board: `(x, y)`, x to the right and y downwards.
pub type Cell = (i32, i32);

/// The cell one step from `c` in direction `d`, over unbounded integers.
pub open spec fn step(c: Cell, d: Direction) -> (int, int) {
    (c.0 + d.dx(), c.1 + d.dy())
}

/// Whether the integer pair `p` denotes the cell `c`.
pub open spec fn same_cell(c: Cell, p: (int, int)) -> bool {
    c.0 == p.0 && c.1 == p.1
}

/// Whether `p` fits in the coordinates of a cell.
pub open spec fn fits_i32(p: (int, int)) -> bool {
    i32::MIN <= p.0 <= i32::MAX && i32::MIN <= p.1 <= i32::MAX
}

/// Whether `p` equals some segment of `body` other than the first (the head).
pub open spec fn hits_tail(body: Seq<Cell>, p: (int, int)) -> bool {
    exists|i: int| 1 <= i < body.len() && same_cell(#[trigger] body[i], p)
}

/// The body that a snake with body `body` moving in direction `d` has after
/// one move: the new head in front, and the last segment dropped unless the
/// snake grows.
pub open spec fn advanced_body(body: Seq<Cell>, d: Direction, grow: bool) -> Seq<Cell>
    recommends
        body.len() >= 1,
{
    let h = step(body[0], d);
    let rest = if grow {
        body
    } else {
        body.drop_last()
    };
    seq![(h.0 as i32, h.1 as i32)] + rest
}

/// The snake: its body, head first, the direction it moves in, and whether
/// the next move grows it instead of moving its tail.
pub struct Snake {
    pub body: Vec<Cell>,
    pub direction: Direction,
    pub _eating_apple: bool,
}

impl Snake {
    /// A snake always has at least one segment.
    pub open spec fn wf(&self) -> bool {
        self.body@.len() >= 1
    }

    pub open spec fn head(&self) -> Cell {
        self.body@[0]
    }

    /// Where the head goes on the next move.
    pub open spec fn next_head(&self) -> (int, int) {
        step(self.head(), self.direction)
    }

    /// The snake has a body and its next head can be held in a cell.
    pub open spec fn can_advance(&self) -> bool {
        self.wf() && fits_i32(self.next_head())
    }

    /// The head is off the edges of the coordinate range, so that the snake
    /// can make a move in any direction.
    pub open spec fn head_interior(&self) -> bool {
        &&& self.wf()
        &&& i32::MIN < self.head().0 < i32::MAX
        &&& i32::MIN < self.head().1 < i32::MAX
    }

    /// Whether the next head lands on a segment other than the current head.
    pub open spec fn collides_ahead(&self) -> bool {
        hits_tail(self.body@, self.next_head())
    }

    /// The snake a game starts with: body `[(0, 0), (0, 1)]`, moving right,
    /// not growing.
    pub fn initial() -> (r: Snake)
        ensures
            r.body@ == seq![(0i32, 0i32), (0i32, 1i32)],
            r.direction == Direction::Right,
            !r._eating_apple,
            r.head_interior(),
    {
        Snake { body: vec![(0, 0), (0, 1)], direction: Direction::Right, _eating_apple: false }
    }

    /// The next head, computed without the risk of overflow.
    fn next_head_wide(&self) -> (r: (i64, i64))
        requires
            self.wf(),
        ensures
            r.0 == self.next_head().0,
            r.1 == self.next_head().1,
    {
        let (x, y) = self.body[0];
        let (x, y) = (x as i64, y as i64);
        match self.direction {
            Direction::Down => (x, y + 1),
            Direction::Up => (x, y - 1),
            Direction::Left => (x - 1, y),
            Direction::Right => (x + 1, y),
        }
    }

    /// Moves the snake one cell in its direction: the new head goes in front;
    /// the last segment is dropped, unless the snake was growing, in which
    /// case it stays and the snake stops growing.
    pub fn update(&mut self)
        requires
            old(self).can_advance(),
        ensures
            final(self).body@ == advanced_body(
                old(self).body@,
                old(self).direction,
                old(self)._eating_apple,
            ),
            final(self).body@.len() == old(self).body@.len() + if old(self)._eating_apple {
                1int
            } else {
                0int
            },
            same_cell(final(self).head(), old(self).next_head()),
            final(self).direction == old(self).direction,
            !final(self)._eating_apple,
            final(self).wf(),
    {
        let (x, y) = self.next_head_wide();
        let new_head: Cell = (x as i32, y as i32);
        let ghost body0 = self.body@;
        self.body.insert(0, new_head);
        if !self._eating_apple {
            self.body.pop();
            assert(self.body@ =~= seq![new_head] + body0.drop_last());
        } else {
            self._eating_apple = false;
            assert(self.body@ =~= seq![new_head] + body0);
        }
    }

    /// Whether some segment of the snake is on `loc`.
    pub fn check_collision(&self, loc: Cell) -> (r: bool)
        ensures
            r == self.body@.contains(loc),
    {
        let mut i: usize = 0;
        while i < self.body.len()
            invariant
                i <= self.body@.len(),
                forall|j: int| 0 <= j < i ==> self.body@[j] != loc,
            decreases self.body@.len() - i,
        {
            let (x, y) = self.body[i];
            if x == loc.0 && y == loc.1 {
                return true;
            }
            i += 1;
        }
        false
    }

    /// Whether the head, moved one more cell in the current direction, would
    /// land on a segment other than the current head.
    pub fn check_head_self_collision(&self) -> (r: bool)
        requires
            self.wf(),
        ensures
            r == self.collides_ahead(),
    {
        let (hx, hy) = self.next_head_wide();
        let mut i: usize = 1;
        while i < self.body.len()
            invariant
                1 <= i,
                i <= self.body@.len() || self.body@.len() == 1,
                hx == self.next_head().0,
                hy == self.next_head().1,
                forall|j: int| 1 <= j < i && j < self.body@.len() ==> !same_cell(self.body@[j], self.next_head()),
            decreases self.body@.len() - i,
        {
            let (x, y) = self.body[i];
            if x as i64 == hx && y as i64 == hy {
                return true;
            }
            i += 1;
        }
        false
    }

    /// Whether the apple at `apple_loc` is on the cell the head moves to next;
    /// if so, the snake is marked to grow on its next move.
    pub fn check_apple_in_front(&mut self, apple_loc: Cell) -> (r: bool)
        requires
            old(self).wf(),
        ensures
            r == same_cell(apple_loc, old(self).next_head()),
            final(self)._eating_apple == (old(self)._eating_apple || r),
            final(self).body == old(self).body,
            final(self).direction == old(self).direction,
    {
        let (x, y) = self.next_head_wide();
        if apple_loc.0 as i64 == x && apple_loc.1 as i64 == y {
            self._eating_apple = true;
            return true;
        }
        false
    }
}

/// A snake of two segments never runs into itself when it does not move
/// back onto its second segment.
pub proof fn lemma_pair_never_collides(s: Snake)
    requires
        s.body@.len() == 2,
        !same_cell(s.body@[1], s.next_head()),
    ensures
        !s.collides_ahead(),
{
}

} // verus!
