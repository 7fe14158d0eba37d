//! A grid snake game: the snake moves one cell per tick, grows by eating
//! apples, and the game starts over when the snake leaves the board or is
//! about to run into itself.

use vstd::prelude::*;

pub mod apple;
pub mod direction;
pub mod snake;
pub mod snake_game;

use crate::snake::Cell;

verus! {

/// Width of the board, in cells.
pub const GRID_X: i32 = 10;

/// Height of the board, in cells.
pub const GRID_Y: i32 = 10;

/// Side of one cell on screen, in pixels.
pub const BLOCK_SIZE: i32 = 20;

/// The pixel at which the square of `cell` starts on screen, when each cell
/// is a square of `block_size` pixels.
pub fn block_origin(cell: Cell, block_size: i32) -> (r: (i64, i64))
    ensures
        r.0 == cell.0 * block_size,
        r.1 == cell.1 * block_size,
{
    let (x, y) = cell;
    let b = block_size as i64;
    assert(-0x4000_0000_0000_0000 <= x as int * b <= 0x4000_0000_0000_0000) by (nonlinear_arith)
        requires -0x8000_0000 <= x <= 0x7fff_ffff, -0x8000_0000 <= b <= 0x7fff_ffff;
    assert(-0x4000_0000_0000_0000 <= y as int * b <= 0x4000_0000_0000_0000) by (nonlinear_arith)
        requires -0x8000_0000 <= y <= 0x7fff_ffff, -0x8000_0000 <= b <= 0x7fff_ffff;
    (x as i64 * b, y as i64 * b)
}

} // verus!
