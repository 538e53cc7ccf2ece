//! Cells of the toroidal playing field, directions and movement.

use modulo::Mod;
use vstd::prelude::*;

verus! {

/// Number of columns of the playing field.
pub const GRID_WIDTH: i32 = 20;

/// Number of rows of the playing field.
pub const GRID_HEIGHT: i32 = 20;

/// Side of one cell on screen, in pixels.
pub const GRID_CELL_SIZE: i32 = 25;

/// A cell of the field, as (column, row).
pub type Cell = (i32, i32);

#[derive(Clone, Copy, Debug, PartialEq, Eq, Structural)]
pub enum Direction {
    Left,
    Right,
    Up,
    Down,
}

/// The cell lies on the field.
pub open spec fn in_grid(c: Cell) -> bool {
    &&& 0 <= c.0 < GRID_WIDTH
    &&& 0 <= c.1 < GRID_HEIGHT
}

/// The cell one step from `c` in direction `d`, wrapping around the edges.
pub open spec fn moved(c: Cell, d: Direction) -> Cell {
    match d {
        Direction::Left => (((c.0 - 1) % (GRID_WIDTH as int)) as i32, c.1),
        Direction::Right => (((c.0 + 1) % (GRID_WIDTH as int)) as i32, c.1),
        Direction::Up => (c.0, ((c.1 - 1) % (GRID_HEIGHT as int)) as i32),
        Direction::Down => (c.0, ((c.1 + 1) % (GRID_HEIGHT as int)) as i32),
    }
}

/// `a` is one step away from `b` in some direction.
pub open spec fn adjacent(a: Cell, b: Cell) -> bool {
    ||| a == moved(b, Direction::Left)
    ||| a == moved(b, Direction::Right)
    ||| a == moved(b, Direction::Up)
    ||| a == moved(b, Direction::Down)
}

/// Relies on modulo::Mod::modulo: for a positive modulus it returns the
/// remainder of `a` by `n` in `0..n` (`a % n`, plus `n` when that is negative).
#[verifier::external_body]
fn wrap(a: i32, n: i32) -> (r: i32)
    requires
        n > 0,
    ensures
        r as int == a as int % n as int,
{
    a.modulo(n)
}

/// The cell one step from `c` in direction `d`, wrapping around the edges.
pub fn step(c: Cell, d: Direction) -> (r: Cell)
    requires
        in_grid(c),
    ensures
        r == moved(c, d),
        in_grid(r),
{
    match d {
        Direction::Left => (wrap(c.0 - 1, GRID_WIDTH), c.1),
        Direction::Right => (wrap(c.0 + 1, GRID_WIDTH), c.1),
        Direction::Up => (c.0, wrap(c.1 - 1, GRID_HEIGHT)),
        Direction::Down => (c.0, wrap(c.1 + 1, GRID_HEIGHT)),
    }
}

/// Position and size on screen, in pixels, of the square that shows cell `c`:
/// (left, top, width, height).
pub fn cell_rect(c: Cell) -> (r: (i32, i32, i32, i32))
    requires
        in_grid(c),
    ensures
        r.0 == c.0 * GRID_CELL_SIZE,
        r.1 == c.1 * GRID_CELL_SIZE,
        r.2 == GRID_CELL_SIZE,
        r.3 == GRID_CELL_SIZE,
{
    (c.0 * GRID_CELL_SIZE, c.1 * GRID_CELL_SIZE, GRID_CELL_SIZE, GRID_CELL_SIZE)
}

/// Every step, from any cell of the field and in any direction, lands on the field.
pub proof fn lemma_moved_in_grid(c: Cell, d: Direction)
    requires
        in_grid(c),
    ensures
        in_grid(moved(c, d)),
{
}

/// A step from a cell of the field never stays on that cell.
pub proof fn lemma_moved_leaves(c: Cell, d: Direction)
    requires
        in_grid(c),
    ensures
        moved(c, d) != c,
{
}

} // verus!
