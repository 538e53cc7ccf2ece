//! The food that the snake grows on.

use crate::grid::{in_grid, Cell, GRID_HEIGHT, GRID_WIDTH};
use rand::Rng;
use vstd::prelude::*;

verus! {

/// A piece of food, at column `x` and row `y`.
#[derive(Clone, Copy, Debug, PartialEq, Eq, Structural)]
pub struct Food {
    pub x: i32,
    pub y: i32,
}

/// Relies on rand::Rng::gen_range over the thread-local generator: for a
/// non-empty range `0..n` it returns a value in that range (and panics only on an
/// empty one). Which value comes out is chance.
#[verifier::external_body]
fn random_below(n: i32) -> (r: i32)
    requires
        n > 0,
    ensures
        0 <= r < n,
{
    rand::thread_rng().gen_range(0..n)
}

impl Food {
    /// The cell the food lies on.
    pub open spec fn cell(&self) -> Cell {
        (self.x, self.y)
    }

    /// Food on a cell of the field drawn at random.
    pub fn new() -> (r: Food)
        ensures
            in_grid(r.cell()),
    {
        let x = random_below(GRID_WIDTH);
        let y = random_below(GRID_HEIGHT);
        Food { x, y }
    }
}

} // verus!
