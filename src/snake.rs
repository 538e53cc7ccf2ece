//! The snake: its body, its heading, and one tick of movement.

use crate::food::Food;
use crate::grid::{adjacent, in_grid, lemma_moved_in_grid, lemma_moved_leaves, moved, step, Cell, Direction};
use vstd::prelude::*;

verus! {

/// What the snake's head ran into on the last tick.
#[derive(Clone, Copy, Debug, PartialEq, Eq, Structural)]
pub enum Ate {
    /// Its own body.
    Snake,
    /// The food.
    Food,
}

/// A body is well formed: non-empty, on the field, each cell one step from the
/// next one.
pub open spec fn body_wf(b: Seq<Cell>) -> bool {
    &&& b.len() > 0
    &&& forall|i: int| 0 <= i < b.len() ==> #[trigger] in_grid(b[i])
    &&& forall|i: int| 0 <= i < b.len() - 1 ==> adjacent(#[trigger] b[i], b[i + 1])
}

/// The body a new snake starts with, head first.
pub open spec fn initial_body() -> Seq<Cell> {
    seq![(5i32, 5i32), (4i32, 5i32), (3i32, 5i32)]
}

/// What the head runs into when the snake with body `b` takes a step in
/// direction `d` while food lies on `food`. Running into its body (as it was
/// before the step) outweighs finding food there.
pub open spec fn tick_event(b: Seq<Cell>, d: Direction, food: Cell) -> Option<Ate> {
    let head = moved(b[0], d);
    if b.contains(head) {
        Some(Ate::Snake)
    } else if head == food {
        Some(Ate::Food)
    } else {
        None
    }
}

/// The body after that step: the new head in front; the tail stays only where
/// the food was eaten.
pub open spec fn tick_body(b: Seq<Cell>, d: Direction, food: Cell) -> Seq<Cell> {
    let head = moved(b[0], d);
    if tick_event(b, d, food) == Some(Ate::Food) {
        seq![head] + b
    } else {
        seq![head] + b.drop_last()
    }
}

/// A step keeps every cell of a well-formed body on the field, and keeps the
/// body well formed, whatever the direction and wherever the food lies.
pub proof fn lemma_tick_in_grid(b: Seq<Cell>, d: Direction, food: Cell)
    requires
        body_wf(b),
    ensures
        body_wf(tick_body(b, d, food)),
        forall|i: int|
            0 <= i < tick_body(b, d, food).len() ==> #[trigger] in_grid(tick_body(b, d, food)[i]),
{
    let nb = tick_body(b, d, food);
    lemma_moved_in_grid(b[0], d);
    assert forall|i: int| 0 <= i < nb.len() implies #[trigger] in_grid(nb[i]) by {
        if i > 0 {
            assert(nb[i] == b[i - 1]);
        }
    }
    assert forall|i: int| 0 <= i < nb.len() - 1 implies adjacent(#[trigger] nb[i], nb[i + 1]) by {
        if i > 0 {
            assert(nb[i] == b[i - 1]);
            assert(nb[i + 1] == b[i]);
        }
    }
}

/// A plain step, or one into the snake itself, keeps the body's length; eating
/// the food lengthens it by exactly one cell.
pub proof fn lemma_tick_length(b: Seq<Cell>, d: Direction, food: Cell)
    requires
        body_wf(b),
    ensures
        tick_event(b, d, food) == Some(Ate::Food) ==> tick_body(b, d, food).len() == b.len() + 1,
        tick_event(b, d, food) != Some(Ate::Food) ==> tick_body(b, d, food).len() == b.len(),
{
}

/// The snake runs into itself exactly when the new head lands on a cell of the
/// body as it was before the step; as the head always moves, that is a cell
/// behind the old head.
pub proof fn lemma_self_collision_iff(b: Seq<Cell>, d: Direction, food: Cell)
    requires
        body_wf(b),
    ensures
        tick_event(b, d, food) == Some(Ate::Snake) <==> (exists|i: int|
            0 <= i < b.len() && #[trigger] b[i] == moved(b[0], d)),
        tick_event(b, d, food) == Some(Ate::Snake) <==> (exists|i: int|
            1 <= i < b.len() && #[trigger] b[i] == moved(b[0], d)),
{
    lemma_moved_leaves(b[0], d);
    assert(in_grid(b[0]));
}

/// The snake, its body head first.
pub struct Snake {
    pub body: Vec<Cell>,
    pub direction: Direction,
    pub ate: Option<Ate>,
}

/// `c` is one of the cells of `v`.
fn holds_cell(v: &Vec<Cell>, c: Cell) -> (r: bool)
    ensures
        r == v@.contains(c),
{
    let mut i: usize = 0;
    while i < v.len()
        invariant
            0 <= i <= v.len(),
            forall|j: int| 0 <= j < i ==> v@[j] != c,
        decreases v.len() - i,
    {
        if v[i].0 == c.0 && v[i].1 == c.1 {
            return true;
        }
        i = i + 1;
    }
    false
}

impl Snake {
    /// The snake is well formed.
    pub open spec fn wf(&self) -> bool {
        body_wf(self.body@)
    }

    /// A snake of three cells at the left of the field, heading right.
    pub fn new() -> (r: Snake)
        ensures
            r.body@ == initial_body(),
            r.direction == Direction::Right,
            r.ate == None::<Ate>,
            r.wf(),
    {
        let body: Vec<Cell> = vec![(5, 5), (4, 5), (3, 5)];
        let r = Snake { body, direction: Direction::Right, ate: None };
        assert(r.body@ =~= initial_body());
        r
    }

    /// Heads the snake in `direction` from the next tick on.
    pub fn set_direction(&mut self, direction: Direction)
        ensures
            final(self).direction == direction,
            final(self).body@ == old(self).body@,
            final(self).ate == old(self).ate,
    {
        self.direction = direction;
    }

    /// Advances the snake one tick: the head steps in the current direction,
    /// wrapping around the edges; `ate` records what it ran into, checked
    /// against the body before the step; the body grows by one cell where the
    /// food was eaten and keeps its length otherwise.
    pub fn update(&mut self, food: &Food)
        requires
            old(self).wf(),
        ensures
            final(self).wf(),
            final(self).body@ == tick_body(old(self).body@, old(self).direction, food.cell()),
            final(self).ate == tick_event(old(self).body@, old(self).direction, food.cell()),
            final(self).direction == old(self).direction,
    {
        let ghost b = self.body@;
        let prev_head = self.body[0];
        let head = step(prev_head, self.direction);

        self.ate = None;
        if head.0 == food.x && head.1 == food.y {
            self.ate = Some(Ate::Food);
        }
        if holds_cell(&self.body, head) {
            self.ate = Some(Ate::Snake);
        }

        self.body.insert(0, head);
        match self.ate {
            Some(Ate::Food) => {},
            _ => {
                self.body.pop();
            },
        }
        proof {
            let nb = tick_body(b, self.direction, food.cell());
            assert(self.body@ =~= nb);
            assert forall|i: int| 0 <= i < nb.len() - 1 implies adjacent(#[trigger] nb[i], nb[i + 1]) by {
                if i > 0 {
                    assert(nb[i] == b[i - 1]);
                    assert(nb[i + 1] == b[i]);
                }
            }
        }
    }
}

} // verus!
