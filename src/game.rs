//! The whole game: one snake and one piece of food.

use crate::food::Food;
use crate::grid::{in_grid, Direction};
use crate::snake::{initial_body, tick_body, tick_event, Ate, Snake};
use vstd::prelude::*;

verus! {

/// The state of a game.
pub struct GameState {
    pub snake: Snake,
    pub food: Food,
}

impl GameState {
    /// The state is well formed: a well-formed snake, and food on the field.
    pub open spec fn wf(&self) -> bool {
        &&& self.snake.wf()
        &&& in_grid(self.food.cell())
    }

    /// The snake is as it starts a game.
    pub open spec fn snake_is_initial(&self) -> bool {
        &&& self.snake.body@ == initial_body()
        &&& self.snake.direction == Direction::Right
        &&& self.snake.ate == None::<Ate>
    }

    /// A new game: a new snake, and food on a cell drawn at random.
    pub fn new() -> (r: GameState)
        ensures
            r.wf(),
            r.snake_is_initial(),
    {
        GameState { snake: Snake::new(), food: Food::new() }
    }

    /// Starts the game over: a new snake, and food on a cell drawn at random.
    pub fn reset(&mut self)
        ensures
            final(self).wf(),
            final(self).snake_is_initial(),
    {
        self.snake = Snake::new();
        self.food = Food::new();
    }

    /// One tick of the game. The snake takes its step; where it ate the food,
    /// new food lies on a cell drawn at random; where it ran into itself, the
    /// game starts over.
    pub fn update(&mut self)
        requires
            old(self).wf(),
        ensures
            final(self).wf(),
            ({
                let b = old(self).snake.body@;
                let d = old(self).snake.direction;
                let f = old(self).food.cell();
                match tick_event(b, d, f) {
                    Some(Ate::Snake) => final(self).snake_is_initial(),
                    Some(Ate::Food) => {
                        &&& final(self).snake.body@ == tick_body(b, d, f)
                        &&& final(self).snake.direction == d
                        &&& final(self).snake.ate == Some(Ate::Food)
                    },
                    None => {
                        &&& final(self).snake.body@ == tick_body(b, d, f)
                        &&& final(self).snake.direction == d
                        &&& final(self).snake.ate == None::<Ate>
                        &&& final(self).food == old(self).food
                    },
                }
            }),
    {
        self.snake.update(&self.food);
        match self.snake.ate {
            Some(Ate::Food) => self.food = Food::new(),
            Some(Ate::Snake) => self.reset(),
            None => {},
        }
    }
}

} // verus!
