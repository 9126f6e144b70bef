use vstd::prelude::*;
use crate::coords::{Coordinates, body_contains, is_colliding};
use crate::food::{Food, in_bounds};
use crate::snake::{GameKey, Snake, committed_direction, key_direction};

verus! {

/// Session state: the game runs until the snake bites itself.
#[derive(Clone, Copy, PartialEq, Eq, Structural, Debug)]
pub enum GameStatus {
    Running,
    Terminated,
}

/// The whole game: snake, food and session state.
pub struct App {
    pub snake: Snake,
    pub food: Food,
    pub status: GameStatus,
}

impl App {
    /// Well-formed: a well-formed snake and in-bounds food.
    pub open spec fn wf(&self) -> bool {
        &&& self.snake.wf()
        &&& in_bounds(self.food.pos)
    }

    /// A fresh game: three segments heading right from (4,4), food at a
    /// uniformly-drawn grid cell, session running.
    pub fn new() -> (app: App)
        ensures
            app.wf(),
            app.status == GameStatus::Running,
            app.snake.snake_parts@ == seq![
                (Coordinates { x: 4, y: 4 }),
                (Coordinates { x: 3, y: 4 }),
                (Coordinates { x: 2, y: 4 }),
            ],
            app.snake.pos == (Coordinates { x: 4, y: 4 }),
            app.snake.direction == (Coordinates { x: 1, y: 0 }),
            app.snake.new_direction == (Coordinates { x: 1, y: 0 }),
    {
        let mut snake_parts: Vec<Coordinates> = Vec::new();
        snake_parts.push(Coordinates { x: 4, y: 4 });
        snake_parts.push(Coordinates { x: 3, y: 4 });
        snake_parts.push(Coordinates { x: 2, y: 4 });
        proof {
            assert(snake_parts@ =~= seq![
                Coordinates { x: 4, y: 4 },
                Coordinates { x: 3, y: 4 },
                Coordinates { x: 2, y: 4 },
            ]);
        }
        App {
            snake: Snake {
                snake_parts,
                direction: Coordinates { x: 1, y: 0 },
                new_direction: Coordinates { x: 1, y: 0 },
                pos: Coordinates { x: 4, y: 4 },
            },
            food: Food::new(),
            status: GameStatus::Running,
        }
    }

    /// One simulation tick. A terminated game stays exactly as it is; a
    /// running game moves the snake under the committed direction, ends the
    /// session when a shifted segment meets the new head, and otherwise, if
    /// the new head reached the food, appends the off-grid tail sentinel
    /// (pulled onto the board by the next shift pass) and respawns the food.
    /// The body never shrinks.
    pub fn update(&mut self)
        requires
            old(self).wf(),
            old(self).status == GameStatus::Running ==> {
                &&& i32::MIN < old(self).snake.pos.x < i32::MAX
                &&& i32::MIN < old(self).snake.pos.y < i32::MAX
            },
        ensures
            final(self).wf(),
            old(self).status == GameStatus::Terminated ==> *final(self) == *old(self),
            old(self).status == GameStatus::Running ==> {
                let dir = committed_direction(old(self).snake.direction, old(self).snake.new_direction);
                let shifted = seq![final(self).snake.pos] + old(self).snake.snake_parts@.drop_last();
                let bitten = body_contains(old(self).snake.snake_parts@.drop_last(), final(self).snake.pos);
                &&& final(self).snake.direction == dir
                &&& final(self).snake.new_direction == old(self).snake.new_direction
                &&& final(self).snake.pos.x == old(self).snake.pos.x + dir.x
                &&& final(self).snake.pos.y == old(self).snake.pos.y + dir.y
                &&& bitten ==> {
                    &&& final(self).status == GameStatus::Terminated
                    &&& final(self).snake.snake_parts@ == shifted
                    &&& final(self).food.pos == old(self).food.pos
                }
                &&& !bitten ==> {
                    &&& final(self).status == GameStatus::Running
                    &&& (final(self).snake.pos == old(self).food.pos ==> {
                        &&& final(self).snake.snake_parts@ == shifted.push(Coordinates { x: -1i32, y: -1i32 })
                        &&& final(self).snake.snake_parts@.len() == old(self).snake.snake_parts@.len() + 1
                    })
                    &&& (final(self).snake.pos != old(self).food.pos ==> {
                        &&& final(self).snake.snake_parts@ == shifted
                        &&& final(self).food.pos == old(self).food.pos
                    })
                }
            },
            final(self).snake.snake_parts@.len() >= old(self).snake.snake_parts@.len(),
    {
        if self.status == GameStatus::Terminated {
            return;
        }
        let collided = self.snake.update();
        if collided {
            self.status = GameStatus::Terminated;
            return;
        }
        if is_colliding(&self.snake.pos, &self.food.pos) {
            self.snake.snake_parts.push(Coordinates { x: -1, y: -1 });
            self.food.new_pos();
        }
    }

    /// Record a key press as the snake's pending direction for the next
    /// tick; nothing else changes.
    pub fn pressed(&mut self, key: &GameKey)
        ensures
            final(self).snake.new_direction == key_direction(*key, old(self).snake.new_direction),
            final(self).snake.direction == old(self).snake.direction,
            final(self).snake.pos == old(self).snake.pos,
            final(self).snake.snake_parts@ == old(self).snake.snake_parts@,
            final(self).food.pos == old(self).food.pos,
            final(self).status == old(self).status,
            old(self).wf() ==> final(self).wf(),
    {
        self.snake.pressed(key);
    }
}

} // verus!
