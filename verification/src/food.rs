use vstd::prelude::*;
use crate::coords::Coordinates;
use crate::rng::rand_below;

verus! {

/// Grid width, in tiles.
pub const ROWS: i32 = 16;

/// Grid height, in tiles.
pub const COLS: i32 = 16;

/// Inside the visible grid.
pub open spec fn in_bounds(c: Coordinates) -> bool {
    0 <= c.x < ROWS && 0 <= c.y < COLS
}

/// The food pellet: a single in-bounds grid cell.
pub struct Food {
    pub pos: Coordinates,
}

impl Food {
    /// Food starts at a uniformly-drawn grid cell.
    pub fn new() -> (f: Food)
        ensures
            in_bounds(f.pos),
    {
        Food { pos: Coordinates { x: rand_below(ROWS), y: rand_below(COLS) } }
    }

    /// Respawn at a uniformly-drawn grid cell. The snake body is not
    /// consulted, so food may land under the snake.
    pub fn new_pos(&mut self)
        ensures
            in_bounds(final(self).pos),
    {
        self.pos = Coordinates { x: rand_below(ROWS), y: rand_below(COLS) };
    }
}

} // verus!
