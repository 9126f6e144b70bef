use vstd::prelude::*;
use vstd::pervasive::VecAdditionalExecFns;
use crate::coords::{Coordinates, body_contains, is_colliding, is_direction, is_opposite};

verus! {

/// A key press as the game core sees it: one of the four arrow keys, or any
/// other key.
#[derive(Clone, Copy, PartialEq, Eq, Structural, Debug)]
pub enum GameKey {
    Up,
    Down,
    Left,
    Right,
    Other,
}

/// The pending direction after a key press: an arrow key is recorded
/// unconditionally (the reversal guard runs later, at commit time); any
/// other key leaves the pending direction as it was.
pub open spec fn key_direction(key: GameKey, pending: Coordinates) -> Coordinates {
    match key {
        GameKey::Up => Coordinates { x: 0, y: -1i32 },
        GameKey::Down => Coordinates { x: 0, y: 1 },
        GameKey::Left => Coordinates { x: -1i32, y: 0 },
        GameKey::Right => Coordinates { x: 1, y: 0 },
        GameKey::Other => pending,
    }
}

/// The direction a tick actually follows: the pending direction, unless it
/// would reverse the current heading on the spot, in which case the current
/// heading is kept.
pub open spec fn committed_direction(current: Coordinates, pending: Coordinates) -> Coordinates {
    if is_direction(pending) && !is_opposite(pending, current) {
        pending
    } else {
        current
    }
}

/// Reversal guard: a pending direction that exactly negates the current one
/// is rejected at commit time, and the current direction stands.
pub proof fn lemma_reversal_guard(current: Coordinates, pending: Coordinates)
    requires
        is_direction(current),
        is_direction(pending),
        is_opposite(pending, current),
    ensures
        committed_direction(current, pending) == current,
{
}

/// The snake: its body head-first, the committed heading, the pending
/// heading recorded from input, and the head cell.
pub struct Snake {
    pub snake_parts: Vec<Coordinates>,
    pub direction: Coordinates,
    pub new_direction: Coordinates,
    pub pos: Coordinates,
}

impl Snake {
    /// Well-formed: a non-empty body whose first segment is the head, with
    /// unit-vector current and pending headings.
    pub open spec fn wf(&self) -> bool {
        &&& self.snake_parts@.len() >= 1
        &&& self.snake_parts@[0] == self.pos
        &&& is_direction(self.direction)
        &&& is_direction(self.new_direction)
    }

    /// One movement tick: commit the pending direction under the reversal
    /// guard, move the head one cell that way, shift every other segment
    /// into its predecessor's old cell, and report whether some shifted
    /// segment landed on the new head cell.
    pub fn update(&mut self) -> (collided: bool)
        requires
            old(self).wf(),
            i32::MIN < old(self).pos.x < i32::MAX,
            i32::MIN < old(self).pos.y < i32::MAX,
        ensures
            final(self).wf(),
            final(self).direction == committed_direction(old(self).direction, old(self).new_direction),
            final(self).new_direction == old(self).new_direction,
            final(self).pos.x == old(self).pos.x + final(self).direction.x,
            final(self).pos.y == old(self).pos.y + final(self).direction.y,
            final(self).snake_parts@ == seq![final(self).pos] + old(self).snake_parts@.drop_last(),
            collided <==> body_contains(old(self).snake_parts@.drop_last(), final(self).pos),
    {
        self.direction = match self.new_direction {
            Coordinates { x: 1, y: 0 } if self.direction.x != -1 => Coordinates { x: 1, y: 0 },
            Coordinates { x: -1, y: 0 } if self.direction.x != 1 => Coordinates { x: -1, y: 0 },
            Coordinates { x: 0, y: 1 } if self.direction.y != -1 => Coordinates { x: 0, y: 1 },
            Coordinates { x: 0, y: -1 } if self.direction.y != 1 => Coordinates { x: 0, y: -1 },
            _ => self.direction,
        };

        let new_pos = Coordinates { x: self.pos.x + self.direction.x, y: self.pos.y + self.direction.y };
        self.pos = new_pos;

        let ghost old_body = self.snake_parts@;
        let mut collided = false;
        let len: usize = self.snake_parts.len();
        let mut i: usize = len - 1;
        while i > 0
            invariant
                1 <= len,
                len == self.snake_parts@.len(),
                len == old_body.len(),
                i < len,
                self.pos == new_pos,
                self.direction == committed_direction(old(self).direction, old(self).new_direction),
                self.new_direction == old(self).new_direction,
                forall|j: int| 0 <= j <= i ==> self.snake_parts@[j] == old_body[j],
                forall|j: int| i < j < len ==> self.snake_parts@[j] == old_body[j - 1],
                collided <==> exists|k: int| i <= k < len - 1 && #[trigger] old_body[k] == new_pos,
            decreases i,
        {
            let moved = self.snake_parts[i - 1];
            proof {
                assert(moved == old_body[i - 1]);
            }
            self.snake_parts.set(i, moved);
            if is_colliding(&moved, &new_pos) {
                collided = true;
            }
            i = i - 1;
        }
        self.snake_parts.set(0, new_pos);

        proof {
            assert(self.snake_parts@ =~= seq![new_pos] + old_body.drop_last());
            assert(collided <==> body_contains(old_body.drop_last(), new_pos)) by {
                if collided {
                    let k = choose|k: int| 0 <= k < len - 1 && #[trigger] old_body[k] == new_pos;
                    assert(old_body.drop_last()[k] == new_pos);
                }
                if body_contains(old_body.drop_last(), new_pos) {
                    let k = choose|k: int| 0 <= k < len - 1 && old_body.drop_last()[k] == new_pos;
                    assert(old_body[k] == new_pos);
                }
            }
        }
        collided
    }

    /// Record a key press as the pending direction; the current heading and
    /// the body are untouched.
    pub fn pressed(&mut self, key: &GameKey)
        ensures
            final(self).new_direction == key_direction(*key, old(self).new_direction),
            final(self).direction == old(self).direction,
            final(self).pos == old(self).pos,
            final(self).snake_parts@ == old(self).snake_parts@,
            old(self).wf() ==> final(self).wf(),
    {
        self.new_direction = match key {
            GameKey::Up => Coordinates { x: 0, y: -1 },
            GameKey::Down => Coordinates { x: 0, y: 1 },
            GameKey::Left => Coordinates { x: -1, y: 0 },
            GameKey::Right => Coordinates { x: 1, y: 0 },
            GameKey::Other => self.new_direction,
        };
    }

    /// Linear scan: does any body segment occupy `pos`?
    pub fn is_colliding(&self, pos: Coordinates) -> (r: bool)
        ensures
            r <==> body_contains(self.snake_parts@, pos),
    {
        let mut i: usize = 0;
        while i < self.snake_parts.len()
            invariant
                i <= self.snake_parts@.len(),
                forall|j: int| 0 <= j < i ==> self.snake_parts@[j] != pos,
            decreases self.snake_parts@.len() - i,
        {
            let segment = self.snake_parts[i];
            if is_colliding(&segment, &pos) {
                return true;
            }
            i = i + 1;
        }
        false
    }
}

} // verus!
