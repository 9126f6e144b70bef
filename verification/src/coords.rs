use vstd::prelude::*;

verus! {

/// A grid cell, in tile units (not pixels). Either component may leave the
/// visible grid: the board has no walls.
#[derive(Clone, Copy, PartialEq, Eq, Structural, Debug)]
pub struct Coordinates {
    pub x: i32,
    pub y: i32,
}

/// The four unit vectors a snake may head in.
pub open spec fn is_direction(c: Coordinates) -> bool {
    ||| (c.x == 1 && c.y == 0)
    ||| (c.x == -1 && c.y == 0)
    ||| (c.x == 0 && c.y == 1)
    ||| (c.x == 0 && c.y == -1)
}

/// Exact reversal: each component of `a` is the negation of `b`'s.
pub open spec fn is_opposite(a: Coordinates, b: Coordinates) -> bool {
    a.x == -b.x && a.y == -b.y
}

/// Some segment of `body` occupies `point`.
pub open spec fn body_contains(body: Seq<Coordinates>, point: Coordinates) -> bool {
    exists|i: int| 0 <= i < body.len() && body[i] == point
}

/// Two cells collide exactly when both components agree.
pub fn is_colliding(pos1: &Coordinates, pos2: &Coordinates) -> (r: bool)
    ensures
        r <==> *pos1 == *pos2,
{
    pos1.x == pos2.x && pos1.y == pos2.y
}

} // verus!
