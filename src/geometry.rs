//! Points, rectangle extents and the overlap test between two rectangles.
use vstd::prelude::*;

verus! {

/// Sub-units in one world unit.
pub const SUBUNITS: i64 = 1000;

/// Largest magnitude of a coordinate, extent or speed that the game works with.
pub const LIMIT: i64 = 0x100_0000_0000;

/// A value that the game's arithmetic can hold: its magnitude is at most `LIMIT`.
pub open spec fn in_limit(v: int) -> bool {
    -LIMIT <= v <= LIMIT
}

/// A length that the game's arithmetic can hold: non-negative and at most `LIMIT`.
pub open spec fn length_in_limit(v: int) -> bool {
    0 <= v <= LIMIT
}

/// The centre of a rectangle, in sub-units.
#[derive(Clone, Copy, Debug, PartialEq, Eq, Structural)]
pub struct Point {
    pub x: i64,
    pub y: i64,
}

impl Point {
    pub open spec fn wf(&self) -> bool {
        in_limit(self.x as int) && in_limit(self.y as int)
    }

    /// Whether both coordinates are within the game's range.
    pub fn in_range(&self) -> (r: bool)
        ensures
            r == self.wf(),
    {
        -LIMIT <= self.x && self.x <= LIMIT && -LIMIT <= self.y && self.y <= LIMIT
    }

    /// The field's centre.
    pub fn origin() -> (r: Point)
        ensures
            r.x == 0 && r.y == 0,
    {
        Point { x: 0, y: 0 }
    }
}

/// Half the width and half the height of a rectangle, in sub-units.
#[derive(Clone, Copy, Debug, PartialEq, Eq, Structural)]
pub struct Extent {
    pub half_w: i64,
    pub half_h: i64,
}

impl Extent {
    pub open spec fn wf(&self) -> bool {
        length_in_limit(self.half_w as int) && length_in_limit(self.half_h as int)
    }

    /// Whether both half-extents are within the game's range.
    pub fn in_range(&self) -> (r: bool)
        ensures
            r == self.wf(),
    {
        0 <= self.half_w && self.half_w <= LIMIT && 0 <= self.half_h && self.half_h <= LIMIT
    }
}

/// The rectangles centred at `a` and `b` overlap on both axes; touching edges count.
pub open spec fn overlaps(a: Point, a_size: Extent, b: Point, b_size: Extent) -> bool {
    &&& a.x - a_size.half_w <= b.x + b_size.half_w
    &&& a.x + a_size.half_w >= b.x - b_size.half_w
    &&& a.y + a_size.half_h >= b.y - b_size.half_h
    &&& a.y - a_size.half_h <= b.y + b_size.half_h
}

/// Whether the ball's rectangle and a paddle's rectangle overlap (axis-aligned
/// boxes; edges that touch collide).
pub fn is_colliding(ball_pos: Point, ball_size: Extent, paddle_pos: Point, paddle_size: Extent) -> (r: bool)
    ensures
        r == overlaps(ball_pos, ball_size, paddle_pos, paddle_size),
{
    let bx = ball_pos.x as i128;
    let by = ball_pos.y as i128;
    let bw = ball_size.half_w as i128;
    let bh = ball_size.half_h as i128;
    let px = paddle_pos.x as i128;
    let py = paddle_pos.y as i128;
    let pw = paddle_size.half_w as i128;
    let ph = paddle_size.half_h as i128;
    bx - bw <= px + pw && bx + bw >= px - pw && by + bh >= py - ph && by - bh <= py + ph
}

} // verus!
