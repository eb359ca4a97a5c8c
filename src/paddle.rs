//! The two paddles: where they start, and how input moves them.
use vstd::prelude::*;
use crate::field::Field;
use crate::geometry::{length_in_limit, Extent, Point, LIMIT, SUBUNITS};
use crate::speed::MICROS_PER_SECOND;

verus! {

/// Half the height of a paddle, in sub-units (28 world units tall).
pub const PADDLE_HALF_HEIGHT: i64 = 14 * SUBUNITS;

/// Half the width of a paddle, in sub-units (9 world units wide: 4.5 on each side).
pub const PADDLE_HALF_WIDTH: i64 = 4500;

/// Paddle speed, in sub-units per second.
pub const PADDLE_SPEED: i64 = 500 * SUBUNITS;

/// Gap between a paddle and its edge of the screen, in sub-units.
pub const PADDLE_OFFSET: i64 = 40 * SUBUNITS;

/// A paddle: its centre and its half-extents.
#[derive(Clone, Copy, Debug, PartialEq, Eq, Structural)]
pub struct Paddle {
    pub pos: Point,
    pub size: Extent,
}

impl Paddle {
    pub open spec fn wf(&self) -> bool {
        self.pos.wf() && self.size.wf()
    }

    /// Whether the paddle's values are within the game's range.
    pub fn in_range(&self) -> (r: bool)
        ensures
            r == self.wf(),
    {
        self.pos.in_range() && self.size.in_range()
    }
}

/// The left paddle at the start: a paddle's width plus `offset` in from the
/// left edge, vertically centred.
pub fn spawn_left_paddle(field: Field, size: Extent, offset: i64) -> (r: Paddle)
    requires
        field.wf(),
        size.wf(),
        length_in_limit(offset as int),
    ensures
        r.pos.x == -field.half_w + 2 * size.half_w + offset,
        r.pos.y == 0,
        r.size == size,
{
    Paddle { pos: Point { x: -field.half_w + 2 * size.half_w + offset, y: 0 }, size }
}

/// The right paddle at the start: a paddle's width plus `offset` in from the
/// right edge, vertically centred.
pub fn spawn_right_paddle(field: Field, size: Extent, offset: i64) -> (r: Paddle)
    requires
        field.wf(),
        size.wf(),
        length_in_limit(offset as int),
    ensures
        r.pos.x == field.half_w - 2 * size.half_w - offset,
        r.pos.y == 0,
        r.size == size,
{
    Paddle { pos: Point { x: field.half_w - 2 * size.half_w - offset, y: 0 }, size }
}

/// Distance moved in `dt` microseconds at `speed` sub-units per second.
pub open spec fn travel(speed: int, dt: int) -> int {
    (speed * dt) / (MICROS_PER_SECOND as int)
}

/// The new height of a paddle at `y`: up by `amount` but not above `bound`,
/// then down by `amount` but not below `-bound`, as the keys ask.
pub open spec fn steered(y: int, up: bool, down: bool, amount: int, bound: int) -> int {
    let raised = if up {
        if y + amount <= bound { y + amount } else { bound }
    } else {
        y
    };
    if down {
        if raised - amount >= -bound { raised - amount } else { -bound }
    } else {
        raised
    }
}

/// Moves a paddle for one frame: `up` and `down` say which keys are held.
/// The paddle's centre stays within the field's half-height less its own.
pub fn move_paddle(paddle: &mut Paddle, up: bool, down: bool, dt_micros: u32, speed: i64, field: Field)
    requires
        old(paddle).wf(),
        field.wf(),
        length_in_limit(speed as int),
    ensures
        final(paddle).pos.y == steered(
            old(paddle).pos.y as int,
            up,
            down,
            travel(speed as int, dt_micros as int),
            field.half_h - old(paddle).size.half_h,
        ),
        final(paddle).pos.x == old(paddle).pos.x,
        final(paddle).size == old(paddle).size,
        final(paddle).wf(),
{
    let bound: i64 = field.half_h - paddle.size.half_h;
    proof {
        assert(speed * (dt_micros as int) <= LIMIT * 0xffff_ffff) by (nonlinear_arith)
            requires 0 <= speed <= LIMIT, dt_micros <= 0xffff_ffffu32;
        assert(speed * (dt_micros as int) >= 0) by (nonlinear_arith)
            requires 0 <= speed, 0 <= dt_micros;
    }
    let amount: i64 = ((speed as u128) * (dt_micros as u128) / (MICROS_PER_SECOND as u128)) as i64;
    if up {
        let raised: i64 = paddle.pos.y + amount;
        paddle.pos.y = if raised <= bound { raised } else { bound };
    }
    if down {
        let lowered: i64 = paddle.pos.y - amount;
        paddle.pos.y = if lowered >= -bound { lowered } else { -bound };
    }
}

} // verus!
