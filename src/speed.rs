//! Speed progression by rally length, and the distance travelled in a frame.
use vstd::prelude::*;
use crate::geometry::{in_limit, LIMIT};

verus! {

/// Microseconds in one second.
pub const MICROS_PER_SECOND: u64 = 1_000_000;

/// A multiplier is counted in tenths: 10 stands for 1.0.
pub const TENTHS: u64 = 10;

/// Largest multiplier, in tenths.
pub const MAX_MULTIPLIER: u32 = 21;

/// Per-axis speed multipliers, in tenths.
#[derive(Clone, Copy, Debug, PartialEq, Eq, Structural)]
pub struct SpeedMultiplier {
    pub x: u32,
    pub y: u32,
}

/// The tiered speed policy: only the horizontal speed grows with the rally.
pub open spec fn speed_multiplier(bounces: int) -> SpeedMultiplier {
    if bounces <= 3 {
        SpeedMultiplier { x: 10, y: 10 }
    } else if bounces <= 11 {
        SpeedMultiplier { x: 16, y: 10 }
    } else {
        SpeedMultiplier { x: 21, y: 10 }
    }
}

/// The speed multiplier after `bounce_count` paddle hits in the current rally:
/// 1.0 on both axes up to 3 hits, 1.6 horizontally from 4 to 11, 2.1 from 12 on.
pub fn get_speed_multiplier(bounce_count: u32) -> (r: SpeedMultiplier)
    ensures
        r == speed_multiplier(bounce_count as int),
        bounce_count <= 3 ==> r.x == 10 && r.y == 10,
        4 <= bounce_count <= 11 ==> r.x == 16 && r.y == 10,
        12 <= bounce_count ==> r.x == 21 && r.y == 10,
{
    if bounce_count <= 3 {
        SpeedMultiplier { x: 10, y: 10 }
    } else if bounce_count <= 11 {
        SpeedMultiplier { x: 16, y: 10 }
    } else {
        SpeedMultiplier { x: 21, y: 10 }
    }
}

/// Divisor that turns speed (sub-units per second) times microseconds times
/// tenths into sub-units.
pub open spec fn step_divisor() -> int {
    MICROS_PER_SECOND * TENTHS
}

/// Distance covered in `dt` microseconds at speed `v` scaled by `tenths`,
/// rounded toward zero so that both directions move alike.
pub open spec fn displacement(v: int, dt: int, tenths: int) -> int {
    if v >= 0 {
        (v * dt * tenths) / step_divisor()
    } else {
        -(((-v) * dt * tenths) / step_divisor())
    }
}

/// Bound on the distance of one frame: `LIMIT * u32::MAX * MAX_MULTIPLIER / step_divisor()`
/// is below it.
pub const MAX_STEP: i64 = 0x40_0000_0000_0000;

/// `displacement` for machine integers.
pub fn frame_displacement(v: i64, dt_micros: u32, tenths: u32) -> (d: i64)
    requires
        in_limit(v as int),
        tenths <= MAX_MULTIPLIER,
    ensures
        d == displacement(v as int, dt_micros as int, tenths as int),
        -MAX_STEP <= d <= MAX_STEP,
{
    let mag: u128 = if v >= 0 { v as u128 } else { (-v) as u128 };
    proof {
        assert(mag <= LIMIT);
        assert(mag * (dt_micros as int) <= LIMIT * 0xffff_ffff) by (nonlinear_arith)
            requires mag <= LIMIT, dt_micros <= 0xffff_ffffu32;
        assert(mag * (dt_micros as int) * (tenths as int) <= LIMIT * 0xffff_ffff * 21) by (nonlinear_arith)
            requires mag * (dt_micros as int) <= LIMIT * 0xffff_ffff, tenths <= 21, mag * (dt_micros as int) >= 0;
    }
    let prod: u128 = mag * (dt_micros as u128) * (tenths as u128);
    let q: u128 = prod / 10_000_000;
    proof {
        assert(q <= prod / 10_000_000);
        assert(prod / 10_000_000 <= (LIMIT * 0xffff_ffff * 21) / 10_000_000) by (nonlinear_arith)
            requires prod <= LIMIT * 0xffff_ffff * 21;
        assert((LIMIT * 0xffff_ffff * 21) / 10_000_000 <= MAX_STEP) by (nonlinear_arith);
    }
    if v >= 0 {
        q as i64
    } else {
        -(q as i64)
    }
}

} // verus!
