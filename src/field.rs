//! The play field: a logical resolution centred on the origin.
use vstd::prelude::*;
use crate::geometry::{length_in_limit, LIMIT, SUBUNITS};

verus! {

/// Horizontal size of the logical screen, in world units.
pub const GRID_WIDTH: i64 = 768;

/// Vertical size of the logical screen, in world units.
pub const GRID_HEIGHT: i64 = 480;

/// Half-extents of the play field, in sub-units: the field spans
/// `[-half_w, half_w] x [-half_h, half_h]`.
#[derive(Clone, Copy, Debug, PartialEq, Eq, Structural)]
pub struct Field {
    pub half_w: i64,
    pub half_h: i64,
}

impl Field {
    pub open spec fn wf(&self) -> bool {
        length_in_limit(self.half_w as int) && length_in_limit(self.half_h as int)
    }

    /// Whether both half-extents are within the game's range.
    pub fn in_range(&self) -> (r: bool)
        ensures
            r == self.wf(),
    {
        0 <= self.half_w && self.half_w <= LIMIT && 0 <= self.half_h && self.half_h <= LIMIT
    }
}

/// Width and height of the logical screen, in sub-units.
pub fn get_screen_size() -> (r: (i64, i64))
    ensures
        r.0 == GRID_WIDTH * SUBUNITS,
        r.1 == GRID_HEIGHT * SUBUNITS,
{
    (GRID_WIDTH * SUBUNITS, GRID_HEIGHT * SUBUNITS)
}

/// The field of the logical screen: half its width and half its height.
pub fn get_half_screen_size() -> (r: Field)
    ensures
        r.half_w == GRID_WIDTH * SUBUNITS / 2,
        r.half_h == GRID_HEIGHT * SUBUNITS / 2,
        r.wf(),
{
    let (width, height) = get_screen_size();
    Field { half_w: width / 2, half_h: height / 2 }
}

} // verus!
