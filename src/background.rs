//! Layout of the dotted line down the middle of the field.
use vstd::prelude::*;

verus! {

/// The `k`-th dot of the centre line: dots stand at the even steps of
/// `[-half_count, half_count)`, each step `spacing` sub-units tall.
pub open spec fn dot_offset(half_count: int, spacing: int, k: int) -> int {
    (-half_count + half_count % 2 + 2 * k) * spacing
}

/// Vertical offsets of the centre line's dots, lowest first: `y * spacing` for
/// every even `y` with `-half_count <= y < half_count`, of which there are
/// `half_count`.
pub fn center_line_dots(half_count: i64, spacing: i64) -> (r: Vec<i64>)
    requires
        0 <= half_count,
        0 <= spacing,
        half_count * spacing <= i64::MAX,
    ensures
        r@.len() == half_count,
        forall|k: int| 0 <= k < r@.len() ==> r@[k] == dot_offset(half_count as int, spacing as int, k),
{
    let mut dots: Vec<i64> = Vec::new();
    let first: i64 = -half_count + half_count % 2;
    let mut k: i64 = 0;
    while k < half_count
        invariant
            0 <= half_count,
            0 <= spacing,
            half_count * spacing <= i64::MAX,
            first == -half_count + half_count % 2,
            0 <= k <= half_count,
            dots@.len() == k,
            forall|j: int| 0 <= j < k ==> dots@[j] == dot_offset(half_count as int, spacing as int, j),
        decreases half_count - k,
    {
        let y: i64 = (first as i128 + 2 * (k as i128)) as i64;
        proof {
            assert(-half_count <= y < half_count);
            assert(-(half_count * spacing) <= y * spacing <= half_count * spacing) by (nonlinear_arith)
                requires -half_count <= y <= half_count, 0 <= spacing;
        }
        dots.push(y * spacing);
        k = k + 1;
    }
    dots
}

} // verus!
