//! The region of the Minkowski difference that the origin must lie in for a
//! moving box to hit a resting one, chosen by the quadrant of the heading.
//!
//! Point `8 * k + m` of the difference is the `k`-th negated corner of the
//! resting box (top-left, top-right, bottom-right, bottom-left) added to the
//! `m`-th point of the moving box's sweep (its four corners in that order,
//! then the same four moved by the whole motion).
use vstd::prelude::*;
use crate::wireframe::{shown_below, SUM2_HIDDEN, SUM2_LEN};

verus! {

/// The sign of one coordinate of a heading, as its comparisons with zero see it.
#[derive(Clone, Copy, Debug, PartialEq, Eq, Structural)]
pub enum Sign {
    /// Greater than zero.
    Positive,
    /// Zero or less.
    NonPositive,
    /// Neither: the coordinate is not a number.
    Unordered,
}

/// A heading's quadrant, screen coordinates (y grows downwards).
#[derive(Clone, Copy, Debug, PartialEq, Eq, Structural)]
pub enum Quadrant {
    /// x and y both zero or less.
    NorthWest,
    /// x greater than zero, y zero or less.
    NorthEast,
    /// x and y both greater than zero.
    SouthEast,
    /// x zero or less, y greater than zero.
    SouthWest,
}

/// The quadrant of a heading with the given coordinate signs; none when a
/// coordinate is unordered.
pub open spec fn quadrant_spec(x: Sign, y: Sign) -> Option<Quadrant> {
    match (x, y) {
        (Sign::NonPositive, Sign::NonPositive) => Some(Quadrant::NorthWest),
        (Sign::Positive, Sign::NonPositive) => Some(Quadrant::NorthEast),
        (Sign::Positive, Sign::Positive) => Some(Quadrant::SouthEast),
        (Sign::NonPositive, Sign::Positive) => Some(Quadrant::SouthWest),
        _ => None,
    }
}

/// Classifies a heading by the signs of its coordinates. Every heading whose
/// coordinates are both ordered falls in exactly one quadrant; one with an
/// unordered coordinate falls in none.
pub fn quadrant_of(x: Sign, y: Sign) -> (q: Option<Quadrant>)
    ensures
        q == quadrant_spec(x, y),
        q is None <==> (x == Sign::Unordered || y == Sign::Unordered),
        q == Some(Quadrant::NorthWest) <==> (x == Sign::NonPositive && y == Sign::NonPositive),
        q == Some(Quadrant::NorthEast) <==> (x == Sign::Positive && y == Sign::NonPositive),
        q == Some(Quadrant::SouthEast) <==> (x == Sign::Positive && y == Sign::Positive),
        q == Some(Quadrant::SouthWest) <==> (x == Sign::NonPositive && y == Sign::Positive),
{
    match (x, y) {
        (Sign::NonPositive, Sign::NonPositive) => Some(Quadrant::NorthWest),
        (Sign::Positive, Sign::NonPositive) => Some(Quadrant::NorthEast),
        (Sign::Positive, Sign::Positive) => Some(Quadrant::SouthEast),
        (Sign::NonPositive, Sign::Positive) => Some(Quadrant::SouthWest),
        _ => None,
    }
}

/// An axis-aligned box given by the difference points whose coordinates
/// bound it: its left edge is the x of `left`, its top edge the y of `top`,
/// its right edge the x of `right` and its bottom edge the y of `bottom`.
#[derive(Clone, Copy, Debug, PartialEq, Eq, Structural)]
pub struct BoxPoints {
    pub left: usize,
    pub top: usize,
    pub right: usize,
    pub bottom: usize,
}

/// A right triangle given by two difference points and a third corner that
/// takes its x from the point `corner_x` and its y from the point `corner_y`.
#[derive(Clone, Copy, Debug, PartialEq, Eq, Structural)]
pub struct TrianglePoints {
    pub first: usize,
    pub second: usize,
    pub corner_x: usize,
    pub corner_y: usize,
}

/// The swept region for one heading quadrant: the box less two corner triangles.
#[derive(Clone, Copy, Debug, PartialEq, Eq, Structural)]
pub struct SweepRegion {
    pub bounds: BoxPoints,
    pub cut_first: TrianglePoints,
    pub cut_second: TrianglePoints,
}

/// The region used for each quadrant.
pub open spec fn sweep_region_spec(q: Quadrant) -> SweepRegion {
    match q {
        Quadrant::NorthWest => SweepRegion {
            bounds: BoxPoints { left: 20, top: 20, right: 2, bottom: 2 },
            cut_first: TrianglePoints { first: 11, second: 15, corner_x: 15, corner_y: 11 },
            cut_second: TrianglePoints { first: 29, second: 25, corner_x: 25, corner_y: 29 },
        },
        Quadrant::NorthEast => SweepRegion {
            bounds: BoxPoints { left: 11, top: 29, right: 29, bottom: 11 },
            cut_first: TrianglePoints { first: 2, second: 6, corner_x: 6, corner_y: 2 },
            cut_second: TrianglePoints { first: 16, second: 20, corner_x: 16, corner_y: 20 },
        },
        Quadrant::SouthEast => SweepRegion {
            bounds: BoxPoints { left: 16, top: 16, right: 6, bottom: 6 },
            cut_first: TrianglePoints { first: 15, second: 11, corner_x: 11, corner_y: 15 },
            cut_second: TrianglePoints { first: 29, second: 25, corner_x: 29, corner_y: 25 },
        },
        Quadrant::SouthWest => SweepRegion {
            bounds: BoxPoints { left: 15, top: 25, right: 25, bottom: 15 },
            cut_first: TrianglePoints { first: 6, second: 2, corner_x: 2, corner_y: 6 },
            cut_second: TrianglePoints { first: 20, second: 16, corner_x: 20, corner_y: 16 },
        },
    }
}

/// The box is spanned by two distinct points, each giving one x edge and one y edge.
pub open spec fn spans_two_points(b: BoxPoints) -> bool {
    ||| (b.left == b.top && b.right == b.bottom && b.left != b.right)
    ||| (b.left == b.bottom && b.top == b.right && b.left != b.top)
}

/// The triangle's third corner is where the x of one of its points meets the
/// y of the other.
pub open spec fn corner_meets_points(t: TrianglePoints) -> bool {
    &&& t.first != t.second
    &&& ((t.corner_x == t.first && t.corner_y == t.second) || (t.corner_x == t.second
        && t.corner_y == t.first))
}

/// The points of the difference that a region reads.
pub open spec fn region_points(r: SweepRegion) -> Seq<usize> {
    seq![
        r.bounds.left, r.bounds.top, r.bounds.right, r.bounds.bottom,
        r.cut_first.first, r.cut_first.second, r.cut_first.corner_x, r.cut_first.corner_y,
        r.cut_second.first, r.cut_second.second, r.cut_second.corner_x, r.cut_second.corner_y,
    ]
}

/// The region of the difference swept towards quadrant `q`: a box spanned by
/// two opposite points, less the two triangles cut off at its other corners.
pub fn sweep_region(q: Quadrant) -> (r: SweepRegion)
    ensures
        r == sweep_region_spec(q),
        q == Quadrant::NorthWest ==> r.bounds == (BoxPoints { left: 20, top: 20, right: 2, bottom: 2 })
            && r.cut_first == (TrianglePoints { first: 11, second: 15, corner_x: 15, corner_y: 11 })
            && r.cut_second == (TrianglePoints { first: 29, second: 25, corner_x: 25, corner_y: 29 }),
        q == Quadrant::NorthEast ==> r.bounds == (BoxPoints { left: 11, top: 29, right: 29, bottom: 11 })
            && r.cut_first == (TrianglePoints { first: 2, second: 6, corner_x: 6, corner_y: 2 })
            && r.cut_second == (TrianglePoints { first: 16, second: 20, corner_x: 16, corner_y: 20 }),
        q == Quadrant::SouthEast ==> r.bounds == (BoxPoints { left: 16, top: 16, right: 6, bottom: 6 })
            && r.cut_first == (TrianglePoints { first: 15, second: 11, corner_x: 11, corner_y: 15 })
            && r.cut_second == (TrianglePoints { first: 29, second: 25, corner_x: 29, corner_y: 25 }),
        q == Quadrant::SouthWest ==> r.bounds == (BoxPoints { left: 15, top: 25, right: 25, bottom: 15 })
            && r.cut_first == (TrianglePoints { first: 6, second: 2, corner_x: 2, corner_y: 6 })
            && r.cut_second == (TrianglePoints { first: 20, second: 16, corner_x: 20, corner_y: 16 }),
        spans_two_points(r.bounds),
        corner_meets_points(r.cut_first),
        corner_meets_points(r.cut_second),
{
    match q {
        Quadrant::NorthWest => SweepRegion {
            bounds: BoxPoints { left: 20, top: 20, right: 2, bottom: 2 },
            cut_first: TrianglePoints { first: 11, second: 15, corner_x: 15, corner_y: 11 },
            cut_second: TrianglePoints { first: 29, second: 25, corner_x: 25, corner_y: 29 },
        },
        Quadrant::NorthEast => SweepRegion {
            bounds: BoxPoints { left: 11, top: 29, right: 29, bottom: 11 },
            cut_first: TrianglePoints { first: 2, second: 6, corner_x: 6, corner_y: 2 },
            cut_second: TrianglePoints { first: 16, second: 20, corner_x: 16, corner_y: 20 },
        },
        Quadrant::SouthEast => SweepRegion {
            bounds: BoxPoints { left: 16, top: 16, right: 6, bottom: 6 },
            cut_first: TrianglePoints { first: 15, second: 11, corner_x: 11, corner_y: 15 },
            cut_second: TrianglePoints { first: 29, second: 25, corner_x: 29, corner_y: 25 },
        },
        Quadrant::SouthWest => SweepRegion {
            bounds: BoxPoints { left: 15, top: 25, right: 25, bottom: 15 },
            cut_first: TrianglePoints { first: 6, second: 2, corner_x: 2, corner_y: 6 },
            cut_second: TrianglePoints { first: 20, second: 16, corner_x: 20, corner_y: 16 },
        },
    }
}

/// Every point that the swept region of any quadrant reads is a point that
/// the reduced wireframe of the difference draws.
pub proof fn lemma_regions_read_shown_points(q: Quadrant, i: int)
    requires
        0 <= i < 12,
    ensures
        shown_below(SUM2_LEN, SUM2_HIDDEN@).contains(region_points(sweep_region_spec(q))[i]),
{
    let p = region_points(sweep_region_spec(q))[i];
    assert(SUM2_HIDDEN@ == seq![
        0usize, 1, 3, 4, 5, 7, 8, 9, 10, 12, 13, 14, 17, 18, 19, 21, 22, 23, 24, 26, 27, 28, 30, 31,
    ]);
    assert(p == 2 || p == 6 || p == 11 || p == 15 || p == 16 || p == 20 || p == 25 || p == 29);
    assert(!SUM2_HIDDEN@.contains(p)) by {
        if SUM2_HIDDEN@.contains(p) {
            let k = choose|k: int| 0 <= k < SUM2_HIDDEN@.len() && #[trigger] SUM2_HIDDEN@[k] == p;
        }
    }
    crate::wireframe::lemma_shown_below_members(SUM2_LEN, SUM2_HIDDEN@, p);
}

} // verus!
