//! Axis-aligned rectangle intersection in pixel space.

use vstd::prelude::*;

verus! {

/// An axis-aligned rectangle: top-left corner, width and height, all in
/// subunits of pixel space.
#[derive(Clone, Copy, PartialEq, Eq, Structural, Debug)]
pub struct Rect {
    pub x: i64,
    pub y: i64,
    pub w: i64,
    pub h: i64,
}

/// Whether two axis-aligned boxes, given by corner and extent, overlap with
/// positive area. Degenerate overlaps (a shared edge or corner) do not count.
pub open spec fn overlaps(
    ax: int,
    ay: int,
    aw: int,
    ah: int,
    bx: int,
    by: int,
    bw: int,
    bh: int,
) -> bool {
    vstd::math::max(ax, bx) < vstd::math::min(ax + aw, bx + bw)
        && vstd::math::max(ay, by) < vstd::math::min(ay + ah, by + bh)
}

/// Whether two rectangles overlap with positive area.
pub open spec fn rect_overlaps(a: Rect, b: Rect) -> bool {
    overlaps(a.x as int, a.y as int, a.w as int, a.h as int, b.x as int, b.y as int, b.w as int,
        b.h as int)
}

/// Intersection test: true exactly when the rectangles overlap with positive
/// area, so that edge-touching never counts as a hit.
pub fn intersects(a: Rect, b: Rect) -> (r: bool)
    requires
        a.w >= 0,
        a.h >= 0,
        b.w >= 0,
        b.h >= 0,
        a.x + a.w <= i64::MAX,
        a.y + a.h <= i64::MAX,
        b.x + b.w <= i64::MAX,
        b.y + b.h <= i64::MAX,
    ensures
        r == rect_overlaps(a, b),
{
    let left = if a.x > b.x {
        a.x
    } else {
        b.x
    };
    let right = if a.x + a.w < b.x + b.w {
        a.x + a.w
    } else {
        b.x + b.w
    };
    let top = if a.y > b.y {
        a.y
    } else {
        b.y
    };
    let bottom = if a.y + a.h < b.y + b.h {
        a.y + a.h
    } else {
        b.y + b.h
    };
    left < right && top < bottom
}

/// Bounds on the playfield rectangle: a non-negative corner (the render
/// offsets) and non-negative extents, all within the largest viewport
/// dimension the engine accepts.
pub open spec fn field_wf(f: Rect) -> bool {
    &&& 0 <= f.x <= crate::units::MAX_DIM
    &&& 0 <= f.y <= crate::units::MAX_DIM
    &&& 0 <= f.w <= crate::units::MAX_DIM
    &&& 0 <= f.h <= crate::units::MAX_DIM
}

/// The intersection test does not depend on the order of its arguments.
pub proof fn lemma_overlaps_symmetric(a: Rect, b: Rect)
    ensures
        rect_overlaps(a, b) == rect_overlaps(b, a),
{
}

/// Rectangles that share only an edge or a corner — one's extent ends
/// exactly where the other begins on some axis — never overlap, and neither
/// does any pair separated on some axis.
pub proof fn lemma_overlaps_separated(a: Rect, b: Rect)
    requires
        a.x + a.w <= b.x || b.x + b.w <= a.x || a.y + a.h <= b.y || b.y + b.h <= a.y,
    ensures
        !rect_overlaps(a, b),
{
}

} // verus!
