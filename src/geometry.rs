//! Points, vectors and axis-aligned rectangle overlap.
use vstd::prelude::*;

verus! {

/// A point or vector on the playing field, in milli-units.
#[derive(Clone, Copy, Debug, PartialEq, Eq, Structural)]
pub struct Vec2 {
    pub x: i64,
    pub y: i64,
}

impl Vec2 {
    pub fn new(x: i64, y: i64) -> (r: Vec2)
        ensures
            r.x == x,
            r.y == y,
    {
        Vec2 { x, y }
    }

    pub fn zero() -> (r: Vec2)
        ensures
            r.x == 0,
            r.y == 0,
    {
        Vec2 { x: 0, y: 0 }
    }
}

/// Whether the closed rectangle centred at `ca` with size `sa` meets the one
/// centred at `cb` with size `sb`. Every edge is doubled so that odd sizes
/// keep their exact half: `2 * (ca.x - sa.x / 2) == 2 * ca.x - sa.x`.
/// Touching edges count as overlap.
pub open spec fn rects_overlap(ca: Vec2, sa: Vec2, cb: Vec2, sb: Vec2) -> bool {
    &&& 2 * ca.x - sa.x <= 2 * cb.x + sb.x
    &&& 2 * ca.x + sa.x >= 2 * cb.x - sb.x
    &&& 2 * ca.y - sa.y <= 2 * cb.y + sb.y
    &&& 2 * ca.y + sa.y >= 2 * cb.y - sb.y
}

/// Tests two axis-aligned rectangles, given by centre and size, for overlap,
/// edges included.
pub fn intersect(center_a: Vec2, size_a: Vec2, center_b: Vec2, size_b: Vec2) -> (r: bool)
    ensures
        r == rects_overlap(center_a, size_a, center_b, size_b),
{
    let (ax, ay) = (center_a.x as i128, center_a.y as i128);
    let (bx, by) = (center_b.x as i128, center_b.y as i128);
    let (aw, ah) = (size_a.x as i128, size_a.y as i128);
    let (bw, bh) = (size_b.x as i128, size_b.y as i128);
    2 * ax - aw <= 2 * bx + bw && 2 * ax + aw >= 2 * bx - bw && 2 * ay - ah <= 2 * by + bh && 2
        * ay + ah >= 2 * by - bh
}

/// `v` limited to the closed range `[lo, hi]`.
pub open spec fn clamped(v: int, lo: int, hi: int) -> int {
    if v < lo {
        lo
    } else if v > hi {
        hi
    } else {
        v
    }
}

/// Limits `v` to `[lo, hi]`.
pub fn clamp(v: i64, lo: i64, hi: i64) -> (r: i64)
    requires
        lo <= hi,
    ensures
        r == clamped(v as int, lo as int, hi as int),
        lo <= r <= hi,
{
    if v < lo {
        lo
    } else if v > hi {
        hi
    } else {
        v
    }
}

} // verus!
