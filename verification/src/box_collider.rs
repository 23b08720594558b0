//! Axis-aligned box colliders.
//!
//! A collider is a half-extent centred on its owner's position; the world
//! space box is computed on demand from the current position, never cached.

use vstd::prelude::*;
use crate::units::HALF_EXTENT_LIMIT;
use crate::vec2::Vec2;

verus! {

/// Largest coordinate magnitude an overlap test accepts; wide enough for any
/// position an integration step can produce from a well-formed state.
pub const OVERLAP_COORD_LIMIT: i64 = 8_000_000_000_000_000;

/// Closed-interval overlap of the axis-aligned boxes centred at `(pax, pay)`
/// and `(pbx, pby)` with half-extents `(hax, hay)` and `(hbx, hby)`: the
/// boxes touch or intersect on both axes.
pub open spec fn boxes_overlap(
    pax: int,
    pay: int,
    hax: int,
    hay: int,
    pbx: int,
    pby: int,
    hbx: int,
    hby: int,
) -> bool {
    &&& pax + hax >= pbx - hbx
    &&& pax - hax <= pbx + hbx
    &&& pay + hay >= pby - hby
    &&& pay - hay <= pby + hby
}

/// The overlap test does not depend on which box comes first.
pub proof fn lemma_overlap_symmetric(
    pax: int,
    pay: int,
    hax: int,
    hay: int,
    pbx: int,
    pby: int,
    hbx: int,
    hby: int,
)
    ensures
        boxes_overlap(pax, pay, hax, hay, pbx, pby, hbx, hby) == boxes_overlap(
            pbx,
            pby,
            hbx,
            hby,
            pax,
            pay,
            hax,
            hay,
        ),
{
}

/// An axis-aligned box collider: a strictly positive half-extent and a color
/// tag that only the presentation layer reads.
#[derive(Clone, Copy, Debug, PartialEq, Eq, Structural)]
pub struct Collider {
    pub half_size: Vec2,
    pub color: u32,
}

impl Collider {
    /// A collider is well formed when both half-extents are strictly
    /// positive and within the representable range.
    pub open spec fn wf(self) -> bool {
        &&& 0 < self.half_size.x <= HALF_EXTENT_LIMIT
        &&& 0 < self.half_size.y <= HALF_EXTENT_LIMIT
    }

    /// Build a collider from its half-extent; the color tag starts at zero.
    pub fn new(half_size: (i64, i64)) -> (r: Collider)
        requires
            0 < half_size.0 <= HALF_EXTENT_LIMIT,
            0 < half_size.1 <= HALF_EXTENT_LIMIT,
        ensures
            r.half_size.x == half_size.0,
            r.half_size.y == half_size.1,
            r.color == 0,
            r.wf(),
    {
        Collider { half_size: Vec2 { x: half_size.0, y: half_size.1 }, color: 0 }
    }

    /// True iff the box of `self` centred at `position` overlaps the box of
    /// `other` centred at `other_position` (closed intervals on both axes).
    pub fn collide(&self, position: Vec2, other: &Collider, other_position: Vec2) -> (r: bool)
        requires
            self.wf(),
            other.wf(),
            -OVERLAP_COORD_LIMIT <= position.x <= OVERLAP_COORD_LIMIT,
            -OVERLAP_COORD_LIMIT <= position.y <= OVERLAP_COORD_LIMIT,
            -OVERLAP_COORD_LIMIT <= other_position.x <= OVERLAP_COORD_LIMIT,
            -OVERLAP_COORD_LIMIT <= other_position.y <= OVERLAP_COORD_LIMIT,
        ensures
            r == boxes_overlap(
                position.x as int,
                position.y as int,
                self.half_size.x as int,
                self.half_size.y as int,
                other_position.x as int,
                other_position.y as int,
                other.half_size.x as int,
                other.half_size.y as int,
            ),
    {
        position.x + self.half_size.x >= other_position.x - other.half_size.x
            && position.x - self.half_size.x <= other_position.x + other.half_size.x
            && position.y + self.half_size.y >= other_position.y - other.half_size.y
            && position.y - self.half_size.y <= other_position.y + other.half_size.y
    }

    /// The four corners of the collider's box centred at the origin, in a
    /// fixed winding order: bottom-left, bottom-right, top-right, top-left.
    /// Consumed only by the presentation layer for mesh generation.
    pub fn to_vertices(&self) -> (r: Vec<Vec2>)
        requires
            self.wf(),
        ensures
            r@.len() == 4,
            r@[0].x == -self.half_size.x && r@[0].y == -self.half_size.y,
            r@[1].x == self.half_size.x && r@[1].y == -self.half_size.y,
            r@[2].x == self.half_size.x && r@[2].y == self.half_size.y,
            r@[3].x == -self.half_size.x && r@[3].y == self.half_size.y,
    {
        let hx = self.half_size.x;
        let hy = self.half_size.y;
        let mut r: Vec<Vec2> = Vec::new();
        r.push(Vec2 { x: -hx, y: -hy });
        r.push(Vec2 { x: hx, y: -hy });
        r.push(Vec2 { x: hx, y: hy });
        r.push(Vec2 { x: -hx, y: hy });
        r
    }
}

} // verus!
