//! Axis-aligned geometry primitives: points/displacements and rectangles,
//! with the half-open overlap test the collision system is built on.

use vstd::prelude::*;

verus! {

/// Subunits per world unit. One world unit of the map is 100 subunits,
/// so quantities with two decimal places are exact integers here.
pub const UNIT: i64 = 100;

/// Bound on well-formed coordinates and sizes, far below `i64::MAX` so that
/// the sums and differences the physics takes never overflow.
pub const COORD_LIMIT: i64 = 0x1000_0000_0000;

/// Looser bound under which the overlap test itself is free of overflow;
/// rectangles moved by a displacement stay well under it.
pub const ARITH_LIMIT: i64 = 0x1000_0000_0000_0000;

/// Mathematical model of a displacement or speed: a pair of integers.
#[verifier::ext_equal]
pub ghost struct Vec2V {
    pub x: int,
    pub y: int,
}

/// Mathematical model of a rectangle: position of the top-left corner
/// plus width and height, all unbounded integers.
#[verifier::ext_equal]
pub ghost struct RectV {
    pub x: int,
    pub y: int,
    pub w: int,
    pub h: int,
}

impl RectV {
    pub open spec fn left(self) -> int {
        self.x
    }

    pub open spec fn right(self) -> int {
        self.x + self.w
    }

    pub open spec fn top(self) -> int {
        self.y
    }

    pub open spec fn bottom(self) -> int {
        self.y + self.h
    }

    /// A rectangle covers the half-open span `[x, x + w) x [y, y + h)`.
    /// Two rectangles overlap iff those spans intersect on both axes: so
    /// rectangles that merely touch along an edge do not overlap, and a
    /// rectangle of zero width or height covers nothing and never does.
    pub open spec fn overlaps(self, other: RectV) -> bool {
        &&& 0 < self.w && 0 < other.w && 0 < self.h && 0 < other.h
        &&& self.x < other.x + other.w
        &&& other.x < self.x + self.w
        &&& self.y < other.y + other.h
        &&& other.y < self.y + self.h
    }

    pub open spec fn translated(self, d: Vec2V) -> RectV {
        RectV { x: self.x + d.x, y: self.y + d.y, w: self.w, h: self.h }
    }

    pub open spec fn moved_to(self, p: Vec2V) -> RectV {
        RectV { x: p.x, y: p.y, w: self.w, h: self.h }
    }

    /// `self` lies fully within `outer` (touching the border is allowed).
    pub open spec fn contained_in(self, outer: RectV) -> bool {
        &&& outer.x <= self.x
        &&& self.x + self.w <= outer.x + outer.w
        &&& outer.y <= self.y
        &&& self.y + self.h <= outer.y + outer.h
    }

    /// Well-formed rectangle: non-negative extent, and every coordinate of
    /// both corners within `COORD_LIMIT`.
    pub open spec fn wf(self) -> bool {
        &&& 0 <= self.w <= COORD_LIMIT as int
        &&& 0 <= self.h <= COORD_LIMIT as int
        &&& -(COORD_LIMIT as int) <= self.x && self.x + self.w <= COORD_LIMIT as int
        &&& -(COORD_LIMIT as int) <= self.y && self.y + self.h <= COORD_LIMIT as int
    }

    /// Enough room for the overlap test's additions to stay inside `i64`.
    pub open spec fn arith_ok(self) -> bool {
        &&& -(ARITH_LIMIT as int) <= self.x && self.x + self.w <= ARITH_LIMIT as int
        &&& -(ARITH_LIMIT as int) <= self.y && self.y + self.h <= ARITH_LIMIT as int
        &&& 0 <= self.w
        &&& 0 <= self.h
    }
}

/// Overlap does not depend on the order of the two rectangles.
pub proof fn lemma_overlaps_symmetric(a: RectV, b: RectV)
    ensures
        a.overlaps(b) == b.overlaps(a),
{
}

/// A pair of subunit quantities, used for speeds and displacements.
#[derive(Clone, Copy, PartialEq, Eq, Structural, Debug)]
pub struct Vec2 {
    pub x: i64,
    pub y: i64,
}

impl View for Vec2 {
    type V = Vec2V;

    open spec fn view(&self) -> Vec2V {
        Vec2V { x: self.x as int, y: self.y as int }
    }
}

impl Vec2 {
    pub fn new(x: i64, y: i64) -> (v: Vec2)
        ensures
            v@ == (Vec2V { x: x as int, y: y as int }),
    {
        Vec2 { x, y }
    }
}

/// An axis-aligned rectangle in subunit coordinates.
#[derive(Clone, Copy, PartialEq, Eq, Structural, Debug)]
pub struct Rect {
    pub x: i64,
    pub y: i64,
    pub w: i64,
    pub h: i64,
}

impl View for Rect {
    type V = RectV;

    open spec fn view(&self) -> RectV {
        RectV { x: self.x as int, y: self.y as int, w: self.w as int, h: self.h as int }
    }
}

impl Rect {
    pub fn new(x: i64, y: i64, w: i64, h: i64) -> (r: Rect)
        ensures
            r@ == (RectV { x: x as int, y: y as int, w: w as int, h: h as int }),
    {
        Rect { x, y, w, h }
    }

    pub fn left(&self) -> (r: i64)
        ensures
            r as int == self@.left(),
    {
        self.x
    }

    pub fn right(&self) -> (r: i64)
        requires
            self@.arith_ok(),
        ensures
            r as int == self@.right(),
    {
        self.x + self.w
    }

    pub fn top(&self) -> (r: i64)
        ensures
            r as int == self@.top(),
    {
        self.y
    }

    pub fn bottom(&self) -> (r: i64)
        requires
            self@.arith_ok(),
        ensures
            r as int == self@.bottom(),
    {
        self.y + self.h
    }

    /// The top-left corner.
    pub fn point(&self) -> (p: Vec2)
        ensures
            p@ == (Vec2V { x: self@.x, y: self@.y }),
    {
        Vec2 { x: self.x, y: self.y }
    }

    /// The center, rounded towards the top-left on odd extents.
    pub fn center(&self) -> (p: Vec2)
        requires
            self@.arith_ok(),
        ensures
            p@ == (Vec2V { x: self@.x + self@.w / 2, y: self@.y + self@.h / 2 }),
    {
        Vec2 { x: self.x + self.w / 2, y: self.y + self.h / 2 }
    }

    /// Half-open overlap test; see [`RectV::overlaps`].
    pub fn overlaps(&self, other: &Rect) -> (hit: bool)
        requires
            self@.arith_ok(),
            other@.arith_ok(),
        ensures
            hit == self@.overlaps(other@),
    {
        0 < self.w && 0 < other.w && 0 < self.h && 0 < other.h && self.x < other.x + other.w
            && other.x < self.x + self.w && self.y < other.y + other.h && other.y < self.y + self.h
    }

    /// Move the top-left corner to `destination`, keeping the size.
    pub fn move_to(&mut self, destination: Vec2)
        ensures
            final(self)@ == old(self)@.moved_to(destination@),
    {
        self.x = destination.x;
        self.y = destination.y;
    }
}

} // verus!
