//! Points and axis-aligned rectangles in world units.

use vstd::prelude::*;

verus! {

/// World units per screen pixel.
pub const UNITS_PER_PIXEL: i64 = 100;

/// Every stored coordinate and extent lies within `-WORLD_LIMIT ..= WORLD_LIMIT`.
pub const WORLD_LIMIT: i64 = 1_000_000_000_000_000;

/// Whether `v` is a coordinate inside the world.
pub open spec fn in_world(v: int) -> bool {
    -WORLD_LIMIT <= v <= WORLD_LIMIT
}

/// `v` moved to the nearest coordinate inside the world.
pub open spec fn clamp_to_world(v: int) -> int {
    if v < -WORLD_LIMIT {
        -(WORLD_LIMIT as int)
    } else if v > WORLD_LIMIT {
        WORLD_LIMIT as int
    } else {
        v
    }
}

/// `v` moved to the nearest coordinate inside the world.
pub fn clamp_world(v: i64) -> (r: i64)
    ensures
        r == clamp_to_world(v as int),
        in_world(r as int),
{
    if v < -WORLD_LIMIT {
        -WORLD_LIMIT
    } else if v > WORLD_LIMIT {
        WORLD_LIMIT
    } else {
        v
    }
}

/// A point or a displacement.
#[derive(Clone, Copy, Debug, PartialEq, Eq, Structural)]
pub struct Vec2 {
    pub x: i64,
    pub y: i64,
}

impl Vec2 {
    pub open spec fn wf(self) -> bool {
        in_world(self.x as int) && in_world(self.y as int)
    }

    pub fn new(x: i64, y: i64) -> (v: Vec2)
        ensures
            v.x == x,
            v.y == y,
    {
        Vec2 { x, y }
    }

    /// Whether both coordinates lie inside the world.
    pub fn is_wf(&self) -> (ok: bool)
        ensures
            ok == self.wf(),
    {
        is_in_world(self.x) && is_in_world(self.y)
    }
}

/// Whether `v` is a coordinate inside the world.
pub fn is_in_world(v: i64) -> (ok: bool)
    ensures
        ok == in_world(v as int),
{
    -WORLD_LIMIT <= v && v <= WORLD_LIMIT
}

/// An axis-aligned rectangle: top-left corner and extent.
#[derive(Clone, Copy, Debug, PartialEq, Eq, Structural)]
pub struct Rect {
    pub x: i64,
    pub y: i64,
    pub w: i64,
    pub h: i64,
}

impl Rect {
    pub open spec fn left(self) -> int {
        self.x as int
    }

    pub open spec fn right(self) -> int {
        self.x + self.w
    }

    pub open spec fn top(self) -> int {
        self.y as int
    }

    pub open spec fn bottom(self) -> int {
        self.y + self.h
    }

    /// The projections of the two rectangles meet on both axes. Rectangles
    /// that only share an edge or a corner overlap.
    pub open spec fn spec_overlaps(self, other: Rect) -> bool {
        &&& self.left() <= other.right()
        &&& self.right() >= other.left()
        &&& self.top() <= other.bottom()
        &&& self.bottom() >= other.top()
    }

    pub fn new(x: i64, y: i64, w: i64, h: i64) -> (r: Rect)
        ensures
            r == (Rect { x, y, w, h }),
    {
        Rect { x, y, w, h }
    }

    /// Axis-aligned intersection test, touching edges included.
    pub fn overlaps(&self, other: &Rect) -> (hit: bool)
        ensures
            hit == self.spec_overlaps(*other),
    {
        let al: i128 = self.x as i128;
        let ar: i128 = self.x as i128 + self.w as i128;
        let at: i128 = self.y as i128;
        let ab: i128 = self.y as i128 + self.h as i128;
        let bl: i128 = other.x as i128;
        let br: i128 = other.x as i128 + other.w as i128;
        let bt: i128 = other.y as i128;
        let bb: i128 = other.y as i128 + other.h as i128;
        al <= br && ar >= bl && at <= bb && ab >= bt
    }
}

/// Overlap is symmetric.
pub proof fn lemma_overlaps_symmetric(a: Rect, b: Rect)
    ensures
        a.spec_overlaps(b) == b.spec_overlaps(a),
{
}

} // verus!
