//! Plane geometry primitives: points, axis-aligned rectangles and the
//! boundary-exclusive intersection test used for collision detection.

use vstd::prelude::*;

verus! {

/// Signed integer plane coordinates; a pure value, copied freely.
#[derive(Clone, Copy, PartialEq, Eq, Structural, Debug)]
pub struct Point {
    pub x: i16,
    pub y: i16,
}

/// Mathematical model of a `Point`: coordinates as unbounded integers.
pub ghost struct PointModel {
    pub x: int,
    pub y: int,
}

impl View for Point {
    type V = PointModel;

    open spec fn view(&self) -> PointModel {
        PointModel { x: self.x as int, y: self.y as int }
    }
}

/// An axis-aligned box anchored at its top-left corner.
#[derive(Clone, Copy, PartialEq, Eq, Structural, Debug)]
pub struct Rect {
    pub position: Point,
    pub width: i16,
    pub height: i16,
}

/// Mathematical model of a `Rect`.
pub ghost struct RectModel {
    pub x: int,
    pub y: int,
    pub width: int,
    pub height: int,
}

impl View for Rect {
    type V = RectModel;

    open spec fn view(&self) -> RectModel {
        RectModel {
            x: self.position.x as int,
            y: self.position.y as int,
            width: self.width as int,
            height: self.height as int,
        }
    }
}

/// Lowest world coordinate the game ever places geometry at.
pub const COORD_MIN: i16 = -32_000;
/// Highest world coordinate the game ever places geometry at.
pub const COORD_MAX: i16 = 30_000;
/// Largest width or height of any one box.
pub const SPAN_MAX: i16 = 16_000;

/// The comfortable band all stored world geometry stays in; it leaves
/// `i16` headroom for the small per-tick movements.
pub open spec fn rect_in_band(r: RectModel) -> bool {
    &&& COORD_MIN as int <= r.x
    &&& 0 <= r.width <= SPAN_MAX as int
    &&& r.x + r.width <= COORD_MAX as int
    &&& COORD_MIN as int <= r.y
    &&& 0 <= r.height <= SPAN_MAX as int
    &&& r.y + r.height <= COORD_MAX as int
}

/// A box in the band has representable edge sums.
pub proof fn lemma_band_fits(r: RectModel)
    requires
        rect_in_band(r),
    ensures
        rect_fits(r),
{
}

/// The edge sums of the box stay representable in `i16`, so `right()`
/// and `bottom()` cannot overflow.
pub open spec fn rect_fits(r: RectModel) -> bool {
    &&& i16::MIN as int <= r.x + r.width <= i16::MAX as int
    &&& i16::MIN as int <= r.y + r.height <= i16::MAX as int
}

/// Two boxes overlap on both axes; touching edges do not count as an
/// intersection.
pub open spec fn spec_intersects(a: RectModel, b: RectModel) -> bool {
    &&& a.x < b.x + b.width
    &&& b.x < a.x + a.width
    &&& a.y < b.y + b.height
    &&& b.y < a.y + a.height
}

impl Rect {
    pub fn new(position: Point, width: i16, height: i16) -> (r: Rect)
        ensures
            r.position == position,
            r.width == width,
            r.height == height,
    {
        Rect { position, width, height }
    }

    pub fn new_from_x_y(x: i16, y: i16, width: i16, height: i16) -> (r: Rect)
        ensures
            r@ == (RectModel { x: x as int, y: y as int, width: width as int, height: height as int }),
    {
        Rect { position: Point { x, y }, width, height }
    }

    pub fn default() -> (r: Rect)
        ensures
            r@ == (RectModel { x: 0, y: 0, width: 0, height: 0 }),
    {
        Rect { position: Point { x: 0, y: 0 }, width: 0, height: 0 }
    }

    pub fn x(&self) -> (r: i16)
        ensures
            r as int == self@.x,
    {
        self.position.x
    }

    pub fn y(&self) -> (r: i16)
        ensures
            r as int == self@.y,
    {
        self.position.y
    }

    pub fn left(&self) -> (r: i16)
        ensures
            r as int == self@.x,
    {
        self.position.x
    }

    pub fn top(&self) -> (r: i16)
        ensures
            r as int == self@.y,
    {
        self.position.y
    }

    pub fn right(&self) -> (r: i16)
        requires
            i16::MIN as int <= self@.x + self@.width <= i16::MAX as int,
        ensures
            r as int == self@.x + self@.width,
    {
        self.position.x + self.width
    }

    pub fn bottom(&self) -> (r: i16)
        requires
            i16::MIN as int <= self@.y + self@.height <= i16::MAX as int,
        ensures
            r as int == self@.y + self@.height,
    {
        self.position.y + self.height
    }

    /// Moves the box horizontally so that its left edge sits at `x`.
    pub fn set_x(&mut self, x: i16)
        ensures
            final(self)@ == (RectModel { x: x as int, ..old(self)@ }),
    {
        self.position.x = x;
    }

    /// The standard AABB overlap test; boxes that only touch at an edge
    /// are reported as non-intersecting.
    pub fn intersects(&self, other: &Rect) -> (r: bool)
        requires
            rect_fits(self@),
            rect_fits(other@),
        ensures
            r == spec_intersects(self@, other@),
    {
        self.position.x < other.right()
            && other.position.x < self.right()
            && self.position.y < other.bottom()
            && other.position.y < self.bottom()
    }
}

} // verus!
