//! Geometry primitives: points, sizes and rectangles on an integer pixel
//! grid, together with the containment and centering arithmetic that layout
//! and hit-testing depend on.

use vstd::prelude::*;

verus! {

/// Upper bound on any clamped length the layout engine produces. Dimension
/// clamps, fixed pixel amounts and canvas sizes all stay within this bound,
/// which keeps every sum the engine forms far away from `i64` overflow.
pub const MAX_PIXELS: i64 = 1_000_000_000;

/// Upper bound on the magnitude of a rectangle origin handed to layout.
/// Leaves room above it for `MAX_PIXELS`-sized offsets without overflow.
pub const MAX_ORIGIN: i64 = 4_000_000_000_000_000_000;

/// The width and height of a box, in pixels. Negative values arise
/// transiently during layout (space already over-consumed) and are kept,
/// exactly as measured, rather than clamped away.
#[derive(Clone, Copy, Debug, PartialEq, Eq, Structural)]
pub struct Size {
    pub width: i64,
    pub height: i64,
}

impl Size {
    pub fn new(width: i64, height: i64) -> (s: Size)
        ensures
            s.width == width,
            s.height == height,
    {
        Size { width, height }
    }

    pub fn zero() -> (s: Size)
        ensures
            s.width == 0,
            s.height == 0,
    {
        Size { width: 0, height: 0 }
    }
}

impl Default for Size {
    fn default() -> (s: Size)
        ensures
            s.width == 0,
            s.height == 0,
    {
        Size { width: 0, height: 0 }
    }
}

/// A position in the canvas coordinate space, y growing downward.
#[derive(Clone, Copy, Debug, PartialEq, Eq, Structural)]
pub struct Point {
    pub x: i64,
    pub y: i64,
}

/// A mouse-wheel displacement uses the same two-axis shape as a position.
pub type Delta = Point;

impl Point {
    pub fn new(x: i64, y: i64) -> (p: Point)
        ensures
            p.x == x,
            p.y == y,
    {
        Point { x, y }
    }

    pub fn zero() -> (p: Point)
        ensures
            p.x == 0,
            p.y == 0,
    {
        Point { x: 0, y: 0 }
    }

    /// The offset of `self` from `other`.
    pub fn relative_to(&self, other: Point) -> (p: Point)
        requires
            i64::MIN <= self.x - other.x <= i64::MAX,
            i64::MIN <= self.y - other.y <= i64::MAX,
        ensures
            p.x == self.x - other.x,
            p.y == self.y - other.y,
    {
        Point { x: self.x - other.x, y: self.y - other.y }
    }
}

impl Default for Point {
    fn default() -> (p: Point)
        ensures
            p.x == 0,
            p.y == 0,
    {
        Point { x: 0, y: 0 }
    }
}

/// Halving that rounds toward zero, as the centering arithmetic needs on
/// both signs of leftover space.
pub open spec fn spec_half(v: int) -> int {
    if v >= 0 {
        v / 2
    } else {
        -((-v) / 2)
    }
}

/// An axis-aligned rectangle: an origin and a size.
#[derive(Clone, Copy, Debug, PartialEq, Eq, Structural)]
pub struct Rect {
    pub pos: Point,
    pub size: Size,
}

/// Whether `p` lies in `r`, boundary included on all four edges.
pub open spec fn spec_contains(r: Rect, p: Point) -> bool {
    &&& r.pos.x <= p.x <= r.pos.x + r.size.width
    &&& r.pos.y <= p.y <= r.pos.y + r.size.height
}

/// Whether the interiors of `a` and `b` overlap (shared edges do not count).
pub open spec fn spec_intersects(a: Rect, b: Rect) -> bool {
    &&& a.pos.x < b.pos.x + b.size.width
    &&& a.pos.x + a.size.width > b.pos.x
    &&& a.pos.y < b.pos.y + b.size.height
    &&& a.pos.y + a.size.height > b.pos.y
}

/// Bounds under which every centering computation on a rectangle stays
/// within `i64`: origin and extents all within `MAX_ORIGIN`.
pub open spec fn spec_rect_bounded(r: Rect) -> bool {
    &&& -MAX_ORIGIN <= r.pos.x <= MAX_ORIGIN
    &&& -MAX_ORIGIN <= r.pos.y <= MAX_ORIGIN
    &&& -MAX_ORIGIN <= r.size.width <= MAX_ORIGIN
    &&& -MAX_ORIGIN <= r.size.height <= MAX_ORIGIN
}

impl Rect {
    pub fn new(pos: Point, size: Size) -> (r: Rect)
        ensures
            r.pos == pos,
            r.size == size,
    {
        Rect { pos, size }
    }

    /// The midpoint of the rectangle, halves rounded toward zero.
    pub fn center(&self) -> (p: Point)
        requires
            spec_rect_bounded(*self),
        ensures
            p.x == self.pos.x + spec_half(self.size.width as int),
            p.y == self.pos.y + spec_half(self.size.height as int),
    {
        Point {
            x: self.pos.x + half_i64(self.size.width),
            y: self.pos.y + half_i64(self.size.height),
        }
    }

    /// A rectangle of extent `size` centered within `self`. Leftover space
    /// is split evenly, rounding toward the origin; a `size` larger than
    /// `self` overhangs it symmetrically.
    pub fn align_center(&self, size: Size) -> (r: Rect)
        requires
            spec_rect_bounded(*self),
            -MAX_ORIGIN <= size.width <= MAX_ORIGIN,
            -MAX_ORIGIN <= size.height <= MAX_ORIGIN,
        ensures
            r.size == size,
            r.pos.x == self.pos.x + spec_half(self.size.width - size.width),
            r.pos.y == self.pos.y + spec_half(self.size.height - size.height),
    {
        let x = self.pos.x + half_i64(self.size.width - size.width);
        let y = self.pos.y + half_i64(self.size.height - size.height);
        Rect { pos: Point { x, y }, size }
    }

    /// Whether `point` lies in this rectangle, boundary included.
    pub fn contains(&self, point: Point) -> (b: bool)
        ensures
            b == spec_contains(*self, point),
    {
        let right: i128 = self.pos.x as i128 + self.size.width as i128;
        let bottom: i128 = self.pos.y as i128 + self.size.height as i128;
        point.x >= self.pos.x && point.x as i128 <= right && point.y >= self.pos.y
            && point.y as i128 <= bottom
    }

    /// Whether the interiors of this rectangle and `other` overlap.
    pub fn intersects(&self, other: Rect) -> (b: bool)
        ensures
            b == spec_intersects(*self, other),
    {
        let self_right: i128 = self.pos.x as i128 + self.size.width as i128;
        let self_bottom: i128 = self.pos.y as i128 + self.size.height as i128;
        let other_right: i128 = other.pos.x as i128 + other.size.width as i128;
        let other_bottom: i128 = other.pos.y as i128 + other.size.height as i128;
        (self.pos.x as i128) < other_right && self_right > other.pos.x as i128
            && (self.pos.y as i128) < other_bottom && self_bottom > other.pos.y as i128
    }
}

impl Default for Rect {
    fn default() -> (r: Rect)
        ensures
            r.pos.x == 0,
            r.pos.y == 0,
            r.size.width == 0,
            r.size.height == 0,
    {
        Rect { pos: Point { x: 0, y: 0 }, size: Size { width: 0, height: 0 } }
    }
}

/// Halving toward zero never grows a value's magnitude and never flips
/// its sign.
pub proof fn lemma_half_bounds(v: int)
    ensures
        v >= 0 ==> 0 <= spec_half(v) <= v,
        v < 0 ==> v <= spec_half(v) <= 0,
{
    if v >= 0 {
        assert(0 <= v / 2 <= v) by (nonlinear_arith)
            requires
                v >= 0,
        ;
    } else {
        assert(0 <= (-v) / 2 <= -v) by (nonlinear_arith)
            requires
                -v >= 0,
        ;
    }
}

/// Halves `v`, rounding toward zero.
pub(crate) fn half_i64(v: i64) -> (r: i64)
    requires
        i64::MIN < v,
    ensures
        r == spec_half(v as int),
{
    if v >= 0 {
        ((v as u64) / 2) as i64
    } else {
        -((((-v) as u64) / 2) as i64)
    }
}

} // verus!
