//! Points, sizes and rectangles of the logical coordinate space.
//!
//! All arithmetic on coordinates saturates at the bounds of `i32`.

use vstd::prelude::*;

verus! {

/// `v` brought into the range of `i32`.
pub open spec fn clip(v: int) -> int {
    if v > i32::MAX {
        i32::MAX as int
    } else if v < i32::MIN {
        i32::MIN as int
    } else {
        v
    }
}

/// The smaller of two integers.
pub open spec fn min_int(a: int, b: int) -> int {
    if a <= b {
        a
    } else {
        b
    }
}

/// The larger of two integers.
pub open spec fn max_int(a: int, b: int) -> int {
    if a >= b {
        a
    } else {
        b
    }
}

/// `v` brought into `lo..=hi`; `lo` wins where the range is empty.
pub open spec fn clamp_int(v: int, lo: int, hi: int) -> int {
    max_int(lo, min_int(v, hi))
}

/// Saturating sum of two coordinates.
pub fn sat_add(a: i32, b: i32) -> (r: i32)
    ensures
        r == clip(a + b),
{
    let wide: i64 = a as i64 + b as i64;
    if wide > i32::MAX as i64 {
        i32::MAX
    } else if wide < i32::MIN as i64 {
        i32::MIN
    } else {
        wide as i32
    }
}

/// Saturating difference of two coordinates.
pub fn sat_sub(a: i32, b: i32) -> (r: i32)
    ensures
        r == clip(a - b),
{
    let wide: i64 = a as i64 - b as i64;
    if wide > i32::MAX as i64 {
        i32::MAX
    } else if wide < i32::MIN as i64 {
        i32::MIN
    } else {
        wide as i32
    }
}

/// The smaller of two coordinates.
pub fn min_i32(a: i32, b: i32) -> (r: i32)
    ensures
        r == min_int(a as int, b as int),
{
    if a <= b {
        a
    } else {
        b
    }
}

/// The larger of two coordinates.
pub fn max_i32(a: i32, b: i32) -> (r: i32)
    ensures
        r == max_int(a as int, b as int),
{
    if a >= b {
        a
    } else {
        b
    }
}

/// `v` brought into `lo..=hi`; `lo` wins where the range is empty.
pub fn clamp_i32(v: i32, lo: i32, hi: i32) -> (r: i32)
    ensures
        r == clamp_int(v as int, lo as int, hi as int),
{
    max_i32(lo, min_i32(v, hi))
}

/// A point, by its horizontal and vertical coordinate.
#[derive(Clone, Copy, Debug, PartialEq, Eq, Structural)]
pub struct Point {
    pub x: i32,
    pub y: i32,
}

/// A width and a height.
#[derive(Clone, Copy, Debug, PartialEq, Eq, Structural)]
pub struct Size {
    pub w: i32,
    pub h: i32,
}

/// A rectangle, by its top-left corner and its size.
#[derive(Clone, Copy, Debug, PartialEq, Eq, Structural)]
pub struct Rectangle {
    pub loc: Point,
    pub size: Size,
}

impl Point {
    /// Coordinate-wise saturating sum.
    pub open spec fn plus(self, other: Point) -> Point {
        Point { x: clip(self.x + other.x) as i32, y: clip(self.y + other.y) as i32 }
    }

    /// Coordinate-wise saturating difference.
    pub open spec fn minus(self, other: Point) -> Point {
        Point { x: clip(self.x - other.x) as i32, y: clip(self.y - other.y) as i32 }
    }

    pub fn new(x: i32, y: i32) -> (p: Point)
        ensures
            p == (Point { x, y }),
    {
        Point { x, y }
    }

    /// The point with both coordinates zero.
    pub fn origin() -> (p: Point)
        ensures
            p == (Point { x: 0, y: 0 }),
    {
        Point { x: 0, y: 0 }
    }

    /// This point moved by `other`.
    pub fn add(self, other: Point) -> (p: Point)
        ensures
            p == self.plus(other),
    {
        Point { x: sat_add(self.x, other.x), y: sat_add(self.y, other.y) }
    }

    /// This point moved back by `other`.
    pub fn sub(self, other: Point) -> (p: Point)
        ensures
            p == self.minus(other),
    {
        Point { x: sat_sub(self.x, other.x), y: sat_sub(self.y, other.y) }
    }
}

impl Size {
    /// Neither dimension is negative.
    pub open spec fn valid(self) -> bool {
        self.w >= 0 && self.h >= 0
    }

    pub fn new(w: i32, h: i32) -> (s: Size)
        ensures
            s == (Size { w, h }),
    {
        Size { w, h }
    }

    /// Whether neither dimension is negative.
    pub fn is_valid(self) -> (b: bool)
        ensures
            b == self.valid(),
    {
        self.w >= 0 && self.h >= 0
    }
}

impl Rectangle {
    /// The first column right of the rectangle.
    pub open spec fn right(self) -> int {
        clip(self.loc.x + self.size.w)
    }

    /// The first row below the rectangle.
    pub open spec fn bottom(self) -> int {
        clip(self.loc.y + self.size.h)
    }

    /// `p` lies inside: the left and top edges count, the right and bottom do not.
    pub open spec fn has_point(self, p: Point) -> bool {
        self.loc.x <= p.x < self.right() && self.loc.y <= p.y < self.bottom()
    }

    /// `r` starts inside and does not reach beyond this rectangle.
    pub open spec fn has_rect(self, r: Rectangle) -> bool {
        &&& r.loc.x >= self.loc.x
        &&& r.loc.y >= self.loc.y
        &&& r.right() <= self.right()
        &&& r.bottom() <= self.bottom()
    }

    /// The two rectangles share area; touching edges do not count.
    pub open spec fn meets(self, other: Rectangle) -> bool {
        &&& self.loc.x < other.right()
        &&& other.loc.x < self.right()
        &&& self.loc.y < other.bottom()
        &&& other.loc.y < self.bottom()
    }

    /// This rectangle moved by `by`, its size kept.
    pub open spec fn moved(self, by: Point) -> Rectangle {
        Rectangle { loc: self.loc.plus(by), size: self.size }
    }

    pub fn new(loc: Point, size: Size) -> (r: Rectangle)
        ensures
            r == (Rectangle { loc, size }),
    {
        Rectangle { loc, size }
    }

    /// The rectangle of the four numbers.
    pub fn from_xywh(x: i32, y: i32, w: i32, h: i32) -> (r: Rectangle)
        ensures
            r == (Rectangle { loc: Point { x, y }, size: Size { w, h } }),
    {
        Rectangle { loc: Point { x, y }, size: Size { w, h } }
    }

    /// The rectangle at the origin with no extent.
    pub fn zero() -> (r: Rectangle)
        ensures
            r == (Rectangle { loc: Point { x: 0, y: 0 }, size: Size { w: 0, h: 0 } }),
    {
        Rectangle { loc: Point { x: 0, y: 0 }, size: Size { w: 0, h: 0 } }
    }

    /// The first column right of the rectangle.
    pub fn right_edge(self) -> (r: i32)
        ensures
            r == self.right(),
    {
        sat_add(self.loc.x, self.size.w)
    }

    /// The first row below the rectangle.
    pub fn bottom_edge(self) -> (r: i32)
        ensures
            r == self.bottom(),
    {
        sat_add(self.loc.y, self.size.h)
    }

    /// Whether `p` lies inside the rectangle.
    pub fn contains(self, p: Point) -> (b: bool)
        ensures
            b == self.has_point(p),
    {
        p.x >= self.loc.x && p.x < self.right_edge() && p.y >= self.loc.y && p.y
            < self.bottom_edge()
    }

    /// Whether `r` lies inside the rectangle.
    pub fn contains_rect(self, r: Rectangle) -> (b: bool)
        ensures
            b == self.has_rect(r),
    {
        r.loc.x >= self.loc.x && r.loc.y >= self.loc.y && r.right_edge() <= self.right_edge()
            && r.bottom_edge() <= self.bottom_edge()
    }

    /// Whether the two rectangles share area.
    pub fn overlaps(self, other: Rectangle) -> (b: bool)
        ensures
            b == self.meets(other),
    {
        self.loc.x < other.right_edge() && other.loc.x < self.right_edge() && self.loc.y
            < other.bottom_edge() && other.loc.y < self.bottom_edge()
    }

    /// This rectangle moved by `by`, its size kept.
    pub fn translate(self, by: Point) -> (r: Rectangle)
        ensures
            r == self.moved(by),
    {
        Rectangle { loc: self.loc.add(by), size: self.size }
    }
}

/// Where no coordinate leaves the range of `i32`, moving a point adds exactly.
pub proof fn lemma_plus_exact(p: Point, d: Point)
    requires
        i32::MIN <= p.x + d.x <= i32::MAX,
        i32::MIN <= p.y + d.y <= i32::MAX,
    ensures
        p.plus(d).x == p.x + d.x,
        p.plus(d).y == p.y + d.y,
{
}

} // verus!
