//! Integer points, sizes and rectangles.

use vstd::prelude::*;

verus! {

/// A location in two dimensions.
#[derive(Clone, Copy, Debug, PartialEq, Eq, Structural)]
pub struct Point {
    pub x: i32,
    pub y: i32,
}

/// An extent in two dimensions.
#[derive(Clone, Copy, Debug, PartialEq, Eq, Structural)]
pub struct Size {
    pub w: i32,
    pub h: i32,
}

/// An axis-aligned rectangle: a location and a size.
///
/// Destination rectangles are in whole pixels of the CRTC. Source rectangles
/// of plane configurations are in 16.16 fixed point, that is in units of
/// 1/65536 of a buffer pixel.
#[derive(Clone, Copy, Debug, PartialEq, Eq, Structural)]
pub struct Rectangle {
    pub loc: Point,
    pub size: Size,
}

impl Point {
    /// The point `(x, y)`.
    pub fn new(x: i32, y: i32) -> (p: Point)
        ensures
            p == (Point { x, y }),
    {
        Point { x, y }
    }

    /// The origin `(0, 0)`.
    pub open spec fn origin() -> Point {
        Point { x: 0, y: 0 }
    }

    /// Whether this point is the origin.
    pub fn is_origin(&self) -> (b: bool)
        ensures
            b == (*self == Point::origin()),
    {
        self.x == 0 && self.y == 0
    }
}

impl Size {
    /// The size `w` by `h`.
    pub fn new(w: i32, h: i32) -> (s: Size)
        ensures
            s == (Size { w, h }),
    {
        Size { w, h }
    }
}

/// The number of fixed-point units in one pixel.
pub const FIXED_ONE: i64 = 65536;

impl Rectangle {
    /// The rectangle at `(x, y)` of size `w` by `h`.
    pub fn new(x: i32, y: i32, w: i32, h: i32) -> (r: Rectangle)
        ensures
            r == (Rectangle { loc: Point { x, y }, size: Size { w, h } }),
    {
        Rectangle { loc: Point { x, y }, size: Size { w, h } }
    }

    /// Whether a fixed-point size covers exactly `pixels`, axis by axis.
    pub open spec fn fixed_size_is(fixed: Size, pixels: Size) -> bool {
        fixed.w as int == pixels.w as int * 65536 && fixed.h as int == pixels.h as int * 65536
    }

    /// Whether this rectangle, read as 16.16 fixed point, starts at the origin
    /// and has exactly the size of `pixels`: neither crop nor scale.
    pub fn fixed_covers(&self, pixels: &Rectangle) -> (b: bool)
        ensures
            b == (self.loc == Point::origin() && Self::fixed_size_is(self.size, pixels.size)),
    {
        let w: i64 = pixels.size.w as i64 * FIXED_ONE;
        let h: i64 = pixels.size.h as i64 * FIXED_ONE;
        self.loc.x == 0 && self.loc.y == 0 && self.size.w as i64 == w && self.size.h as i64 == h
    }
}

} // verus!
