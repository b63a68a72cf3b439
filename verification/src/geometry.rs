//! Integer points and rectangles in screen coordinates.

use vstd::prelude::*;

verus! {

/// A position on the screen, in pixels.
#[derive(Clone, Copy, Debug, PartialEq, Eq, Structural)]
pub struct Point {
    pub x: i32,
    pub y: i32,
}

/// An axis-aligned rectangle: top-left corner and size, in pixels.
#[derive(Clone, Copy, Debug, PartialEq, Eq, Structural)]
pub struct Rect {
    pub x: i32,
    pub y: i32,
    pub w: u32,
    pub h: u32,
}

impl Point {
    /// The point `(x, y)`.
    pub fn new(x: i32, y: i32) -> (p: Point)
        ensures
            p == (Point { x, y }),
    {
        Point { x, y }
    }

    /// The top-left corner of the screen.
    pub fn origin() -> (p: Point)
        ensures
            p == (Point { x: 0, y: 0 }),
    {
        Point { x: 0, y: 0 }
    }
}

impl Rect {
    /// The rectangle with top-left corner `(x, y)`, `w` pixels wide and `h` high.
    pub fn new(x: i32, y: i32, w: u32, h: u32) -> (r: Rect)
        ensures
            r == (Rect { x, y, w, h }),
    {
        Rect { x, y, w, h }
    }

    /// The first column to the right of the rectangle.
    pub open spec fn right(self) -> int {
        self.x + self.w
    }

    /// The first row below the rectangle.
    pub open spec fn bottom(self) -> int {
        self.y + self.h
    }

    /// Whether `p` lies in the half-open region
    /// `[x, x + w) x [y, y + h)`: the left and top edges belong to the
    /// rectangle, the right and bottom edges do not.
    pub open spec fn contains(self, p: Point) -> bool {
        &&& self.x <= p.x < self.right()
        &&& self.y <= p.y < self.bottom()
    }

    /// Tests `contains` without overflow, whatever the corner and the size.
    pub fn contains_point(&self, p: Point) -> (inside: bool)
        ensures
            inside == self.contains(p),
    {
        let right: i64 = self.x as i64 + self.w as i64;
        let bottom: i64 = self.y as i64 + self.h as i64;
        self.x <= p.x && (p.x as i64) < right && self.y <= p.y && (p.y as i64) < bottom
    }
}

/// The top-left corner of a rectangle with a pixel is inside it, as long as
/// the rectangle is not empty.
pub proof fn lemma_corner_is_inside(r: Rect)
    requires
        r.w > 0,
        r.h > 0,
    ensures
        r.contains(Point { x: r.x, y: r.y }),
{
}

/// No point on the right edge or on the bottom edge is inside, and so the
/// corner diagonally opposite the top-left one is outside.
pub proof fn lemma_far_edges_are_outside(r: Rect, p: Point)
    requires
        p.x == r.right() || p.y == r.bottom(),
    ensures
        !r.contains(p),
{
}

} // verus!
