use vstd::prelude::*;

verus! {

/// An axis-aligned box: top-left corner and extent.
#[derive(Clone, Copy, Debug, PartialEq, Eq, Structural)]
pub struct Rect {
    pub min_x: i32,
    pub min_y: i32,
    pub width: u32,
    pub height: u32,
}

/// A non-negative extent.
#[derive(Clone, Copy, Debug, PartialEq, Eq, Structural)]
pub struct Size {
    pub width: u32,
    pub height: u32,
}

/// A scroll position.
#[derive(Clone, Copy, Debug, PartialEq, Eq, Structural)]
pub struct Offset {
    pub x: i32,
    pub y: i32,
}

/// A single point in viewport coordinates, such as a click location.
#[derive(Clone, Copy, Debug, PartialEq, Eq, Structural)]
pub struct Point {
    pub x: i32,
    pub y: i32,
}

impl Rect {
    /// Right edge.
    pub open spec fn right(self) -> int {
        self.min_x + self.width
    }

    /// Bottom edge.
    pub open spec fn bottom(self) -> int {
        self.min_y + self.height
    }

    pub fn new(min_x: i32, min_y: i32, width: u32, height: u32) -> (r: Rect)
        ensures
            r == (Rect { min_x, min_y, width, height }),
    {
        Rect { min_x, min_y, width, height }
    }

    /// A box of the given size with its corner at the origin.
    pub fn at_origin(size: Size) -> (r: Rect)
        ensures
            r == (Rect { min_x: 0, min_y: 0, width: size.width, height: size.height }),
    {
        Rect { min_x: 0, min_y: 0, width: size.width, height: size.height }
    }

    /// The one-unit box whose corner is `p`.
    pub fn unit_at(p: Point) -> (r: Rect)
        ensures
            r == (Rect { min_x: p.x, min_y: p.y, width: 1, height: 1 }),
    {
        Rect { min_x: p.x, min_y: p.y, width: 1, height: 1 }
    }

    pub fn max_x(&self) -> (r: i64)
        ensures
            r == self.right(),
    {
        self.min_x as i64 + self.width as i64
    }

    pub fn max_y(&self) -> (r: i64)
        ensures
            r == self.bottom(),
    {
        self.min_y as i64 + self.height as i64
    }

    pub fn size(&self) -> (r: Size)
        ensures
            r == (Size { width: self.width, height: self.height }),
    {
        Size { width: self.width, height: self.height }
    }
}

impl Size {
    pub fn new(width: u32, height: u32) -> (r: Size)
        ensures
            r == (Size { width, height }),
    {
        Size { width, height }
    }

    pub fn zero() -> (r: Size)
        ensures
            r == (Size { width: 0, height: 0 }),
    {
        Size { width: 0, height: 0 }
    }
}

impl Offset {
    pub fn new(x: i32, y: i32) -> (r: Offset)
        ensures
            r == (Offset { x, y }),
    {
        Offset { x, y }
    }

    pub fn zero() -> (r: Offset)
        ensures
            r == (Offset { x: 0, y: 0 }),
    {
        Offset { x: 0, y: 0 }
    }
}

impl Point {
    pub fn new(x: i32, y: i32) -> (r: Point)
        ensures
            r == (Point { x, y }),
    {
        Point { x, y }
    }
}

} // verus!
