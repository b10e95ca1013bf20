use vstd::prelude::*;

verus! {

/// A point of the path's coordinate space.
#[derive(Clone, Copy, PartialEq, Eq, Structural, Debug)]
pub struct Point {
    pub x: i32,
    pub y: i32,
}

/// A 2D affine transform, row-vector convention: the point (x, y) maps to
/// (a*x + c*y + e, b*x + d*y + f).
#[derive(Clone, Copy, PartialEq, Eq, Structural, Debug)]
pub struct Matrix {
    pub a: i32,
    pub b: i32,
    pub c: i32,
    pub d: i32,
    pub e: i32,
    pub f: i32,
}

/// An axis-aligned rectangle with corners (x0, y0) and (x1, y1). The fields
/// are wider than the coordinate type because a transformed, stroke-expanded
/// bounding box can leave the coordinate range.
#[derive(Clone, Copy, PartialEq, Eq, Structural, Debug)]
pub struct Rect {
    pub x0: i64,
    pub y0: i64,
    pub x1: i64,
    pub y1: i64,
}

/// The part of a stroke description that the bounding-box computation reads:
/// the width of the stroked line.
#[derive(Clone, Copy, PartialEq, Eq, Structural, Debug)]
pub struct StrokeState {
    pub line_width: u32,
}

/// The transform that leaves every point where it is.
pub open spec fn spec_identity() -> Matrix {
    Matrix { a: 1, b: 0, c: 0, d: 1, e: 0, f: 0 }
}

impl Matrix {
    /// The identity transform.
    pub fn identity() -> (m: Matrix)
        ensures
            m == spec_identity(),
    {
        Matrix { a: 1, b: 0, c: 0, d: 1, e: 0, f: 0 }
    }
}

/// The x coordinate of the point (x, y) under the transform m.
pub open spec fn tx_x(m: Matrix, x: int, y: int) -> int {
    (m.a as int) * x + (m.c as int) * y + (m.e as int)
}

/// The y coordinate of the point (x, y) under the transform m.
pub open spec fn tx_y(m: Matrix, x: int, y: int) -> int {
    (m.b as int) * x + (m.d as int) * y + (m.f as int)
}

} // verus!
