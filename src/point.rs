//! Signed pixel coordinates.
use vstd::prelude::*;

verus! {

/// A pixel coordinate; negative values lie off the panel.
#[derive(Debug, Clone, Copy, PartialEq, Eq, Structural, Default)]
pub struct Point {
    pub x: i32,
    pub y: i32,
}

/// Whether `(x, y)` lies inside a `w` by `h` grid.
pub open spec fn in_grid(x: int, y: int, w: int, h: int) -> bool {
    0 <= x < w && 0 <= y < h
}

impl Point {
    pub fn new(x: i32, y: i32) -> (p: Point)
        ensures
            p == (Point { x, y }),
    {
        Point { x, y }
    }

    /// Whether the point lies in `0..width` by `0..height`.
    pub fn in_bounds(self, width: u32, height: u32) -> (r: bool)
        ensures
            r == in_grid(self.x as int, self.y as int, width as int, height as int),
    {
        self.x >= 0 && self.y >= 0 && (self.x as u32) < width && (self.y as u32) < height
    }

    /// Row-major index in a buffer `width` wide; `None` for a negative
    /// coordinate, or where the index does not fit in `usize`.
    pub fn to_index(self, width: u32) -> (r: Option<usize>)
        ensures
            r == (if self.x >= 0 && self.y >= 0 && self.y * width + self.x <= usize::MAX {
                Some((self.y * width + self.x) as usize)
            } else {
                None
            }),
    {
        if self.x >= 0 && self.y >= 0 {
            let row = (self.y as usize).checked_mul(width as usize);
            match row {
                Some(row) => (row).checked_add(self.x as usize),
                None => {
                    assert(self.y * width + self.x > usize::MAX) by (nonlinear_arith)
                        requires
                            self.y * width > usize::MAX,
                            self.x >= 0,
                    ;
                    None
                },
            }
        } else {
            None
        }
    }
}

impl From<(i32, i32)> for Point {
    fn from(t: (i32, i32)) -> (p: Point) {
        Point { x: t.0, y: t.1 }
    }
}

impl vstd::std_specs::convert::FromSpecImpl<(i32, i32)> for Point {
    open spec fn obeys_from_spec() -> bool {
        true
    }

    open spec fn from_spec(t: (i32, i32)) -> Point {
        Point { x: t.0, y: t.1 }
    }
}

} // verus!
