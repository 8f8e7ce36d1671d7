//! The framebuffer: a fixed grid of colors, row-major, with bounds-checked access.
use vstd::prelude::*;

use crate::color::{black_color, Color};
use crate::point::{in_grid, Point};

verus! {

/// The color at `(x, y)` of a row-major grid `w` wide and `h` high, or `None`
/// off the grid.
pub open spec fn grid_get(px: Seq<Color>, w: int, h: int, x: int, y: int) -> Option<Color> {
    if in_grid(x, y, w, h) {
        Some(px[y * w + x])
    } else {
        None
    }
}

/// The grid after writing `c` at `(x, y)`; unchanged off the grid.
pub open spec fn grid_set(px: Seq<Color>, w: int, h: int, x: int, y: int, c: Color) -> Seq<Color> {
    if in_grid(x, y, w, h) {
        px.update(y * w + x, c)
    } else {
        px
    }
}

/// Every cell of the grid holds `c`.
pub open spec fn all_cells(px: Seq<Color>, c: Color) -> bool {
    forall|i: int| 0 <= i < px.len() ==> px[i] == c
}

/// The grid after painting `c` on every cell with `x0 <= x <= x1` and
/// `y0 <= y <= y1`, as seen through `grid_get`.
pub open spec fn painted(
    before: Seq<Color>,
    after: Seq<Color>,
    w: int,
    h: int,
    x0: int,
    x1: int,
    y0: int,
    y1: int,
    c: Color,
) -> bool {
    &&& after.len() == before.len()
    &&& forall|x: int, y: int|
        #![trigger grid_get(after, w, h, x, y)]
        in_grid(x, y, w, h) ==> grid_get(after, w, h, x, y) == (if x0 <= x <= x1 && y0 <= y <= y1 {
            Some(c)
        } else {
            grid_get(before, w, h, x, y)
        })
}

/// Distinct cells of a grid have distinct row-major indices, all in range.
pub proof fn lemma_cell_index(w: int, h: int, x: int, y: int, qx: int, qy: int)
    requires
        in_grid(x, y, w, h),
        in_grid(qx, qy, w, h),
    ensures
        0 <= y * w + x < w * h,
        (y * w + x == qy * w + qx) <==> (x == qx && y == qy),
{
    assert(0 <= y * w + x < w * h) by (nonlinear_arith)
        requires
            0 <= x < w,
            0 <= y < h,
    ;
    if y * w + x == qy * w + qx {
        assert(x == qx && y == qy) by (nonlinear_arith)
            requires
                0 <= x < w,
                0 <= qx < w,
                y * w + x == qy * w + qx,
                0 <= y,
                0 <= qy,
        ;
    }
}

/// Writing a color at a cell of the grid and then reading that cell gives the
/// color back; off the grid, a read gives nothing and a write changes nothing.
pub proof fn lemma_set_then_get(px: Seq<Color>, w: int, h: int, x: int, y: int, c: Color)
    requires
        0 <= w,
        0 <= h,
        px.len() == w * h,
    ensures
        in_grid(x, y, w, h) ==> grid_get(grid_set(px, w, h, x, y, c), w, h, x, y) == Some(c),
        !in_grid(x, y, w, h) ==> grid_get(grid_set(px, w, h, x, y, c), w, h, x, y) == None::<
            Color,
        >,
        !in_grid(x, y, w, h) ==> grid_set(px, w, h, x, y, c) == px,
{
    if in_grid(x, y, w, h) {
        lemma_cell_index(w, h, x, y, x, y);
    }
}

/// Writing one cell changes that cell alone.
pub proof fn lemma_set_one_cell(px: Seq<Color>, w: int, h: int, x: int, y: int, c: Color)
    requires
        0 <= w,
        0 <= h,
        px.len() == w * h,
        in_grid(x, y, w, h),
    ensures
        grid_set(px, w, h, x, y, c).len() == px.len(),
        forall|qx: int, qy: int|
            #![trigger grid_get(grid_set(px, w, h, x, y, c), w, h, qx, qy)]
            in_grid(qx, qy, w, h) ==> grid_get(grid_set(px, w, h, x, y, c), w, h, qx, qy) == (if qx
                == x && qy == y {
                Some(c)
            } else {
                grid_get(px, w, h, qx, qy)
            }),
{
    lemma_cell_index(w, h, x, y, x, y);
    assert forall|qx: int, qy: int| in_grid(qx, qy, w, h) implies grid_get(
        grid_set(px, w, h, x, y, c),
        w,
        h,
        qx,
        qy,
    ) == (if qx == x && qy == y {
        Some(c)
    } else {
        grid_get(px, w, h, qx, qy)
    }) by {
        lemma_cell_index(w, h, x, y, qx, qy);
        lemma_cell_index(w, h, qx, qy, qx, qy);
    }
}

/// A grid of pixels fixed in size at construction.
#[derive(Clone, Debug)]
pub struct Framebuffer {
    width: u32,
    height: u32,
    data: Vec<Color>,
}

impl Framebuffer {
    pub closed spec fn spec_width(&self) -> u32 {
        self.width
    }

    pub closed spec fn spec_height(&self) -> u32 {
        self.height
    }

    /// The pixels, row after row.
    pub closed spec fn pixels(&self) -> Seq<Color> {
        self.data@
    }

    /// The grid holds exactly `width * height` pixels.
    pub open spec fn wf(&self) -> bool {
        self.pixels().len() == self.spec_width() as int * self.spec_height() as int
    }

    /// The color at `p`, or `None` off the grid.
    pub open spec fn pixel(&self, p: Point) -> Option<Color> {
        grid_get(self.pixels(), self.spec_width() as int, self.spec_height() as int, p.x as int, p.y as int)
    }

    /// A black framebuffer of `width` by `height` pixels.
    pub fn new(width: u32, height: u32) -> (fb: Framebuffer)
        requires
            width * height <= u32::MAX,
        ensures
            fb.wf(),
            fb.spec_width() == width,
            fb.spec_height() == height,
            all_cells(fb.pixels(), black_color()),
    {
        let size = width * height;
        let mut data: Vec<Color> = Vec::new();
        let mut i: u32 = 0;
        while i < size
            invariant
                i <= size,
                data@.len() == i,
                all_cells(data@, black_color()),
            decreases size - i,
        {
            data.push(Color::black());
            i = i + 1;
        }
        Framebuffer { width, height, data }
    }

    pub fn width(&self) -> (w: u32)
        ensures
            w == self.spec_width(),
    {
        self.width
    }

    pub fn height(&self) -> (h: u32)
        ensures
            h == self.spec_height(),
    {
        self.height
    }

    /// The number of pixels.
    pub fn pixel_count(&self) -> (n: usize)
        ensures
            n == self.pixels().len(),
    {
        self.data.len()
    }

    /// Paints every pixel black.
    pub fn clear(&mut self)
        ensures
            final(self).spec_width() == old(self).spec_width(),
            final(self).spec_height() == old(self).spec_height(),
            final(self).pixels().len() == old(self).pixels().len(),
            all_cells(final(self).pixels(), black_color()),
    {
        self.fill(Color::black());
    }

    /// Paints every pixel `color`.
    pub fn fill(&mut self, color: Color)
        ensures
            final(self).spec_width() == old(self).spec_width(),
            final(self).spec_height() == old(self).spec_height(),
            final(self).pixels().len() == old(self).pixels().len(),
            all_cells(final(self).pixels(), color),
    {
        let n = self.data.len();
        let mut i: usize = 0;
        while i < n
            invariant
                i <= n,
                n == self.data@.len(),
                self.width == old(self).width,
                self.height == old(self).height,
                self.data@.len() == old(self).data@.len(),
                forall|j: int| 0 <= j < i ==> self.data@[j] == color,
            decreases n - i,
        {
            self.data.set(i, color);
            i = i + 1;
        }
    }

    /// The row-major index of the cell `(x, y)` of the grid.
    fn cell_index(&self, x: u32, y: u32) -> (idx: usize)
        requires
            self.wf(),
            in_grid(x as int, y as int, self.width as int, self.height as int),
        ensures
            idx == y * self.width + x,
            idx < self.data@.len(),
    {
        proof {
            lemma_cell_index(self.width as int, self.height as int, x as int, y as int, x as int, y as int);
        }
        let yy = y as usize;
        let w = self.width as usize;
        let n = self.data.len();
        assert(yy * w <= yy * w + x < n);
        yy * w + x as usize
    }

    /// The row-major index of a point on the grid.
    fn index_of(&self, point: Point) -> (idx: usize)
        requires
            self.wf(),
            in_grid(point.x as int, point.y as int, self.width as int, self.height as int),
        ensures
            idx == point.y * self.width + point.x,
            idx < self.data@.len(),
    {
        self.cell_index(point.x as u32, point.y as u32)
    }

    /// The color at `point`, or `None` when it lies off the grid.
    pub fn get(&self, point: Point) -> (r: Option<Color>)
        requires
            self.wf(),
        ensures
            r == self.pixel(point),
    {
        if point.in_bounds(self.width, self.height) {
            let idx = self.index_of(point);
            Some(self.data[idx])
        } else {
            None
        }
    }

    /// Writes `color` at `point`; does nothing when it lies off the grid.
    pub fn set(&mut self, point: Point, color: Color)
        requires
            old(self).wf(),
        ensures
            final(self).wf(),
            final(self).spec_width() == old(self).spec_width(),
            final(self).spec_height() == old(self).spec_height(),
            final(self).pixels() == grid_set(
                old(self).pixels(),
                old(self).spec_width() as int,
                old(self).spec_height() as int,
                point.x as int,
                point.y as int,
                color,
            ),
    {
        if point.in_bounds(self.width, self.height) {
            let idx = self.index_of(point);
            self.data.set(idx, color);
        }
    }

    /// The pixels, row after row, to be changed in place.
    pub fn data_mut(&mut self) -> (d: &mut [Color])
        ensures
            d@ == old(self).pixels(),
            final(self).pixels() == final(d)@,
            final(self).spec_width() == old(self).spec_width(),
            final(self).spec_height() == old(self).spec_height(),
    {
        self.data.as_mut_slice()
    }

    /// The pixels, row after row.
    pub fn data(&self) -> (d: &[Color])
        ensures
            d@ == self.pixels(),
    {
        self.data.as_slice()
    }

    /// Paints `color` on every cell with `x0 <= x <= x1` and `y0 <= y <= y1`
    /// that lies on the grid.
    fn paint_rect(&mut self, x0: i64, x1: i64, y0: i64, y1: i64, color: Color)
        requires
            old(self).wf(),
        ensures
            final(self).wf(),
            final(self).spec_width() == old(self).spec_width(),
            final(self).spec_height() == old(self).spec_height(),
            painted(
                old(self).pixels(),
                final(self).pixels(),
                old(self).spec_width() as int,
                old(self).spec_height() as int,
                x0 as int,
                x1 as int,
                y0 as int,
                y1 as int,
                color,
            ),
    {
        let ghost before = self.data@;
        let ghost w = self.width as int;
        let ghost h = self.height as int;
        if self.width == 0 || self.height == 0 {
            return;
        }
        let cx0: i64 = if x0 < 0 { 0 } else { x0 };
        let cx1: i64 = if x1 > self.width as i64 - 1 { self.width as i64 - 1 } else { x1 };
        let cy0: i64 = if y0 < 0 { 0 } else { y0 };
        let cy1: i64 = if y1 > self.height as i64 - 1 { self.height as i64 - 1 } else { y1 };
        let mut row: i64 = cy0;
        while row <= cy1
            invariant
                self.wf(),
                self.width == w,
                self.height == h,
                w > 0,
                h > 0,
                before.len() == w * h,
                cx0 == (if x0 < 0 { 0 } else { x0 }),
                cx1 == (if x1 > w - 1 { w - 1 } else { x1 as int }),
                cy0 == (if y0 < 0 { 0 } else { y0 }),
                cy1 == (if y1 > h - 1 { h - 1 } else { y1 as int }),
                cy0 <= row,
                row <= cy1 + 1 || row == cy0,
                painted(before, self.data@, w, h, x0 as int, x1 as int, y0 as int, row - 1, color),
            decreases cy1 + 1 - row,
        {
            let mut col: i64 = cx0;
            while col <= cx1
                invariant
                    self.wf(),
                    self.width == w,
                    self.height == h,
                    w > 0,
                    h > 0,
                    before.len() == w * h,
                    cx0 == (if x0 < 0 { 0 } else { x0 }),
                    cx1 == (if x1 > w - 1 { w - 1 } else { x1 as int }),
                    cy0 <= row <= cy1,
                    cy0 == (if y0 < 0 { 0 } else { y0 }),
                    cy1 == (if y1 > h - 1 { h - 1 } else { y1 as int }),
                    cx0 <= col,
                    col <= cx1 + 1 || col == cx0,
                    self.data@.len() == before.len(),
                    forall|x: int, y: int|
                        #![trigger grid_get(self.data@, w, h, x, y)]
                        in_grid(x, y, w, h) ==> grid_get(self.data@, w, h, x, y) == (if (x0 <= x
                            <= x1 && y0 <= y <= row - 1) || (x0 <= x < col && y == row) {
                            Some(color)
                        } else {
                            grid_get(before, w, h, x, y)
                        }),
                decreases cx1 + 1 - col,
            {
                proof {
                    lemma_set_one_cell(self.data@, w, h, col as int, row as int, color);
                }
                let idx = self.cell_index(col as u32, row as u32);
                self.data.set(idx, color);
                col = col + 1;
            }
            row = row + 1;
        }
    }

    /// Paints the cells of row `y` from `x1` to `x2`, both included, in
    /// either order; cells off the grid are skipped.
    pub fn draw_hline(&mut self, y: i32, x1: i32, x2: i32, color: Color)
        requires
            old(self).wf(),
        ensures
            final(self).wf(),
            final(self).spec_width() == old(self).spec_width(),
            final(self).spec_height() == old(self).spec_height(),
            painted(
                old(self).pixels(),
                final(self).pixels(),
                old(self).spec_width() as int,
                old(self).spec_height() as int,
                if x1 <= x2 { x1 as int } else { x2 as int },
                if x1 <= x2 { x2 as int } else { x1 as int },
                y as int,
                y as int,
                color,
            ),
    {
        let (start, end) = if x1 <= x2 { (x1, x2) } else { (x2, x1) };
        self.paint_rect(start as i64, end as i64, y as i64, y as i64, color);
    }

    /// Paints the cells of column `x` from `y1` to `y2`, both included, in
    /// either order; cells off the grid are skipped.
    pub fn draw_vline(&mut self, x: i32, y1: i32, y2: i32, color: Color)
        requires
            old(self).wf(),
        ensures
            final(self).wf(),
            final(self).spec_width() == old(self).spec_width(),
            final(self).spec_height() == old(self).spec_height(),
            painted(
                old(self).pixels(),
                final(self).pixels(),
                old(self).spec_width() as int,
                old(self).spec_height() as int,
                x as int,
                x as int,
                if y1 <= y2 { y1 as int } else { y2 as int },
                if y1 <= y2 { y2 as int } else { y1 as int },
                color,
            ),
    {
        let (start, end) = if y1 <= y2 { (y1, y2) } else { (y2, y1) };
        self.paint_rect(x as i64, x as i64, start as i64, end as i64, color);
    }

    /// Paints the `w` by `h` rectangle whose top left cell is `(x, y)`; cells
    /// off the grid are skipped.
    pub fn fill_rect(&mut self, x: i32, y: i32, w: u32, h: u32, color: Color)
        requires
            old(self).wf(),
        ensures
            final(self).wf(),
            final(self).spec_width() == old(self).spec_width(),
            final(self).spec_height() == old(self).spec_height(),
            painted(
                old(self).pixels(),
                final(self).pixels(),
                old(self).spec_width() as int,
                old(self).spec_height() as int,
                x as int,
                x + w - 1,
                y as int,
                y + h - 1,
                color,
            ),
    {
        self.paint_rect(x as i64, x as i64 + w as i64 - 1, y as i64, y as i64 + h as i64 - 1, color);
    }
}

impl Default for Framebuffer {
    /// A black 64 by 32 framebuffer.
    fn default() -> (fb: Framebuffer)
        ensures
            fb.wf(),
            fb.spec_width() == 64,
            fb.spec_height() == 32,
            all_cells(fb.pixels(), black_color()),
    {
        Framebuffer::new(64, 32)
    }
}

} // verus!
