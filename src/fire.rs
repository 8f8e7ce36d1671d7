//! A flame animation driven by a grid of heat values.
use vstd::prelude::*;

use crate::color::Color;
use crate::effect::{Effect, EffectConfig, EffectParams};
use crate::framebuffer::{grid_get, lemma_set_one_cell, Framebuffer};
use crate::point::{in_grid, Point};

verus! {

/// The palette of the flame: black, red, orange, yellow, white, in four
/// bands of the heat range.
pub open spec fn heat_color(heat: int) -> Color {
    if heat <= 63 {
        Color { r: (512 * heat / 255) as u8, g: 0, b: 0 }
    } else if heat <= 127 {
        Color {
            r: (128 + 127 * (4 * heat - 255) / 255) as u8,
            g: (128 * (4 * heat - 255) / 255) as u8,
            b: 0,
        }
    } else if heat <= 191 {
        Color { r: 255, g: (128 + 127 * (4 * heat - 510) / 255) as u8, b: 0 }
    } else {
        Color { r: 255, g: 255, b: (4 * heat - 765) as u8 }
    }
}

/// A linear congruential step, reduced to one byte.
pub open spec fn scramble(seed: int) -> int {
    ((seed * 1103515245 + 12345) % 0x1_0000_0000) / 65536 % 256
}

/// The heat at `(x, y)` of a grid `w` wide and `h` high; zero off the grid
/// or past the end of the values.
pub open spec fn heat_at(heat: Seq<u8>, w: int, h: int, x: int, y: int) -> int {
    if in_grid(x, y, w, h) && y * w + x < heat.len() {
        heat[y * w + x] as int
    } else {
        0
    }
}

/// The heat of the bottom row before it spreads: the intensity, moved by a
/// pseudo-random amount of at most a quarter of the byte range either way.
pub open spec fn seeded_heat(intensity: int, random: int) -> int {
    let base = if intensity * 255 / 1000 > 255 {
        255
    } else {
        intensity * 255 / 1000
    };
    let variation = if random >= 128 {
        (random - 128) / 4
    } else {
        -((128 - random) / 4)
    };
    if base + variation < 0 {
        0
    } else if base + variation > 255 {
        255
    } else {
        base + variation
    }
}

/// The animation step reached after `time_us` microseconds: thirty steps a
/// second, held to the `u32` range.
pub open spec fn step_of(time_us: int) -> int {
    if time_us * 30 / 1_000_000 > u32::MAX {
        u32::MAX as int
    } else {
        time_us * 30 / 1_000_000
    }
}

/// The random seed of column `x` in animation step `frame`.
pub open spec fn seed_of(frame: int, x: int) -> int {
    ((frame * 1000) % 0x1_0000_0000 + x) % 0x1_0000_0000
}

/// The heat grid with its bottom row seeded for animation step `frame`.
pub open spec fn seeded(heat: Seq<u8>, w: int, h: int, intensity: int, frame: int) -> Seq<u8> {
    Seq::new(
        heat.len(),
        |i: int|
            if h > 0 && (h - 1) * w <= i < h * w {
                seeded_heat(intensity, scramble(seed_of(frame, i - (h - 1) * w))) as u8
            } else {
                heat[i]
            },
    )
}

/// The heat at `(x, y)` after it rises from the two rows below and cools by
/// twice the distance to the top.
pub open spec fn risen(g: Seq<u8>, w: int, h: int, x: int, y: int) -> int {
    let avg = (heat_at(g, w, h, x, y + 1) + heat_at(g, w, h, x - 1, y + 1) + heat_at(
        g,
        w,
        h,
        x + 1,
        y + 1,
    ) + heat_at(g, w, h, x, y + 2)) / 4;
    if avg - 2 * (h - y) < 0 {
        0
    } else {
        avg - 2 * (h - y)
    }
}

/// The heat grid one animation step on: the bottom row seeded, every row
/// above risen from the seeded grid.
pub open spec fn next_heat(heat: Seq<u8>, w: int, h: int, intensity: int, frame: int) -> Seq<u8> {
    let g = seeded(heat, w, h, intensity, frame);
    Seq::new(
        heat.len(),
        |i: int|
            if w > 0 && i < (h - 1) * w {
                risen(g, w, h, i % w, i / w) as u8
            } else {
                g[i]
            },
    )
}

/// A cell of a later row has a larger row-major index.
proof fn lemma_later_row(w: int, x: int, y: int, x2: int, y2: int)
    requires
        0 <= x < w,
        0 <= x2 < w,
        0 <= y < y2,
    ensures
        y * w + x < y2 * w + x2,
        (y + 1) * w <= y2 * w + x2,
{
    assert(y * w + x < y2 * w + x2 && (y + 1) * w <= y2 * w + x2) by (nonlinear_arith)
        requires
            0 <= x < w,
            0 <= x2 < w,
            0 <= y < y2,
    ;
}

/// Every cell shared by the frame and the flame's grid, within the range of
/// a `Point`, shows the palette color of its heat.
pub open spec fn shows_heat(px: Seq<Color>, fw: int, fh: int, f: FireEffect) -> bool {
    forall|x: int, y: int|
        #![trigger grid_get(px, fw, fh, x, y)]
        in_grid(x, y, fw, fh) && in_grid(x, y, f.spec_width() as int, f.spec_height() as int) && x
            <= i32::MAX && y <= i32::MAX ==> grid_get(px, fw, fh, x, y) == Some(
            heat_color(heat_at(f.heat(), f.spec_width() as int, f.spec_height() as int, x, y)),
        )
}

/// Every cell of the frame outside the flame's grid, or beyond the range of
/// a `Point`, is as it was.
pub open spec fn keeps_outside(
    before: Seq<Color>,
    after: Seq<Color>,
    fw: int,
    fh: int,
    f: FireEffect,
) -> bool {
    forall|x: int, y: int|
        #![trigger grid_get(after, fw, fh, x, y)]
        in_grid(x, y, fw, fh) && !(in_grid(x, y, f.spec_width() as int, f.spec_height() as int)
            && x <= i32::MAX && y <= i32::MAX) ==> grid_get(after, fw, fh, x, y) == grid_get(
            before,
            fw,
            fh,
            x,
            y,
        )
}

/// A flame: heat is seeded along the bottom row, rises with neighbour
/// averaging and cools more towards the top.
#[derive(Debug, Clone)]
pub struct FireEffect {
    width: u32,
    height: u32,
    heat: Vec<u8>,
    intensity: u16,
    time_us: u64,
}

impl FireEffect {
    pub closed spec fn spec_width(&self) -> u32 {
        self.width
    }

    pub closed spec fn spec_height(&self) -> u32 {
        self.height
    }

    /// The heat grid, row after row.
    pub closed spec fn heat(&self) -> Seq<u8> {
        self.heat@
    }

    /// Intensity, in thousandths.
    pub closed spec fn spec_intensity(&self) -> u16 {
        self.intensity
    }

    /// Time run since `init`, in microseconds.
    pub closed spec fn elapsed(&self) -> u64 {
        self.time_us
    }

    /// A flame for a 64 by 32 panel, not yet initialised.
    pub fn new() -> (e: FireEffect)
        ensures
            e.spec_width() == 64,
            e.spec_height() == 32,
            e.heat().len() == 0,
            e.spec_intensity() == 800,
            e.elapsed() == 0,
    {
        FireEffect { width: 64, height: 32, heat: Vec::new(), intensity: 800, time_us: 0 }
    }

    /// The heat at `(x, y)`; zero off the grid.
    fn get_heat(&self, x: i64, y: i64) -> (v: u8)
        ensures
            v == heat_at(self.heat@, self.width as int, self.height as int, x as int, y as int),
    {
        if x >= 0 && x < self.width as i64 && y >= 0 && y < self.height as i64 {
            let idx = self.cell(x as u32, y as u32);
            if idx < self.heat.len() as u64 {
                self.heat[idx as usize]
            } else {
                0
            }
        } else {
            0
        }
    }

    /// The row-major index of a cell of the grid.
    fn cell(&self, x: u32, y: u32) -> (idx: u64)
        requires
            in_grid(x as int, y as int, self.width as int, self.height as int),
        ensures
            idx == y * self.width + x,
    {
        assert(y * self.width + x <= u32::MAX * u32::MAX) by (nonlinear_arith)
            requires
                x < self.width,
                y < self.height,
                self.width <= u32::MAX,
        ;
        y as u64 * self.width as u64 + x as u64
    }

    /// Writes the heat at `(x, y)`; nothing happens off the grid.
    fn set_heat(&mut self, x: u32, y: u32, value: u8)
        ensures
            final(self).width == old(self).width,
            final(self).height == old(self).height,
            final(self).intensity == old(self).intensity,
            final(self).time_us == old(self).time_us,
            final(self).heat@ == (if in_grid(x as int, y as int, old(self).width as int, old(self).height as int)
                && y * old(self).width + x < old(self).heat@.len() {
                old(self).heat@.update(y * old(self).width + x, value)
            } else {
                old(self).heat@
            }),
    {
        if x < self.width && y < self.height {
            let idx = self.cell(x, y);
            if idx < self.heat.len() as u64 {
                self.heat.set(idx as usize, value);
            }
        }
    }

    /// The palette color of a heat value.
    pub fn heat_to_color(heat: u8) -> (c: Color)
        ensures
            c == heat_color(heat as int),
    {
        let h = heat as u32;
        if h <= 63 {
            Color::new((512 * h / 255) as u8, 0, 0)
        } else if h <= 127 {
            Color::new((128 + 127 * (4 * h - 255) / 255) as u8, (128 * (4 * h - 255) / 255) as u8, 0)
        } else if h <= 191 {
            Color::new(255, (128 + 127 * (4 * h - 510) / 255) as u8, 0)
        } else {
            Color::new(255, 255, (4 * h - 765) as u8)
        }
    }

    /// A byte drawn from `seed` by one linear congruential step.
    pub fn random(seed: u32) -> (r: u8)
        ensures
            r == scramble(seed as int),
    {
        let x = seed.wrapping_mul(1103515245).wrapping_add(12345);
        assert(x == (seed * 1103515245 + 12345) % 0x1_0000_0000) by (nonlinear_arith)
            requires
                x == (((seed * 1103515245) % 0x1_0000_0000) + 12345) % 0x1_0000_0000,
        {
            assert(((seed * 1103515245) % 0x1_0000_0000 + 12345) % 0x1_0000_0000 == (seed
                * 1103515245 + 12345) % 0x1_0000_0000) by (nonlinear_arith);
        }
        assert((x >> 16u32) & 0xFFu32 == (x / 65536) % 256) by (bit_vector);
        ((x >> 16u32) & 0xFFu32) as u8
    }

    /// The heat seeded at column `x` of the bottom row in animation step
    /// `frame`.
    fn seed_heat(&self, frame: u32, x: u32) -> (v: u8)
        ensures
            v == seeded_heat(self.intensity as int, scramble(seed_of(frame as int, x as int))),
    {
        let seed = frame.wrapping_mul(1000).wrapping_add(x);
        let scaled = self.intensity as u32 * 255 / 1000;
        let base: u32 = if scaled > 255 { 255 } else { scaled };
        let r = FireEffect::random(seed) as u32;
        let heat: i64 = if r >= 128 {
            base as i64 + ((r - 128) / 4) as i64
        } else {
            base as i64 - ((128 - r) / 4) as i64
        };
        if heat < 0 {
            0
        } else if heat > 255 {
            255
        } else {
            heat as u8
        }
    }
}

impl Default for FireEffect {
    fn default() -> (e: FireEffect)
        ensures
            e.spec_width() == 64,
            e.spec_height() == 32,
            e.heat().len() == 0,
            e.spec_intensity() == 800,
            e.elapsed() == 0,
    {
        FireEffect::new()
    }
}

impl Effect for FireEffect {
    open spec fn spec_name(&self) -> Seq<char> {
        "fire"@
    }

    open spec fn hot(&self) -> bool {
        true
    }

    fn name(&self) -> (r: &'static str) {
        "fire"
    }

    fn init(&mut self, config: &EffectConfig)
        ensures
            final(self).spec_width() == config.width,
            final(self).spec_height() == config.height,
            final(self).spec_intensity() == config.params.intensity,
            final(self).elapsed() == 0,
            final(self).heat().len() == config.width * config.height,
            forall|i: int| 0 <= i < final(self).heat().len() ==> final(self).heat()[i] == 0,
    {
        let size = config.width * config.height;
        let mut heat: Vec<u8> = Vec::new();
        let mut i: u32 = 0;
        while i < size
            invariant
                i <= size,
                heat@.len() == i,
                forall|j: int| 0 <= j < i ==> heat@[j] == 0,
            decreases size - i,
        {
            heat.push(0);
            i = i + 1;
        }
        *self = FireEffect {
            width: config.width,
            height: config.height,
            heat,
            intensity: config.params.intensity,
            time_us: 0,
        };
    }

    fn tick(&mut self, fb: &mut Framebuffer, elapsed_us: u64) -> (r: bool)
        ensures
            r,
            final(self).spec_width() == old(self).spec_width(),
            final(self).spec_height() == old(self).spec_height(),
            final(self).spec_intensity() == old(self).spec_intensity(),
            final(self).heat() == next_heat(
                old(self).heat(),
                old(self).spec_width() as int,
                old(self).spec_height() as int,
                old(self).spec_intensity() as int,
                step_of(final(self).elapsed() as int),
            ),
            final(self).elapsed() == (if old(self).elapsed() + elapsed_us > u64::MAX {
                u64::MAX as int
            } else {
                old(self).elapsed() + elapsed_us
            }),
            shows_heat(
                final(fb).pixels(),
                final(fb).spec_width() as int,
                final(fb).spec_height() as int,
                *final(self),
            ),
            keeps_outside(
                old(fb).pixels(),
                final(fb).pixels(),
                final(fb).spec_width() as int,
                final(fb).spec_height() as int,
                *final(self),
            ),
    {
        self.time_us = self.time_us.saturating_add(elapsed_us);
        let steps: u128 = self.time_us as u128 * 30 / 1_000_000;
        let frame: u32 = if steps > u32::MAX as u128 { u32::MAX } else { steps as u32 };
        let w = self.width;
        let h = self.height;
        let ghost len = self.heat@.len();
        let ghost intensity = self.intensity;
        let ghost time_us = self.time_us;

        let ghost start = self.heat@;
        let ghost g = seeded(start, w as int, h as int, intensity as int, frame as int);
        assert(frame == step_of(time_us as int));
        // Seed the bottom row.
        if h > 0 {
            let mut x: u32 = 0;
            while x < w
                invariant
                    self.width == w,
                    self.height == h,
                    h > 0,
                    self.heat@.len() == len,
                    len == start.len(),
                    self.intensity == intensity,
                    self.time_us == time_us,
                    g == seeded(start, w as int, h as int, intensity as int, frame as int),
                    forall|i: int|
                        #![trigger self.heat@[i]]
                        0 <= i < len ==> self.heat@[i] == (if (h - 1) * w <= i < (h - 1) * w + x {
                            g[i]
                        } else {
                            start[i]
                        }),
                decreases w - x,
            {
                let v = self.seed_heat(frame, x);
                proof {
                    assert((h - 1) * w + x < h * w) by (nonlinear_arith)
                        requires
                            x < w,
                            h > 0,
                    ;
                }
                self.set_heat(x, h - 1, v);
                x = x + 1;
            }
        }
        assert(self.heat@ =~= g) by {
            if h > 0 {
                assert((h - 1) * w + w == h * w) by (nonlinear_arith);
            } else {
                assert forall|i: int| 0 <= i < len implies self.heat@[i] == g[i] by {}
            }
        }
        // Let the heat rise and cool.
        let mut y: u32 = 0;
        assert(y * w == 0);
        while h > 0 && y < h - 1
            invariant
                self.width == w,
                self.height == h,
                self.heat@.len() == len,
                len == g.len(),
                self.intensity == intensity,
                self.time_us == time_us,
                h > 0 ==> y <= h - 1,
                h == 0 ==> y == 0,
                forall|i: int|
                    #![trigger self.heat@[i]]
                    0 <= i < len ==> self.heat@[i] == (if i < y * w {
                        risen(g, w as int, h as int, i % (w as int), i / (w as int)) as u8
                    } else {
                        g[i]
                    }),
            decreases h - y,
        {
            let mut x: u32 = 0;
            while x < w
                invariant
                    self.width == w,
                    self.height == h,
                    h > 0,
                    y < h - 1,
                    self.heat@.len() == len,
                    len == g.len(),
                    self.intensity == intensity,
                    self.time_us == time_us,
                    x <= w,
                    forall|i: int|
                        #![trigger self.heat@[i]]
                        0 <= i < len ==> self.heat@[i] == (if i < y * w + x {
                            risen(g, w as int, h as int, i % (w as int), i / (w as int)) as u8
                        } else {
                            g[i]
                        }),
                decreases w - x,
            {
                proof {
                    assert forall|x2: int, y2: int|
                        #![trigger heat_at(self.heat@, w as int, h as int, x2, y2)]
                        y2 > y && 0 <= x2 < w implies heat_at(self.heat@, w as int, h as int, x2, y2)
                        == heat_at(g, w as int, h as int, x2, y2) by {
                        lemma_later_row(w as int, x as int, y as int, x2, y2);
                    }
                    let (wi, hi) = (w as int, h as int);
                    assert(heat_at(self.heat@, wi, hi, x - 1, y + 1) == heat_at(g, wi, hi, x - 1, y + 1));
                    assert(heat_at(self.heat@, wi, hi, x + 1, y + 1) == heat_at(g, wi, hi, x + 1, y + 1));
                }
                let below = self.get_heat(x as i64, y as i64 + 1) as i64;
                let below_left = self.get_heat(x as i64 - 1, y as i64 + 1) as i64;
                let below_right = self.get_heat(x as i64 + 1, y as i64 + 1) as i64;
                let below_two = self.get_heat(x as i64, y as i64 + 2) as i64;
                let avg = (below + below_left + below_right + below_two) / 4;
                let cooling = (h as i64 - y as i64) * 2;
                let v: u8 = if avg - cooling < 0 { 0 } else { (avg - cooling) as u8 };
                proof {
                    assert(v == risen(g, w as int, h as int, x as int, y as int));
                    vstd::arithmetic::div_mod::lemma_fundamental_div_mod_converse(
                        y * w + x,
                        w as int,
                        y as int,
                        x as int,
                    );
                }
                self.set_heat(x, y, v);
                x = x + 1;
            }
            proof {
                assert(y * w + w == (y + 1) * w) by (nonlinear_arith);
            }
            y = y + 1;
        }
        proof {
            let target = next_heat(start, w as int, h as int, intensity as int, frame as int);
            if h > 0 {
                assert(y == h - 1);
            } else {
                assert(y * w == 0);
                assert((h - 1) * w <= 0) by (nonlinear_arith)
                    requires
                        h == 0,
                        w >= 0,
                ;
            }
            assert forall|i: int| 0 <= i < len implies self.heat@[i] == target[i] by {
                if w == 0 {
                    assert(y * w == 0);
                }
            }
            assert(self.heat@ =~= target);
        }
        // Paint the heat grid.
        let ghost fw = fb.spec_width() as int;
        let ghost fh = fb.spec_height() as int;
        let ghost fb0 = fb.pixels();
        let rows: i64 = if h as i64 > 0x8000_0000 { 0x8000_0000 } else { h as i64 };
        let cols: i64 = if w as i64 > 0x8000_0000 { 0x8000_0000 } else { w as i64 };
        let mut row: i64 = 0;
        while row < rows
            invariant
                self.width == w,
                self.height == h,
                self.heat@.len() == len,
                self.intensity == intensity,
                self.time_us == time_us,
                rows == (if h > 0x8000_0000 { 0x8000_0000 } else { h as int }),
                cols == (if w > 0x8000_0000 { 0x8000_0000 } else { w as int }),
                0 <= row <= rows,
                fb.wf(),
                fb.spec_width() == fw,
                fb.spec_height() == fh,
                forall|x: int, yy: int|
                    #![trigger grid_get(fb.pixels(), fw, fh, x, yy)]
                    in_grid(x, yy, fw, fh) && !(in_grid(x, yy, w as int, h as int) && x
                        <= i32::MAX && yy <= i32::MAX) ==> grid_get(fb.pixels(), fw, fh, x, yy)
                        == grid_get(fb0, fw, fh, x, yy),
                forall|x: int, yy: int|
                    #![trigger grid_get(fb.pixels(), fw, fh, x, yy)]
                    in_grid(x, yy, fw, fh) && in_grid(x, yy, w as int, h as int) && x <= i32::MAX
                        && yy < row ==> grid_get(fb.pixels(), fw, fh, x, yy) == Some(
                        heat_color(heat_at(self.heat@, w as int, h as int, x, yy)),
                    ),
            decreases rows - row,
        {
            let mut col: i64 = 0;
            while col < cols
                invariant
                    self.width == w,
                    self.height == h,
                    self.heat@.len() == len,
                    self.intensity == intensity,
                    self.time_us == time_us,
                    rows == (if h > 0x8000_0000 { 0x8000_0000 } else { h as int }),
                    cols == (if w > 0x8000_0000 { 0x8000_0000 } else { w as int }),
                    0 <= row < rows,
                    0 <= col <= cols,
                    fb.wf(),
                    fb.spec_width() == fw,
                    fb.spec_height() == fh,
                    forall|x: int, yy: int|
                        #![trigger grid_get(fb.pixels(), fw, fh, x, yy)]
                        in_grid(x, yy, fw, fh) && !(in_grid(x, yy, w as int, h as int) && x
                            <= i32::MAX && yy <= i32::MAX) ==> grid_get(fb.pixels(), fw, fh, x, yy)
                            == grid_get(fb0, fw, fh, x, yy),
                    forall|x: int, yy: int|
                        #![trigger grid_get(fb.pixels(), fw, fh, x, yy)]
                        in_grid(x, yy, fw, fh) && in_grid(x, yy, w as int, h as int) && x
                            <= i32::MAX && (yy < row || (yy == row && x < col)) ==> grid_get(
                            fb.pixels(),
                            fw,
                            fh,
                            x,
                            yy,
                        ) == Some(heat_color(heat_at(self.heat@, w as int, h as int, x, yy))),
                decreases cols - col,
            {
                let v = self.get_heat(col, row);
                let c = FireEffect::heat_to_color(v);
                proof {
                    if in_grid(col as int, row as int, fw, fh) {
                        lemma_set_one_cell(fb.pixels(), fw, fh, col as int, row as int, c);
                    }
                }
                fb.set(Point { x: col as i32, y: row as i32 }, c);
                col = col + 1;
            }
            row = row + 1;
        }
        true
    }

    fn cleanup(&mut self)
        ensures
            final(self).spec_width() == old(self).spec_width(),
            final(self).spec_height() == old(self).spec_height(),
            final(self).spec_intensity() == old(self).spec_intensity(),
            final(self).elapsed() == old(self).elapsed(),
            final(self).heat().len() == 0,
    {
        self.heat.clear();
    }

    fn supports_hot_update(&self) -> (r: bool) {
        true
    }

    fn update_params(&mut self, params: &EffectParams)
        ensures
            final(self).spec_width() == old(self).spec_width(),
            final(self).spec_height() == old(self).spec_height(),
            final(self).spec_intensity() == params.intensity,
            final(self).heat() == old(self).heat(),
            final(self).elapsed() == old(self).elapsed(),
    {
        self.intensity = params.intensity;
    }
}

} // verus!
