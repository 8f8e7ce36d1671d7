//! An effect that paints the whole panel one color, and its dark variant,
//! which stays black.
use vstd::prelude::*;

use crate::color::{black_color, Color};
use crate::effect::{Effect, EffectConfig, EffectParams};
use crate::framebuffer::{all_cells, Framebuffer};

verus! {

/// The color a parameter set asks for, or `current` where it names none.
pub open spec fn color_after(current: Color, params: EffectParams) -> Color {
    match params.color {
        Some(rgb) => Color { r: rgb@[0], g: rgb@[1], b: rgb@[2] },
        None => current,
    }
}

/// The fill color after `params` are applied: a fixed fill keeps its color.
pub open spec fn fill_after(current: Color, fixed: bool, params: EffectParams) -> Color {
    if fixed {
        current
    } else {
        color_after(current, params)
    }
}

/// Fills the panel with one color.
#[derive(Debug, Clone, Copy, PartialEq, Eq, Structural)]
pub struct SolidEffect {
    color: Color,
    fixed: bool,
}

impl SolidEffect {
    /// The fill color.
    pub closed spec fn spec_color(&self) -> Color {
        self.color
    }

    /// Whether this is the dark variant, whose color parameters are ignored.
    pub closed spec fn fixed(&self) -> bool {
        self.fixed
    }

    /// A white fill.
    pub fn new() -> (e: SolidEffect)
        ensures
            e.spec_color() == (Color { r: 255, g: 255, b: 255 }),
            !e.fixed(),
    {
        SolidEffect { color: Color::white(), fixed: false }
    }

    /// The dark variant: black, whatever color it is later given.
    pub fn off() -> (e: SolidEffect)
        ensures
            e.spec_color() == black_color(),
            e.fixed(),
    {
        SolidEffect { color: Color::black(), fixed: true }
    }

    /// A fill of the given color.
    pub fn with_color(color: Color) -> (e: SolidEffect)
        ensures
            e.spec_color() == color,
            !e.fixed(),
    {
        SolidEffect { color, fixed: false }
    }

    /// The fill color.
    pub fn color(&self) -> (c: Color)
        ensures
            c == self.spec_color(),
    {
        self.color
    }

    fn take_color(&mut self, params: &EffectParams)
        ensures
            final(self).fixed() == old(self).fixed(),
            final(self).spec_color() == fill_after(
                old(self).spec_color(),
                old(self).fixed(),
                *params,
            ),
    {
        if !self.fixed {
            if let Some(rgb) = params.color {
                self.color = Color::from(rgb);
            }
        }
    }
}

impl Default for SolidEffect {
    fn default() -> (e: SolidEffect)
        ensures
            e.spec_color() == (Color { r: 255, g: 255, b: 255 }),
            !e.fixed(),
    {
        SolidEffect::new()
    }
}

impl Effect for SolidEffect {
    open spec fn spec_name(&self) -> Seq<char> {
        if self.fixed() {
            "off"@
        } else {
            "solid"@
        }
    }

    open spec fn hot(&self) -> bool {
        true
    }

    fn name(&self) -> (r: &'static str) {
        if self.fixed {
            "off"
        } else {
            "solid"
        }
    }

    fn init(&mut self, config: &EffectConfig)
        ensures
            final(self).fixed() == old(self).fixed(),
            final(self).spec_color() == fill_after(
                old(self).spec_color(),
                old(self).fixed(),
                config.params,
            ),
    {
        self.take_color(&config.params);
    }

    fn tick(&mut self, fb: &mut Framebuffer, elapsed_us: u64) -> (r: bool)
        ensures
            r,
            *final(self) == *old(self),
            final(fb).pixels().len() == old(fb).pixels().len(),
            all_cells(final(fb).pixels(), old(self).spec_color()),
    {
        fb.fill(self.color);
        true
    }

    fn cleanup(&mut self)
        ensures
            *final(self) == *old(self),
    {
    }

    fn supports_hot_update(&self) -> (r: bool) {
        true
    }

    fn update_params(&mut self, params: &EffectParams)
        ensures
            final(self).fixed() == old(self).fixed(),
            final(self).spec_color() == fill_after(
                old(self).spec_color(),
                old(self).fixed(),
                *params,
            ),
    {
        self.take_color(params);
    }
}

} // verus!
