//! The contract every effect meets, and the values handed to effects.
use vstd::prelude::*;

use crate::framebuffer::Framebuffer;

verus! {

/// Parameters of an effect. Intensity and speed are in thousandths, so
/// `1000` stands for a factor of one.
#[derive(Debug, Clone)]
pub struct EffectParams {
    /// Effect intensity, from `0` (none) to `1000` (full).
    pub intensity: u16,
    /// Speed multiplier.
    pub speed: u32,
    /// Primary color, if one is chosen.
    pub color: Option<[u8; 3]>,
    /// Further effect-specific settings: each a name and its value as JSON
    /// text, kept for effects that read them.
    pub extra: Vec<(String, String)>,
}

/// The intensity used when none is given: eight tenths.
pub fn default_intensity() -> (r: u16)
    ensures
        r == 800,
{
    800
}

/// The speed used when none is given: a factor of one.
pub fn default_speed() -> (r: u32)
    ensures
        r == 1000,
{
    1000
}

/// `p` holds the parameters used when none are given.
pub open spec fn is_default_params(p: EffectParams) -> bool {
    &&& p.intensity == 800
    &&& p.speed == 1000
    &&& p.color is None
    &&& p.extra@.len() == 0
}

impl Default for EffectParams {
    fn default() -> (p: EffectParams)
        ensures
            is_default_params(p),
    {
        EffectParams {
            intensity: default_intensity(),
            speed: default_speed(),
            color: None,
            extra: Vec::new(),
        }
    }
}

/// What an effect is given when it is initialised.
#[derive(Debug, Clone)]
pub struct EffectConfig {
    pub width: u32,
    pub height: u32,
    pub params: EffectParams,
}

impl EffectConfig {
    /// The panel's cell count fits in `u32`.
    pub open spec fn wf(&self) -> bool {
        self.width * self.height <= u32::MAX
    }
}

/// A stateful generator of frames.
pub trait Effect {
    /// The stable name of the effect.
    spec fn spec_name(&self) -> Seq<char>;

    /// Whether parameters can be changed without a new `init`.
    spec fn hot(&self) -> bool;

    /// The stable name of the effect.
    fn name(&self) -> (r: &'static str)
        ensures
            r@ == self.spec_name(),
    ;

    /// Allocates or resets the internal state for a panel and parameters.
    fn init(&mut self, config: &EffectConfig)
        requires
            config.wf(),
        ensures
            final(self).spec_name() == old(self).spec_name(),
            final(self).hot() == old(self).hot(),
    ;

    /// Draws the next step, `elapsed_us` microseconds after the last one;
    /// returns `false` once the effect has finished.
    fn tick(&mut self, fb: &mut Framebuffer, elapsed_us: u64) -> (r: bool)
        requires
            old(fb).wf(),
        ensures
            final(fb).wf(),
            final(fb).spec_width() == old(fb).spec_width(),
            final(fb).spec_height() == old(fb).spec_height(),
            final(self).spec_name() == old(self).spec_name(),
            final(self).hot() == old(self).hot(),
    ;

    /// Releases what the effect holds; called before it is replaced.
    fn cleanup(&mut self)
        ensures
            final(self).spec_name() == old(self).spec_name(),
            final(self).hot() == old(self).hot(),
    ;

    /// Whether parameters can be changed without a new `init`.
    fn supports_hot_update(&self) -> (r: bool)
        ensures
            r == self.hot(),
    ;

    /// Applies new parameters in place, where that is supported.
    fn update_params(&mut self, params: &EffectParams)
        ensures
            final(self).spec_name() == old(self).spec_name(),
            final(self).hot() == old(self).hot(),
    ;
}

} // verus!
