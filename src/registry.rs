//! The effects known by name, and the slot that holds whichever one runs.
use vstd::prelude::*;

use crate::color::{black_color, Color};
use crate::effect::{Effect, EffectConfig, EffectParams};
use crate::fire::{keeps_outside, next_heat, shows_heat, step_of, FireEffect};
use crate::framebuffer::Framebuffer;
use crate::solid::{color_after, fill_after, SolidEffect};

verus! {

/// Whether an effect is registered under `name`.
pub open spec fn registered(name: Seq<char>) -> bool {
    name == "fire"@ || name == "solid"@ || name == "off"@
}

/// One instance of any registered effect.
#[derive(Debug, Clone)]
pub enum EffectSlot {
    Fire(FireEffect),
    Solid(SolidEffect),
}

/// `e` is the effect registered under `name`, just created.
pub open spec fn created(name: Seq<char>, e: EffectSlot) -> bool {
    if name == "fire"@ {
        &&& e matches EffectSlot::Fire(f)
        &&& f.spec_width() == 64
        &&& f.spec_height() == 32
        &&& f.spec_intensity() == 800
        &&& f.heat().len() == 0
        &&& f.elapsed() == 0
    } else if name == "off"@ {
        e matches EffectSlot::Solid(s) && s.fixed() && s.spec_color() == black_color()
    } else {
        e matches EffectSlot::Solid(s) && !s.fixed() && s.spec_color() == (Color {
            r: 255,
            g: 255,
            b: 255,
        })
    }
}

/// `e` is the effect registered under `name`, created and then initialised
/// with `config`. The dark fill stays black whatever color it is given.
pub open spec fn started(name: Seq<char>, config: EffectConfig, e: EffectSlot) -> bool {
    if name == "fire"@ {
        &&& e matches EffectSlot::Fire(f)
        &&& f.spec_width() == config.width
        &&& f.spec_height() == config.height
        &&& f.spec_intensity() == config.params.intensity
        &&& f.elapsed() == 0
        &&& f.heat().len() == config.width * config.height
        &&& forall|i: int| 0 <= i < f.heat().len() ==> f.heat()[i] == 0
    } else if name == "off"@ {
        e matches EffectSlot::Solid(s) && s.fixed() && s.spec_color() == black_color()
    } else {
        e matches EffectSlot::Solid(s) && !s.fixed() && s.spec_color() == color_after(
            Color { r: 255, g: 255, b: 255 },
            config.params,
        )
    }
}

/// `after` is `before` with `params` applied in place.
pub open spec fn retuned(before: EffectSlot, after: EffectSlot, params: EffectParams) -> bool {
    match before {
        EffectSlot::Fire(f0) => {
            &&& after matches EffectSlot::Fire(f1)
            &&& f1.spec_width() == f0.spec_width()
            &&& f1.spec_height() == f0.spec_height()
            &&& f1.heat() == f0.heat()
            &&& f1.elapsed() == f0.elapsed()
            &&& f1.spec_intensity() == params.intensity
        },
        EffectSlot::Solid(s0) => {
            &&& after matches EffectSlot::Solid(s1)
            &&& s1.fixed() == s0.fixed()
            &&& s1.spec_color() == fill_after(s0.spec_color(), s0.fixed(), params)
        },
    }
}

/// Whether two strings are equal.
fn same_text(a: &str, b: &str) -> (r: bool)
    ensures
        r == (a@ == b@),
{
    a.to_owned() == b.to_owned()
}

/// The effect registered under `name`, newly created; `None` for an unknown
/// name.
pub fn create_effect(name: &str) -> (r: Option<EffectSlot>)
    ensures
        r is Some <==> registered(name@),
        r matches Some(e) ==> created(name@, e),
{
    proof {
        reveal_strlit("fire");
        reveal_strlit("solid");
        reveal_strlit("off");
        assert("solid"@.len() != "fire"@.len());
        assert("off"@.len() != "fire"@.len());
    }
    if same_text(name, "fire") {
        Some(EffectSlot::Fire(FireEffect::new()))
    } else if same_text(name, "solid") {
        Some(EffectSlot::Solid(SolidEffect::new()))
    } else if same_text(name, "off") {
        Some(EffectSlot::Solid(SolidEffect::off()))
    } else {
        None
    }
}

/// The names under which effects are registered.
pub fn available_effects() -> (r: Vec<&'static str>)
    ensures
        r@.len() == 3,
        r@[0]@ == "fire"@,
        r@[1]@ == "solid"@,
        r@[2]@ == "off"@,
{
    let mut v: Vec<&'static str> = Vec::new();
    v.push("fire");
    v.push("solid");
    v.push("off");
    v
}

impl Effect for EffectSlot {
    open spec fn spec_name(&self) -> Seq<char> {
        match self {
            EffectSlot::Fire(f) => f.spec_name(),
            EffectSlot::Solid(s) => s.spec_name(),
        }
    }

    open spec fn hot(&self) -> bool {
        match self {
            EffectSlot::Fire(f) => f.hot(),
            EffectSlot::Solid(s) => s.hot(),
        }
    }

    fn name(&self) -> (r: &'static str) {
        match self {
            EffectSlot::Fire(f) => f.name(),
            EffectSlot::Solid(s) => s.name(),
        }
    }

    fn init(&mut self, config: &EffectConfig)
        ensures
            match *old(self) {
                EffectSlot::Fire(_) => started("fire"@, *config, *final(self)),
                EffectSlot::Solid(s0) => *final(self) matches EffectSlot::Solid(s1) && s1.fixed()
                    == s0.fixed() && s1.spec_color() == fill_after(
                    s0.spec_color(),
                    s0.fixed(),
                    config.params,
                ),
            },
    {
        match self {
            EffectSlot::Fire(f) => f.init(config),
            EffectSlot::Solid(s) => s.init(config),
        }
    }

    fn tick(&mut self, fb: &mut Framebuffer, elapsed_us: u64) -> (r: bool)
        ensures
            r,
            *old(self) is Fire <==> *final(self) is Fire,
            *old(self) matches EffectSlot::Fire(f0) ==> (*final(self) matches EffectSlot::Fire(f1)
                && f1.spec_width() == f0.spec_width() && f1.spec_height() == f0.spec_height()
                && f1.spec_intensity() == f0.spec_intensity() && f1.elapsed() == (if f0.elapsed()
                + elapsed_us > u64::MAX {
                u64::MAX as int
            } else {
                f0.elapsed() + elapsed_us
            }) && f1.heat() == next_heat(
                f0.heat(),
                f0.spec_width() as int,
                f0.spec_height() as int,
                f0.spec_intensity() as int,
                step_of(f1.elapsed() as int),
            )),
            *final(self) matches EffectSlot::Fire(f) ==> shows_heat(
                final(fb).pixels(),
                final(fb).spec_width() as int,
                final(fb).spec_height() as int,
                f,
            ) && keeps_outside(
                old(fb).pixels(),
                final(fb).pixels(),
                final(fb).spec_width() as int,
                final(fb).spec_height() as int,
                f,
            ),
            *old(self) matches EffectSlot::Solid(s) ==> *final(self) == *old(self) && forall|i: int|
                0 <= i < final(fb).pixels().len() ==> final(fb).pixels()[i] == s.spec_color(),
    {
        match self {
            EffectSlot::Fire(f) => f.tick(fb, elapsed_us),
            EffectSlot::Solid(s) => s.tick(fb, elapsed_us),
        }
    }

    fn cleanup(&mut self)
        ensures
            *old(self) matches EffectSlot::Fire(f0) ==> (*final(self) matches EffectSlot::Fire(f1)
                && f1.heat().len() == 0 && f1.spec_width() == f0.spec_width() && f1.spec_height()
                == f0.spec_height() && f1.spec_intensity() == f0.spec_intensity()
                && f1.elapsed() == f0.elapsed()),
            *old(self) is Solid ==> *final(self) == *old(self),
    {
        match self {
            EffectSlot::Fire(f) => f.cleanup(),
            EffectSlot::Solid(s) => s.cleanup(),
        }
    }

    fn supports_hot_update(&self) -> (r: bool) {
        match self {
            EffectSlot::Fire(f) => f.supports_hot_update(),
            EffectSlot::Solid(s) => s.supports_hot_update(),
        }
    }

    fn update_params(&mut self, params: &EffectParams)
        ensures
            retuned(*old(self), *final(self), *params),
    {
        match self {
            EffectSlot::Fire(f) => f.update_params(params),
            EffectSlot::Solid(s) => s.update_params(params),
        }
    }
}

} // verus!
