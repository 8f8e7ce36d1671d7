//! The effect manager: owns the active effect, switches it, retunes it and
//! drives one step of it per frame.
use vstd::prelude::*;

use std::time::Instant;

use crate::clock::{now, time_between, whole_micros};
use crate::color::black_color;
use crate::effect::{is_default_params, Effect, EffectConfig, EffectParams};
use crate::error::Error;
use crate::fire::{keeps_outside, next_heat, shows_heat, step_of};
use crate::framebuffer::{all_cells, Framebuffer};
use crate::registry::{create_effect, registered, retuned, started, EffectSlot};

verus! {

/// A call of an effect's lifecycle, as the manager made it.
pub enum Lifecycle {
    /// `init` on an effect with this name.
    Init(Ghost<Seq<char>>),
    /// `cleanup` on an effect with this name.
    Cleanup(Ghost<Seq<char>>),
}

/// The lifecycle record after the outgoing effect, if any, was cleaned up.
pub open spec fn after_cleanup(history: Seq<Lifecycle>, slot: Option<EffectSlot>) -> Seq<
    Lifecycle,
> {
    match slot {
        Some(e) => history.push(Lifecycle::Cleanup(Ghost(e.spec_name()))),
        None => history,
    }
}

/// Owns the active effect and the panel configuration handed to it.
pub struct EffectManager {
    current: Option<EffectSlot>,
    config: EffectConfig,
    last_tick: Instant,
    history: Ghost<Seq<Lifecycle>>,
}

impl EffectManager {
    /// The active effect.
    pub closed spec fn slot(&self) -> Option<EffectSlot> {
        self.current
    }

    /// Panel size and the parameters last handed to an effect.
    pub closed spec fn spec_config(&self) -> EffectConfig {
        self.config
    }

    /// Every `init` and `cleanup` made so far, oldest first.
    pub closed spec fn lifecycle(&self) -> Seq<Lifecycle> {
        self.history@
    }

    /// The panel's cell count fits in `u32`.
    pub open spec fn wf(&self) -> bool {
        self.spec_config().wf()
    }

    /// What a switch to `name` with `params` leaves behind, from `pre`: the
    /// outgoing effect is cleaned up first in every case; then either the
    /// named effect is started, or, for an unknown name, nothing is active.
    pub open spec fn switched(
        pre: EffectManager,
        post: EffectManager,
        name: Seq<char>,
        params: EffectParams,
        r: Result<(), Error>,
    ) -> bool {
        let cleaned = after_cleanup(pre.lifecycle(), pre.slot());
        if registered(name) {
            let config = EffectConfig { params, ..pre.spec_config() };
            &&& r is Ok
            &&& post.spec_config() == config
            &&& post.slot() matches Some(e) && started(name, config, e)
            &&& post.lifecycle() == cleaned.push(Lifecycle::Init(Ghost(name)))
        } else {
            &&& r matches Err(Error::EffectNotFound(n)) && n@ == name
            &&& post.spec_config() == pre.spec_config()
            &&& post.slot() is None
            &&& post.lifecycle() == cleaned
        }
    }

    /// A manager for a `width` by `height` panel, with no active effect.
    pub fn new(width: u32, height: u32) -> (m: EffectManager)
        requires
            width * height <= u32::MAX,
        ensures
            m.wf(),
            m.slot() is None,
            m.spec_config().width == width,
            m.spec_config().height == height,
            is_default_params(m.spec_config().params),
            m.lifecycle() == Seq::<Lifecycle>::empty(),
    {
        EffectManager {
            current: None,
            config: EffectConfig { width, height, params: EffectParams::default() },
            last_tick: now(),
            history: Ghost(Seq::empty()),
        }
    }

    /// The name of the active effect.
    pub fn current_effect(&self) -> (r: Option<&'static str>)
        ensures
            r is Some <==> self.slot() is Some,
            r matches Some(s) ==> s@ == self.slot()->0.spec_name(),
    {
        match &self.current {
            Some(e) => Some(e.name()),
            None => None,
        }
    }

    /// Cleans up the active effect, if any, and records it.
    fn retire(&mut self)
        ensures
            final(self).slot() is None,
            final(self).spec_config() == old(self).spec_config(),
            final(self).lifecycle() == after_cleanup(old(self).lifecycle(), old(self).slot()),
    {
        let old_slot = self.current.take();
        if let Some(mut e) = old_slot {
            let ghost name = e.spec_name();
            e.cleanup();
            proof {
                self.history = Ghost(self.history@.push(Lifecycle::Cleanup(Ghost(name))));
            }
        }
    }

    /// Switches to the effect registered under `name`, started with
    /// `params`. The outgoing effect is cleaned up before the name is looked
    /// up, so an unknown name leaves no effect active.
    pub fn set_effect(&mut self, name: &str, params: EffectParams) -> (r: Result<(), Error>)
        requires
            old(self).wf(),
        ensures
            final(self).wf(),
            EffectManager::switched(*old(self), *final(self), name@, params, r),
    {
        self.retire();
        match create_effect(name) {
            None => Err(Error::EffectNotFound(name.to_owned())),
            Some(mut e) => {
                self.config.params = params;
                e.init(&self.config);
                let ghost started_name = e.spec_name();
                proof {
                    self.history = Ghost(self.history@.push(Lifecycle::Init(Ghost(started_name))));
                }
                self.current = Some(e);
                self.last_tick = now();
                Ok(())
            },
        }
    }

    /// Hands new parameters to the active effect: in place where it supports
    /// that, else by a restart under its own name. Fails when no effect is
    /// active.
    pub fn update_params(&mut self, params: EffectParams) -> (r: Result<(), Error>)
        requires
            old(self).wf(),
        ensures
            final(self).wf(),
            old(self).slot() is None ==> (r matches Err(Error::NoActiveEffect)) && *final(self)
                == *old(self),
            old(self).slot() is Some && old(self).slot()->0.hot() ==> {
                &&& r is Ok
                &&& final(self).lifecycle() == old(self).lifecycle()
                &&& final(self).spec_config() == (EffectConfig {
                    params,
                    ..old(self).spec_config()
                })
                &&& final(self).slot() is Some
                &&& retuned(old(self).slot()->0, final(self).slot()->0, params)
            },
            old(self).slot() is Some && !old(self).slot()->0.hot() ==> EffectManager::switched(
                *old(self),
                *final(self),
                old(self).slot()->0.spec_name(),
                params,
                r,
            ),
    {
        match &mut self.current {
            None => Err(Error::NoActiveEffect),
            Some(e) => {
                if e.supports_hot_update() {
                    e.update_params(&params);
                    self.config.params = params;
                    Ok(())
                } else {
                    let name = e.name();
                    self.set_effect(name, params)
                }
            },
        }
    }

    /// Draws the next frame, `elapsed_us` microseconds after the previous
    /// one. With no active effect the frame is cleared to black.
    pub fn tick_elapsed(&mut self, fb: &mut Framebuffer, elapsed_us: u64) -> (r: bool)
        requires
            old(fb).wf(),
        ensures
            r,
            final(fb).wf(),
            final(fb).spec_width() == old(fb).spec_width(),
            final(fb).spec_height() == old(fb).spec_height(),
            final(self).spec_config() == old(self).spec_config(),
            final(self).lifecycle() == old(self).lifecycle(),
            old(self).slot() is None ==> final(self).slot() is None && all_cells(
                final(fb).pixels(),
                black_color(),
            ),
            old(self).slot() matches Some(e) ==> final(self).slot() matches Some(e1)
                && e1.spec_name() == e.spec_name() && e1.hot() == e.hot(),
            old(self).slot() matches Some(EffectSlot::Solid(s)) ==> final(self).slot() == old(
                self,
            ).slot() && all_cells(final(fb).pixels(), s.spec_color()),
            old(self).slot() matches Some(EffectSlot::Fire(f0)) ==> (final(self).slot() matches Some(
                EffectSlot::Fire(f1),
            ) && f1.spec_width() == f0.spec_width() && f1.spec_height() == f0.spec_height()
                && f1.spec_intensity() == f0.spec_intensity() && f1.elapsed() == (if f0.elapsed()
                + elapsed_us > u64::MAX {
                u64::MAX as int
            } else {
                f0.elapsed() + elapsed_us
            }) && f1.heat() == next_heat(
                f0.heat(),
                f0.spec_width() as int,
                f0.spec_height() as int,
                f0.spec_intensity() as int,
                step_of(f1.elapsed() as int),
            )),
            final(self).slot() matches Some(EffectSlot::Fire(f)) ==> shows_heat(
                final(fb).pixels(),
                final(fb).spec_width() as int,
                final(fb).spec_height() as int,
                f,
            ) && keeps_outside(
                old(fb).pixels(),
                final(fb).pixels(),
                final(fb).spec_width() as int,
                final(fb).spec_height() as int,
                f,
            ),
    {
        match &mut self.current {
            Some(e) => e.tick(fb, elapsed_us),
            None => {
                fb.clear();
                true
            },
        }
    }

    /// Draws the next frame, timed by the monotonic clock since the previous
    /// one.
    pub fn tick(&mut self, fb: &mut Framebuffer) -> (r: bool)
        requires
            old(fb).wf(),
        ensures
            r,
            final(fb).wf(),
            final(fb).spec_width() == old(fb).spec_width(),
            final(fb).spec_height() == old(fb).spec_height(),
            final(self).spec_config() == old(self).spec_config(),
            final(self).lifecycle() == old(self).lifecycle(),
            old(self).slot() is None ==> final(self).slot() is None && all_cells(
                final(fb).pixels(),
                black_color(),
            ),
            old(self).slot() matches Some(e) ==> final(self).slot() matches Some(e1)
                && e1.spec_name() == e.spec_name() && e1.hot() == e.hot(),
            old(self).slot() matches Some(EffectSlot::Solid(s)) ==> final(self).slot() == old(
                self,
            ).slot() && all_cells(final(fb).pixels(), s.spec_color()),
            old(self).slot() matches Some(EffectSlot::Fire(f0)) ==> (final(self).slot() matches Some(
                EffectSlot::Fire(f1),
            ) && f1.spec_width() == f0.spec_width() && f1.spec_height() == f0.spec_height()
                && f1.spec_intensity() == f0.spec_intensity() && f1.heat() == next_heat(
                f0.heat(),
                f0.spec_width() as int,
                f0.spec_height() as int,
                f0.spec_intensity() as int,
                step_of(f1.elapsed() as int),
            )),
            final(self).slot() matches Some(EffectSlot::Fire(f)) ==> shows_heat(
                final(fb).pixels(),
                final(fb).spec_width() as int,
                final(fb).spec_height() as int,
                f,
            ) && keeps_outside(
                old(fb).pixels(),
                final(fb).pixels(),
                final(fb).spec_width() as int,
                final(fb).spec_height() as int,
                f,
            ),
    {
        let t = now();
        let span = time_between(&t, &self.last_tick);
        let us = whole_micros(&span);
        self.last_tick = t;
        let elapsed_us: u64 = if us > u64::MAX as u128 { u64::MAX } else { us as u64 };
        self.tick_elapsed(fb, elapsed_us)
    }

    /// Cleans up the active effect, if any, and leaves none active.
    pub fn stop(&mut self)
        ensures
            final(self).slot() is None,
            final(self).spec_config() == old(self).spec_config(),
            final(self).lifecycle() == after_cleanup(old(self).lifecycle(), old(self).slot()),
    {
        self.retire();
    }
}

} // verus!
