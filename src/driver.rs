//! Output devices: a lifecycle of init, display and shutdown, with brightness
//! control and a health flag.
use vstd::prelude::*;

use crate::error::Error;
use crate::framebuffer::Framebuffer;

verus! {

/// A requested brightness, held to `0..=100`.
pub open spec fn clamped_brightness(b: u8) -> u8 {
    if b > 100 {
        100
    } else {
        b
    }
}

/// A panel that completed frames are pushed to.
pub trait Driver: Sized {
    /// `init` has succeeded and `shutdown` has not run since.
    spec fn healthy(&self) -> bool;

    /// The brightness in effect, in percent.
    spec fn spec_brightness(&self) -> u8;

    /// Brings the device up; it is healthy exactly when this succeeds.
    fn init(&mut self) -> (r: Result<(), Error>)
        ensures
            r is Ok <==> final(self).healthy(),
            final(self).spec_brightness() == old(self).spec_brightness(),
    ;

    /// Pushes a frame to the device; fails with a hardware error, and
    /// changes nothing, when the device is not healthy.
    fn display(&mut self, fb: &Framebuffer) -> (r: Result<(), Error>)
        ensures
            final(self).healthy() == old(self).healthy(),
            final(self).spec_brightness() == old(self).spec_brightness(),
            !old(self).healthy() ==> (r matches Err(Error::Hardware(_))) && *final(self) == *old(
                self,
            ),
    ;

    /// Sets the brightness, held to `0..=100` rather than refused.
    fn set_brightness(&mut self, brightness: u8) -> (r: Result<(), Error>)
        ensures
            final(self).healthy() == old(self).healthy(),
            r is Ok ==> final(self).spec_brightness() == clamped_brightness(brightness),
    ;

    fn is_healthy(&self) -> (r: bool)
        ensures
            r == self.healthy(),
    ;

    /// Takes the device down; safe to call in any state.
    fn shutdown(&mut self) -> (r: Result<(), Error>)
        ensures
            !final(self).healthy(),
            final(self).spec_brightness() == old(self).spec_brightness(),
    ;
}

/// The driver of a physical panel.
#[derive(Debug, Clone, Copy, PartialEq, Eq, Structural)]
pub struct LedDriver {
    gpio_slowdown: u8,
    initialized: bool,
    brightness: u8,
}

impl LedDriver {
    pub closed spec fn slowdown(&self) -> u8 {
        self.gpio_slowdown
    }

    /// A driver, not yet initialised, at brightness 80.
    pub fn new(gpio_slowdown: u8) -> (d: LedDriver)
        ensures
            d.slowdown() == gpio_slowdown,
            !d.healthy(),
            d.spec_brightness() == 80,
    {
        LedDriver { gpio_slowdown, initialized: false, brightness: 80 }
    }

    /// The GPIO timing slowdown factor.
    pub fn gpio_slowdown(&self) -> (s: u8)
        ensures
            s == self.slowdown(),
    {
        self.gpio_slowdown
    }

    /// The brightness in effect, in percent.
    pub fn brightness(&self) -> (b: u8)
        ensures
            b == self.spec_brightness(),
    {
        self.brightness
    }
}

impl Driver for LedDriver {
    closed spec fn healthy(&self) -> bool {
        self.initialized
    }

    closed spec fn spec_brightness(&self) -> u8 {
        self.brightness
    }

    fn init(&mut self) -> (r: Result<(), Error>)
        ensures
            r is Ok,
            final(self).slowdown() == old(self).slowdown(),
    {
        self.initialized = true;
        Ok(())
    }

    fn display(&mut self, fb: &Framebuffer) -> (r: Result<(), Error>)
        ensures
            *final(self) == *old(self),
            r is Ok <==> old(self).healthy(),
    {
        if !self.initialized {
            return Err(Error::hardware("Driver not initialized"));
        }
        Ok(())
    }

    fn set_brightness(&mut self, brightness: u8) -> (r: Result<(), Error>)
        ensures
            r is Ok,
            final(self).slowdown() == old(self).slowdown(),
    {
        self.brightness = if brightness > 100 { 100 } else { brightness };
        Ok(())
    }

    fn is_healthy(&self) -> (r: bool) {
        self.initialized
    }

    fn shutdown(&mut self) -> (r: Result<(), Error>)
        ensures
            r is Ok,
            final(self).slowdown() == old(self).slowdown(),
    {
        self.initialized = false;
        Ok(())
    }
}

/// A stand-in device that counts the frames it is given and drives no
/// hardware.
#[derive(Debug, Clone, Copy, PartialEq, Eq, Structural)]
pub struct MockDriver {
    initialized: bool,
    brightness: u8,
    frame_count: u64,
}

impl MockDriver {
    /// Frames displayed so far.
    pub closed spec fn frames(&self) -> u64 {
        self.frame_count
    }

    /// A device, not yet initialised, at brightness 80, with no frames shown.
    pub fn new() -> (d: MockDriver)
        ensures
            !d.healthy(),
            d.spec_brightness() == 80,
            d.frames() == 0,
    {
        MockDriver { initialized: false, brightness: 80, frame_count: 0 }
    }

    /// The number of frames displayed.
    pub fn frame_count(&self) -> (n: u64)
        ensures
            n == self.frames(),
    {
        self.frame_count
    }

    /// The brightness in effect, in percent.
    pub fn brightness(&self) -> (b: u8)
        ensures
            b == self.spec_brightness(),
    {
        self.brightness
    }
}

impl Default for MockDriver {
    fn default() -> (d: MockDriver)
        ensures
            !d.healthy(),
            d.spec_brightness() == 80,
            d.frames() == 0,
    {
        MockDriver::new()
    }
}

impl Driver for MockDriver {
    closed spec fn healthy(&self) -> bool {
        self.initialized
    }

    closed spec fn spec_brightness(&self) -> u8 {
        self.brightness
    }

    fn init(&mut self) -> (r: Result<(), Error>)
        ensures
            r is Ok,
            final(self).frames() == old(self).frames(),
    {
        self.initialized = true;
        Ok(())
    }

    fn display(&mut self, fb: &Framebuffer) -> (r: Result<(), Error>)
        ensures
            r is Ok <==> old(self).healthy(),
            final(self).frames() == (if old(self).healthy() && old(self).frames() < u64::MAX {
                old(self).frames() + 1
            } else {
                old(self).frames() as int
            }),
    {
        if !self.initialized {
            return Err(Error::hardware("Mock driver not initialized"));
        }
        self.frame_count = self.frame_count.saturating_add(1);
        Ok(())
    }

    fn set_brightness(&mut self, brightness: u8) -> (r: Result<(), Error>)
        ensures
            r is Ok,
            final(self).frames() == old(self).frames(),
    {
        self.brightness = if brightness > 100 { 100 } else { brightness };
        Ok(())
    }

    fn is_healthy(&self) -> (r: bool) {
        self.initialized
    }

    fn shutdown(&mut self) -> (r: Result<(), Error>)
        ensures
            r is Ok,
            final(self).frames() == old(self).frames(),
    {
        self.initialized = false;
        Ok(())
    }
}

/// Either kind of device, chosen at start-up.
#[derive(Debug, Clone, Copy, PartialEq, Eq, Structural)]
pub enum PanelDriver {
    Led(LedDriver),
    Mock(MockDriver),
}

/// The device for the configuration: the stand-in when `mock` is set.
pub fn create_driver(mock: bool, gpio_slowdown: u8) -> (d: PanelDriver)
    ensures
        mock ==> (d matches PanelDriver::Mock(m) && m.frames() == 0),
        !mock ==> (d matches PanelDriver::Led(l) && l.slowdown() == gpio_slowdown),
        !d.healthy(),
        d.spec_brightness() == 80,
{
    if mock {
        PanelDriver::Mock(MockDriver::new())
    } else {
        PanelDriver::Led(LedDriver::new(gpio_slowdown))
    }
}

impl Driver for PanelDriver {
    open spec fn healthy(&self) -> bool {
        match self {
            PanelDriver::Led(d) => d.healthy(),
            PanelDriver::Mock(d) => d.healthy(),
        }
    }

    open spec fn spec_brightness(&self) -> u8 {
        match self {
            PanelDriver::Led(d) => d.spec_brightness(),
            PanelDriver::Mock(d) => d.spec_brightness(),
        }
    }

    fn init(&mut self) -> (r: Result<(), Error>)
        ensures
            r is Ok,
            *old(self) matches PanelDriver::Mock(m0) ==> (*final(self) matches PanelDriver::Mock(m1)
                && m1.frames() == m0.frames()),
            *old(self) matches PanelDriver::Led(l0) ==> (*final(self) matches PanelDriver::Led(l1)
                && l1.slowdown() == l0.slowdown()),
    {
        match self {
            PanelDriver::Led(d) => d.init(),
            PanelDriver::Mock(d) => d.init(),
        }
    }

    fn display(&mut self, fb: &Framebuffer) -> (r: Result<(), Error>)
        ensures
            r is Ok <==> old(self).healthy(),
            *old(self) matches PanelDriver::Mock(m0) ==> (*final(self) matches PanelDriver::Mock(m1)
                && m1.frames() == (if m0.healthy() && m0.frames() < u64::MAX {
                m0.frames() + 1
            } else {
                m0.frames() as int
            })),
            *old(self) is Led ==> *final(self) == *old(self),
    {
        match self {
            PanelDriver::Led(d) => d.display(fb),
            PanelDriver::Mock(d) => d.display(fb),
        }
    }

    fn set_brightness(&mut self, brightness: u8) -> (r: Result<(), Error>)
        ensures
            r is Ok,
            *old(self) matches PanelDriver::Mock(m0) ==> (*final(self) matches PanelDriver::Mock(m1)
                && m1.frames() == m0.frames()),
            *old(self) matches PanelDriver::Led(l0) ==> (*final(self) matches PanelDriver::Led(l1)
                && l1.slowdown() == l0.slowdown()),
    {
        match self {
            PanelDriver::Led(d) => d.set_brightness(brightness),
            PanelDriver::Mock(d) => d.set_brightness(brightness),
        }
    }

    fn is_healthy(&self) -> (r: bool) {
        match self {
            PanelDriver::Led(d) => d.is_healthy(),
            PanelDriver::Mock(d) => d.is_healthy(),
        }
    }

    fn shutdown(&mut self) -> (r: Result<(), Error>)
        ensures
            r is Ok,
            *old(self) matches PanelDriver::Mock(m0) ==> (*final(self) matches PanelDriver::Mock(m1)
                && m1.frames() == m0.frames()),
            *old(self) matches PanelDriver::Led(l0) ==> (*final(self) matches PanelDriver::Led(l1)
                && l1.slowdown() == l0.slowdown()),
    {
        match self {
            PanelDriver::Led(d) => d.shutdown(),
            PanelDriver::Mock(d) => d.shutdown(),
        }
    }
}

} // verus!
