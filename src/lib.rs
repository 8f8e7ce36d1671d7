//! Render pipeline of a pixel panel: colors and coordinates, a bounds-checked
//! framebuffer, interchangeable effects behind a manager, output devices with
//! a checked lifecycle, and the state machine of the render loop.
pub mod clock;
pub mod color;
pub mod config;
pub mod control;
pub mod driver;
pub mod effect;
pub mod error;
pub mod fire;
pub mod framebuffer;
pub mod manager;
pub mod point;
pub mod registry;
pub mod render;
pub mod solid;

pub use color::Color;
pub use config::{Config, EffectsConfig, HardwareConfig, LoggingConfig, PanelConfig, ServerConfig};
pub use error::Error;
pub use framebuffer::Framebuffer;
pub use manager::EffectManager;
pub use point::Point;
pub use driver::{create_driver, Driver, LedDriver, MockDriver, PanelDriver};
pub use effect::{Effect, EffectConfig, EffectParams};
pub use fire::FireEffect;
pub use registry::{available_effects, create_effect, EffectSlot};
pub use solid::SolidEffect;
