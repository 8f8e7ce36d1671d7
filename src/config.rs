//! Application configuration, its defaults and its ranges.
use vstd::prelude::*;

use crate::error::Error;

verus! {

/// The whole configuration.
#[derive(Debug, Clone)]
pub struct Config {
    pub server: ServerConfig,
    pub panel: PanelConfig,
    pub hardware: HardwareConfig,
    pub effects: EffectsConfig,
    pub logging: LoggingConfig,
}

/// Where the control surface listens.
#[derive(Debug, Clone)]
pub struct ServerConfig {
    pub host: String,
    pub port: u16,
}

/// Size and brightness of the panel.
#[derive(Debug, Clone, Copy, PartialEq, Eq, Structural)]
pub struct PanelConfig {
    pub width: u32,
    pub height: u32,
    pub brightness: u8,
}

/// Which device drives the panel.
#[derive(Debug, Clone, Copy, PartialEq, Eq, Structural)]
pub struct HardwareConfig {
    pub mock: bool,
    pub gpio_slowdown: u8,
}

/// The effect started first, and how long a switch takes.
#[derive(Debug, Clone)]
pub struct EffectsConfig {
    pub default: String,
    pub transition_ms: u32,
}

/// Log level and format.
#[derive(Debug, Clone)]
pub struct LoggingConfig {
    pub level: String,
    pub format: String,
}

/// Every field lies in its range.
pub open spec fn valid_config(c: Config) -> bool {
    &&& 1 <= c.server.port
    &&& 1 <= c.panel.width <= 256
    &&& 1 <= c.panel.height <= 256
    &&& c.panel.brightness <= 100
    &&& c.effects.transition_ms <= 5000
}

impl Default for Config {
    fn default() -> (c: Config)
        ensures
            c.server.host@ == "0.0.0.0"@,
            c.server.port == 3000,
            c.panel == (PanelConfig { width: 64, height: 32, brightness: 80 }),
            c.hardware == (HardwareConfig { mock: false, gpio_slowdown: 2 }),
            c.effects.default@ == "fire"@,
            c.effects.transition_ms == 500,
            c.logging.level@ == "info"@,
            c.logging.format@ == "pretty"@,
    {
        Config {
            server: ServerConfig { host: "0.0.0.0".to_owned(), port: 3000 },
            panel: PanelConfig { width: 64, height: 32, brightness: 80 },
            hardware: HardwareConfig { mock: false, gpio_slowdown: 2 },
            effects: EffectsConfig { default: "fire".to_owned(), transition_ms: 500 },
            logging: LoggingConfig { level: "info".to_owned(), format: "pretty".to_owned() },
        }
    }
}

impl Config {
    /// Checks every field against its range; the error names the first
    /// field out of range.
    pub fn validate(&self) -> (r: Result<(), Error>)
        ensures
            r is Ok <==> valid_config(*self),
            r is Err ==> r matches Err(Error::InvalidParameter { .. }),
    {
        if self.server.port < 1 {
            return Err(Error::invalid_param("server.port", "must lie in 1..=65535"));
        }
        if self.panel.width < 1 || self.panel.width > 256 {
            return Err(Error::invalid_param("panel.width", "must lie in 1..=256"));
        }
        if self.panel.height < 1 || self.panel.height > 256 {
            return Err(Error::invalid_param("panel.height", "must lie in 1..=256"));
        }
        if self.panel.brightness > 100 {
            return Err(Error::invalid_param("panel.brightness", "must lie in 0..=100"));
        }
        if self.effects.transition_ms > 5000 {
            return Err(Error::invalid_param("effects.transition_ms", "must lie in 0..=5000"));
        }
        Ok(())
    }
}

} // verus!
