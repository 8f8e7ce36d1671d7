use super_pixeled::{Color, Config, Point};

#[test]
fn test_from_hex() {
    let color = Color::from_hex(0xFF5500);
    assert_eq!(color, Color::new(255, 85, 0));
}

#[test]
fn test_to_hex() {
    let color = Color::new(255, 85, 0);
    assert_eq!(color.to_hex(), 0xFF5500);
}

#[test]
fn from_hex_ignores_high_byte() {
    assert_eq!(Color::from_hex(0xAB12_3456), Color::new(0x12, 0x34, 0x56));
    assert_eq!(Color::new(0x12, 0x34, 0x56).to_hex(), 0x12_3456);
}

#[test]
fn color_from_array() {
    assert_eq!(Color::from([1u8, 2, 3]), Color::new(1, 2, 3));
    assert_eq!(Color::black(), Color::new(0, 0, 0));
    assert_eq!(Color::white(), Color::new(255, 255, 255));
}

#[test]
fn test_default_config() {
    let config = Config::default();
    assert_eq!(config.panel.width, 64);
    assert_eq!(config.panel.height, 32);
    assert_eq!(config.server.port, 3000);
}

#[test]
fn test_validation() {
    let mut config = Config::default();
    config.panel.width = 0; // Invalid

    let result = config.validate();
    assert!(result.is_err());
}

#[test]
fn default_config_is_valid() {
    let config = Config::default();
    assert!(config.validate().is_ok());
    let mut bright = Config::default();
    bright.panel.brightness = 101;
    assert!(bright.validate().is_err());
    let mut slow = Config::default();
    slow.effects.transition_ms = 5001;
    assert!(slow.validate().is_err());
    let mut edge = Config::default();
    edge.panel.width = 256;
    edge.panel.height = 256;
    edge.panel.brightness = 100;
    assert!(edge.validate().is_ok());
}

#[test]
fn test_in_bounds() {
    let p = Point::new(5, 10);
    assert!(p.in_bounds(64, 32));
    assert!(!p.in_bounds(5, 32)); // x == width
    assert!(!Point::new(-1, 0).in_bounds(64, 32));
}

#[test]
fn test_to_index() {
    let p = Point::new(5, 2);
    assert_eq!(p.to_index(64), Some(2 * 64 + 5));
    assert_eq!(Point::new(-1, 0).to_index(64), None);
}

#[test]
fn point_from_tuple() {
    assert_eq!(Point::from((3, -4)), Point::new(3, -4));
}
