use super_pixeled::control::{
    default_color, default_speed, ApiError, BrightnessRequest, HealthResponse, TextRequest,
};
use super_pixeled::{Config, Error};

#[test]
fn error_replies() {
    let nf = ApiError::from_error(&Error::EffectNotFound("x".to_string()));
    assert_eq!(nf, ApiError::NotFound("Effect not found: x".to_string()));
    assert_eq!(nf.status(), 404);
    assert_eq!(nf.body().error, "not_found");
    let v = ApiError::from_error(&Error::invalid_param("speed", "too fast"));
    assert_eq!(v, ApiError::Validation("speed: too fast".to_string()));
    assert_eq!(v.status(), 400);
    let i = ApiError::from_error(&Error::hardware("gone"));
    assert_eq!(i, ApiError::Internal("Hardware error: gone".to_string()));
    assert_eq!(i.status(), 500);
    assert_eq!(i.body().message, "Hardware error: gone");
    assert_eq!(Error::NoActiveEffect.describe(), "No active effect");
}

#[test]
fn request_ranges() {
    let ok = TextRequest {
        text: "hi".to_string(),
        color: default_color(),
        scroll: false,
        speed: default_speed(),
    };
    assert!(ok.validate().is_ok());
    assert_eq!(default_color(), [255, 255, 255]);
    let empty = TextRequest { text: String::new(), ..ok.clone() };
    assert!(empty.validate().is_err());
    let long = TextRequest { text: "\u{e9}".repeat(257), ..ok.clone() };
    assert!(long.validate().is_err());
    let wide = TextRequest { text: "\u{e9}".repeat(256), ..ok.clone() };
    assert!(wide.validate().is_ok());
    let fast = TextRequest { speed: 201, ..ok.clone() };
    assert!(fast.validate().is_err());
    assert!(BrightnessRequest { brightness: 100 }.validate().is_ok());
    assert!(BrightnessRequest { brightness: 101 }.validate().is_err());
}

#[test]
fn health_reply() {
    let h = HealthResponse::report(&Config::default(), 12);
    assert_eq!(h.status, "ok");
    assert_eq!(h.uptime_secs, 12);
    assert_eq!((h.panel.width, h.panel.height, h.panel.brightness), (64, 32, 80));
}
