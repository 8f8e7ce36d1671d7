//! The control surface's values: requests with their ranges, replies, and
//! how library errors become typed replies.
use vstd::prelude::*;
use vstd::string::{StrSliceExecFns, StringExecFns};

use crate::config::Config;
use crate::error::Error;

verus! {

/// Panel facts for the health reply.
#[derive(Debug, Clone, Copy, PartialEq, Eq, Structural)]
pub struct PanelInfo {
    pub width: u32,
    pub height: u32,
    pub brightness: u8,
}

/// The health reply: uptime and panel facts.
#[derive(Debug, Clone)]
pub struct HealthResponse {
    pub status: &'static str,
    pub uptime_secs: u64,
    pub panel: PanelInfo,
}

impl HealthResponse {
    /// The health reply for a configuration after `uptime_secs` seconds.
    pub fn report(config: &Config, uptime_secs: u64) -> (h: HealthResponse)
        ensures
            h.status@ == "ok"@,
            h.uptime_secs == uptime_secs,
            h.panel == (PanelInfo {
                width: config.panel.width,
                height: config.panel.height,
                brightness: config.panel.brightness,
            }),
    {
        HealthResponse {
            status: "ok",
            uptime_secs,
            panel: PanelInfo {
                width: config.panel.width,
                height: config.panel.height,
                brightness: config.panel.brightness,
            },
        }
    }
}

/// The reply to a successful switch of effect.
#[derive(Debug, Clone)]
pub struct EffectResponse {
    pub success: bool,
    pub effect: String,
}

/// The text color used when none is given: white.
pub fn default_color() -> (c: [u8; 3])
    ensures
        c@ == seq![255u8, 255u8, 255u8],
{
    let c: [u8; 3] = [255, 255, 255];
    assert(c@ =~= seq![255u8, 255u8, 255u8]);
    c
}

/// The scroll speed used when none is given.
pub fn default_speed() -> (s: u32)
    ensures
        s == 50,
{
    50
}

/// A request to show text.
#[derive(Debug, Clone)]
pub struct TextRequest {
    pub text: String,
    pub color: [u8; 3],
    pub scroll: bool,
    pub speed: u32,
}

impl TextRequest {
    /// Whether the text holds 1 to 256 characters and the speed lies in
    /// `1..=200`.
    pub fn validate(&self) -> (r: Result<(), Error>)
        ensures
            r is Ok <==> (1 <= self.text@.len() <= 256 && 1 <= self.speed <= 200),
            r is Err ==> r matches Err(Error::InvalidParameter { .. }),
    {
        let n = self.text.as_str().unicode_len();
        if n < 1 || n > 256 {
            return Err(Error::invalid_param("text", "length must lie in 1..=256"));
        }
        if self.speed < 1 || self.speed > 200 {
            return Err(Error::invalid_param("speed", "must lie in 1..=200"));
        }
        Ok(())
    }
}

/// A request to change the brightness.
#[derive(Debug, Clone, Copy, PartialEq, Eq, Structural)]
pub struct BrightnessRequest {
    pub brightness: u8,
}

impl BrightnessRequest {
    /// Whether the brightness lies in `0..=100`.
    pub fn validate(&self) -> (r: Result<(), Error>)
        ensures
            r is Ok <==> self.brightness <= 100,
            r is Err ==> r matches Err(Error::InvalidParameter { .. }),
    {
        if self.brightness > 100 {
            return Err(Error::invalid_param("brightness", "must lie in 0..=100"));
        }
        Ok(())
    }
}

/// The body of an error reply.
#[derive(Debug, Clone)]
pub struct ErrorResponse {
    pub error: String,
    pub message: String,
}

/// The kinds of failed reply.
#[derive(Debug, Clone, PartialEq, Eq)]
pub enum ApiError {
    BadRequest(String),
    Validation(String),
    NotFound(String),
    Internal(String),
}

/// The human-readable text of an error.
pub open spec fn error_text(e: Error) -> Seq<char> {
    match e {
        Error::Config(m) => "Configuration error: "@ + m@,
        Error::InvalidParameter { field, message } => "Invalid parameter: "@ + field@ + " - "@
            + message@,
        Error::EffectNotFound(n) => "Effect not found: "@ + n@,
        Error::Hardware(m) => "Hardware error: "@ + m@,
        Error::Io(m) => "IO error: "@ + m@,
        Error::Serialization(m) => "Serialization error: "@ + m@,
        Error::NoActiveEffect => "No active effect"@,
        Error::Internal(m) => "Internal error: "@ + m@,
    }
}

/// `prefix` followed by `rest`.
fn joined(prefix: &str, rest: &str) -> (s: String)
    ensures
        s@ == prefix@ + rest@,
{
    let mut s = prefix.to_owned();
    s.append(rest);
    s
}

impl Error {
    /// The human-readable text of the error.
    pub fn describe(&self) -> (s: String)
        ensures
            s@ == error_text(*self),
    {
        match self {
            Error::Config(m) => joined("Configuration error: ", m.as_str()),
            Error::InvalidParameter { field, message } => {
                let mut s = joined("Invalid parameter: ", field.as_str());
                s.append(" - ");
                s.append(message.as_str());
                s
            },
            Error::EffectNotFound(n) => joined("Effect not found: ", n.as_str()),
            Error::Hardware(m) => joined("Hardware error: ", m.as_str()),
            Error::Io(m) => joined("IO error: ", m.as_str()),
            Error::Serialization(m) => joined("Serialization error: ", m.as_str()),
            Error::NoActiveEffect => "No active effect".to_owned(),
            Error::Internal(m) => joined("Internal error: ", m.as_str()),
        }
    }
}

impl ApiError {
    /// The reply kind for a library error, with its text.
    pub fn from_error(e: &Error) -> (a: ApiError)
        ensures
            e matches Error::EffectNotFound(n) ==> (a matches ApiError::NotFound(m) && m@
                == "Effect not found: "@ + n@),
            e matches Error::InvalidParameter { field, message } ==> (a matches ApiError::Validation(
                m,
            ) && m@ == field@ + ": "@ + message@),
            !(e is EffectNotFound) && !(e is InvalidParameter) ==> (a matches ApiError::Internal(m)
                && m@ == error_text(*e)),
    {
        match e {
            Error::EffectNotFound(n) => ApiError::NotFound(joined("Effect not found: ", n.as_str())),
            Error::InvalidParameter { field, message } => {
                let mut m = joined(field.as_str(), ": ");
                m.append(message.as_str());
                ApiError::Validation(m)
            },
            _ => ApiError::Internal(e.describe()),
        }
    }

    /// The HTTP status of the reply.
    pub fn status(&self) -> (s: u16)
        ensures
            s == match self {
                ApiError::BadRequest(_) => 400u16,
                ApiError::Validation(_) => 400u16,
                ApiError::NotFound(_) => 404u16,
                ApiError::Internal(_) => 500u16,
            },
    {
        match self {
            ApiError::BadRequest(_) => 400,
            ApiError::Validation(_) => 400,
            ApiError::NotFound(_) => 404,
            ApiError::Internal(_) => 500,
        }
    }

    /// The body of the reply: a short tag and the message.
    pub fn body(&self) -> (b: ErrorResponse)
        ensures
            b.error@ == match self {
                ApiError::BadRequest(_) => "bad_request"@,
                ApiError::Validation(_) => "validation_error"@,
                ApiError::NotFound(_) => "not_found"@,
                ApiError::Internal(_) => "internal_error"@,
            },
            b.message@ == match self {
                ApiError::BadRequest(m) => m@,
                ApiError::Validation(m) => m@,
                ApiError::NotFound(m) => m@,
                ApiError::Internal(m) => m@,
            },
    {
        match self {
            ApiError::BadRequest(m) => ErrorResponse {
                error: "bad_request".to_owned(),
                message: m.clone(),
            },
            ApiError::Validation(m) => ErrorResponse {
                error: "validation_error".to_owned(),
                message: m.clone(),
            },
            ApiError::NotFound(m) => ErrorResponse {
                error: "not_found".to_owned(),
                message: m.clone(),
            },
            ApiError::Internal(m) => ErrorResponse {
                error: "internal_error".to_owned(),
                message: m.clone(),
            },
        }
    }
}

} // verus!
