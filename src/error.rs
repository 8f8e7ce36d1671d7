//! Errors of the render pipeline and its control surface.
use vstd::prelude::*;

verus! {

/// Every failure that the library reports.
#[derive(Debug, Clone, PartialEq, Eq)]
pub enum Error {
    /// Configuration could not be loaded or is out of range.
    Config(String),
    /// A named field holds a value that cannot be used.
    InvalidParameter { field: String, message: String },
    /// No effect is registered under this name.
    EffectNotFound(String),
    /// The output device refused or could not do the work.
    Hardware(String),
    /// Reading or writing outside the process failed.
    Io(String),
    /// A value could not be encoded or decoded.
    Serialization(String),
    /// An operation needs an active effect and there is none.
    NoActiveEffect,
    /// Anything else.
    Internal(String),
}

impl Error {
    /// An `InvalidParameter` error for `field`.
    pub fn invalid_param(field: &str, message: &str) -> (e: Error)
        ensures
            e matches Error::InvalidParameter { field: f, message: m } && f@ == field@ && m@
                == message@,
    {
        Error::InvalidParameter { field: field.to_owned(), message: message.to_owned() }
    }

    /// A `Hardware` error with the given detail.
    pub fn hardware(message: &str) -> (e: Error)
        ensures
            e matches Error::Hardware(m) && m@ == message@,
    {
        Error::Hardware(message.to_owned())
    }
}

} // verus!
