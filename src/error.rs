//! Failures reported while performing bus actions on real hardware.
use vstd::prelude::*;

verus! {

/// The first failure met while performing a run of bus actions; performing
/// stops there, and the controller is left in whatever state the actions
/// before it produced.
#[derive(Debug, PartialEq, Eq)]
pub enum OledSsd1306ResultError {
    /// A write on the byte channel failed; the message of the underlying
    /// error.
    SpiError(String),
    /// Exporting, configuring or driving a control line failed; the message
    /// of the underlying error.
    GpioError(String),
}

pub type OledSsd1306Result<T> = Result<T, OledSsd1306ResultError>;

} // verus!
