//! Error taxonomy for device, codec, image and dispatch operations.

use vstd::prelude::*;

verus! {

/// Every way an operation of this library can fail.
///
/// - `HidApi`: the HID subsystem itself could not initialize; fatal to any
///   device operation.
/// - `Connection` / `NotFound`: connect-time failures; no partial session is
///   left behind.
/// - `Disconnected`: mid-session hardware loss; the session is no longer
///   usable and the polling loop must terminate.
/// - `Range`: a button index outside `[0, BUTTON_COUNT)`; caught locally,
///   never reaches hardware.
/// - `Decode` / `Encode`: image pipeline failures; the affected button is
///   skipped, the operation otherwise continues.
/// - `Write`: a partial image transfer; the button may be left with a stale
///   visual, not fatal to the session.
/// - `MissingParameter` / `TypeMismatch`: action parameter resolution;
///   surfaced as a failed action execution.
#[derive(Clone, Copy, Debug, PartialEq, Eq, Structural)]
pub enum DeckError {
    HidApi,
    Connection,
    NotFound,
    Disconnected,
    Range,
    Decode,
    Encode,
    Write,
    MissingParameter,
    TypeMismatch,
}

impl DeckError {
    /// A short human-readable description of the error.
    pub fn message(&self) -> (text: &'static str)
        ensures
            self is HidApi ==> text@ == "failed to initialize HID API"@,
            self is Connection ==> text@ == "failed to open device"@,
            self is NotFound ==> text@ == "device not found"@,
            self is Disconnected ==> text@ == "failed to read from device"@,
            self is Range ==> text@ == "button index out of range"@,
            self is Decode ==> text@ == "failed to decode image"@,
            self is Encode ==> text@ == "failed to encode image"@,
            self is Write ==> text@ == "failed to write image packet"@,
            self is MissingParameter ==> text@ == "missing required parameter"@,
            self is TypeMismatch ==> text@ == "parameter has the wrong type"@,
    {
        match self {
            DeckError::HidApi => "failed to initialize HID API",
            DeckError::Connection => "failed to open device",
            DeckError::NotFound => "device not found",
            DeckError::Disconnected => "failed to read from device",
            DeckError::Range => "button index out of range",
            DeckError::Decode => "failed to decode image",
            DeckError::Encode => "failed to encode image",
            DeckError::Write => "failed to write image packet",
            DeckError::MissingParameter => "missing required parameter",
            DeckError::TypeMismatch => "parameter has the wrong type",
        }
    }
}

} // verus!
