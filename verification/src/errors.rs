//! The error taxonomy of stream construction.
//!
//! Every failure of resolver or engine construction is surfaced to the caller
//! as one of these variants; the ones that wrap a backend failure carry the
//! backend's own description. Errors the backend reports while a stream is
//! already running never take this form: they go to the diagnostic sink only
//! and are out of this library's hands.

use vstd::prelude::*;

verus! {

/// Why a resolver or a stream could not be constructed.
///
/// - `DeviceError`: no default output device exists.
/// - `DeviceNameError`: the device could not report its own name.
/// - `DefaultStreamConfigError`: the backend produced no usable default
///   output configuration.
/// - `BuildStreamError`: the backend rejected the stream construction.
#[derive(Debug)]
pub enum AudioError {
    DeviceError,
    DeviceNameError(String),
    DefaultStreamConfigError(String),
    BuildStreamError(String),
}

impl AudioError {
    /// The diagnostic text of the error: a fixed sentence for the missing
    /// device, and the backend's own description for the wrapped failures.
    pub fn message(&self) -> (m: String)
        ensures
            (match self {
                AudioError::DeviceError => m@ == "default output device is not available"@,
                AudioError::DeviceNameError(s) => m@ == s@,
                AudioError::DefaultStreamConfigError(s) => m@ == s@,
                AudioError::BuildStreamError(s) => m@ == s@,
            }),
    {
        match self {
            AudioError::DeviceError => "default output device is not available".to_owned(),
            AudioError::DeviceNameError(s) => s.clone(),
            AudioError::DefaultStreamConfigError(s) => s.clone(),
            AudioError::BuildStreamError(s) => s.clone(),
        }
    }
}

} // verus!
