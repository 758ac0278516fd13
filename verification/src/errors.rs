//! The bootstrap error taxonomy. Every failure of the bootstrap sequence is
//! surfaced synchronously to the caller as one of these values; none is
//! retried.

use vstd::prelude::*;

verus! {

/// Why bootstrap failed.
#[derive(Clone, Copy, Debug, PartialEq, Eq, Structural)]
pub enum BootstrapError {
    /// The graphics driver's entry-point symbols could not be resolved at
    /// process start.
    LoaderUnavailable,
    /// Validation was requested but the validation layer is absent from the
    /// driver's enumerated layer list. Reported before any driver call.
    LayerUnavailable,
    /// The driver rejected the assembled creation request; the driver's
    /// native result code is preserved verbatim.
    DriverCreationFailed(i32),
    /// A required platform capability was not negotiable.
    UnsupportedCapability,
}

impl BootstrapError {
    /// A short description of the failure.
    pub fn describe(&self) -> (r: &'static str)
        ensures
            match *self {
                BootstrapError::LoaderUnavailable => r@ == "graphics driver entry points could not be resolved"@,
                BootstrapError::LayerUnavailable => r@ == "validation layers requested but not supported"@,
                BootstrapError::DriverCreationFailed(_) => r@ == "the driver rejected the instance creation request"@,
                BootstrapError::UnsupportedCapability => r@ == "a required platform capability was not available"@,
            },
    {
        match *self {
            BootstrapError::LoaderUnavailable => "graphics driver entry points could not be resolved",
            BootstrapError::LayerUnavailable => "validation layers requested but not supported",
            BootstrapError::DriverCreationFailed(_) => "the driver rejected the instance creation request",
            BootstrapError::UnsupportedCapability => "a required platform capability was not available",
        }
    }

    /// The driver's native result code, where the driver itself rejected the
    /// request.
    pub fn native_code(&self) -> (r: Option<i32>)
        ensures
            match *self {
                BootstrapError::DriverCreationFailed(code) => r == Some(code),
                _ => r is None,
            },
    {
        match *self {
            BootstrapError::DriverCreationFailed(code) => Some(code),
            _ => None,
        }
    }
}

} // verus!
