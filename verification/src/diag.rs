//! The Diagnostics Bridge's decision rule: which host log level a driver
//! diagnostic event is forwarded at, and the fixed "do not abort" response.
//! The bridge is observational only; it never alters driver behavior.

use vstd::prelude::*;

verus! {

/// Severity tier bit: diagnostic chatter.
pub const SEVERITY_VERBOSE: u32 = 0x1;

/// Severity tier bit: informational, such as the creation of a resource.
pub const SEVERITY_INFO: u32 = 0x10;

/// Severity tier bit: likely an application bug, not necessarily an error.
pub const SEVERITY_WARNING: u32 = 0x100;

/// Severity tier bit: invalid behavior that may cause crashes.
pub const SEVERITY_ERROR: u32 = 0x1000;

/// All four severity tiers, the mask the debug messenger registers with.
pub const ALL_SEVERITIES: u32 = 0x1111;

/// Category bit: general events.
pub const CATEGORY_GENERAL: u32 = 0x1;

/// Category bit: validation findings.
pub const CATEGORY_VALIDATION: u32 = 0x2;

/// Category bit: performance advisories.
pub const CATEGORY_PERFORMANCE: u32 = 0x4;

/// All three categories, the mask the debug messenger registers with.
pub const ALL_CATEGORIES: u32 = 0x7;

/// The host logging facility's levels, in descending severity.
#[derive(Clone, Copy, Debug, PartialEq, Eq, Structural)]
pub enum LogLevel {
    Error,
    Warn,
    Debug,
    Trace,
}

/// A diagnostic event as the bridge receives it: the severity tier bits and
/// category bits the driver set, and the message text. Transient; nothing
/// of it is retained past the call.
#[derive(Debug)]
pub struct DiagnosticEvent {
    pub severity_bits: u32,
    pub category_bits: u32,
    pub message: String,
}

/// The 1:1 severity-to-level mapping: error to error, warning to warn, info
/// to debug, and everything below to trace; the highest tier set wins.
pub open spec fn spec_level_for(severity_bits: u32) -> LogLevel {
    if severity_bits & SEVERITY_ERROR != 0 {
        LogLevel::Error
    } else if severity_bits & SEVERITY_WARNING != 0 {
        LogLevel::Warn
    } else if severity_bits & SEVERITY_INFO != 0 {
        LogLevel::Debug
    } else {
        LogLevel::Trace
    }
}

/// Maps a driver severity mask to the host log level.
pub fn level_for_severity(severity_bits: u32) -> (r: LogLevel)
    ensures
        r == spec_level_for(severity_bits),
{
    if severity_bits & SEVERITY_ERROR != 0 {
        LogLevel::Error
    } else if severity_bits & SEVERITY_WARNING != 0 {
        LogLevel::Warn
    } else if severity_bits & SEVERITY_INFO != 0 {
        LogLevel::Debug
    } else {
        LogLevel::Trace
    }
}

/// The bridge's whole response to one event: the level to forward it at,
/// and the fixed "do not abort the triggering call" result.
pub fn route_event(event: &DiagnosticEvent) -> (r: (LogLevel, bool))
    ensures
        r.0 == spec_level_for(event.severity_bits),
        r.1 == false,
{
    (level_for_severity(event.severity_bits), false)
}

} // verus!
