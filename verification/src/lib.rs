//! Bootstrap layer for a hardware-accelerated rendering application.
//!
//! The crate decides, from plain values handed in by the host (the window's
//! mandatory extension names, the environment's validation flag, the operating
//! system identity and the driver's reported version), which optional driver
//! capabilities are enabled, assembles the single instance-creation request,
//! routes driver diagnostic events to log levels, and tracks the ordered
//! lifecycle of the resulting handles.

pub mod builder;
pub mod caps;
pub mod config;
pub mod diag;
pub mod errors;
pub mod lifecycle;
pub mod version;
