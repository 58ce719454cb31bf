//! Secure-erasure engine for block storage devices.
//!
//! The library classifies a device's erasure capabilities, selects an
//! erasure method by a deterministic preference rule, drives the method
//! to completion with progress reporting and cooperative cancellation,
//! verifies the result, and emits a tamper-evident certificate.  Device
//! enumeration and presentation are external collaborators: they hand
//! the engine plain values and receive plain values back.

pub mod caps;
pub mod cert;
pub mod device;
pub mod engine;
pub mod registry;
pub mod text;
pub mod ui;
pub mod utils;
pub mod erasure;
pub mod libs;
pub mod platform;
pub mod verify;
