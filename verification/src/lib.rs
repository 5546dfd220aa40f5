//! Capability detection and dispatch gating for ARM and AArch64 cryptographic
//! routines.

pub mod darwin;
pub mod fallback;
pub mod feature;
pub mod featureflags;
pub mod linux;
pub mod once;
pub mod target;
