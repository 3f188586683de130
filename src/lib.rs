//! Control layer of a tray desktop application: the shared window's
//! visibility, the close-intercept and tray policies, the sidecar readiness
//! probe, and the derivation of the sidecar's launch configuration.

pub mod config;
pub mod policy;
pub mod setup;
pub mod sidecar;
pub mod window;

