//! Multisample anti-aliasing state for a graphics pipeline, and its validation
//! against the capabilities of a device.

pub mod shading;
pub mod device;
pub mod sample_count;
pub mod error;
pub mod multisample;
