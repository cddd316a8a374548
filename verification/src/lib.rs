//! A per-pixel rasteriser for an aiming reticle, in fixed-point arithmetic.
//!
//! Every fractional quantity is an integer count of millionths (see
//! [`fixed::ONE`]): opacities, intensities, speeds, seconds, pixel offsets and
//! the sine and cosine samples that drive rotation and the animated effects.
//! The samples themselves are taken by the caller: the library says at which
//! phase each one is wanted and does everything else.

pub mod fixed;
pub mod color;

pub mod config;
pub mod crosshair;
pub mod mouse_capture;
pub mod scheduler;
