//! A field of falling line particles ("raindrops") on a 2D canvas, pushed away
//! from the pointer and wrapped back to the top once they fall past the floor.
//!
//! All quantities are integers in fixed units:
//! - positions are in billionths of a canvas unit,
//! - velocities are in thousandths of a canvas unit per second,
//! - time steps are in microseconds,
//! so that `position + velocity * dt` is exact.
//!
//! Canvas "up" is increasing `y`: particles fall with a negative vertical velocity
//! and wrap when their `y` drops below the canvas's bottom edge.

pub mod units;
pub mod chance;
pub mod motion;
pub mod field;
pub mod laws;
