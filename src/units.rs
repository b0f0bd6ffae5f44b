//! Units, limits and the plain data of the field.

use vstd::prelude::*;

verus! {

/// Position units in one canvas unit.
pub const NANOS_PER_UNIT: i64 = 1_000_000_000;

/// Velocity units in one canvas unit per second.
pub const MILLIS_PER_UNIT: i64 = 1_000;

/// Time-step units in one second.
pub const MICROS_PER_SECOND: i64 = 1_000_000;

/// Largest magnitude of a coordinate that a step accepts (2^61 position units).
pub const COORD_LIMIT: i64 = 0x2000_0000_0000_0000;

/// Largest magnitude of a velocity component that a step accepts (2^32 velocity units).
pub const SPEED_LIMIT: i64 = 0x1_0000_0000;

/// Longest time step accepted, in microseconds (2^24, about 16.8 s).
pub const DT_LIMIT: u64 = 0x100_0000;

/// The hue value that stands for a full turn (hue 1.0).
pub const HUE_SCALE: u32 = 1_000_000;

/// A point in canvas coordinates, in billionths of a canvas unit.
#[derive(Clone, Copy, Debug, PartialEq, Eq)]
pub struct Point {
    pub x: i64,
    pub y: i64,
}

/// A velocity, in thousandths of a canvas unit per second.
#[derive(Clone, Copy, Debug, PartialEq, Eq)]
pub struct Velocity {
    pub x: i64,
    pub y: i64,
}

/// One falling line particle. Its color has full saturation and value;
/// only the hue (out of `HUE_SCALE`) varies.
#[derive(Clone, Copy, Debug, PartialEq, Eq)]
pub struct Particle {
    pub position: Point,
    pub velocity: Velocity,
    pub hue: u32,
}

/// The edges of the canvas that the wrap policy uses, in position units.
/// Respawned particles take an `x` in `[-width, width)`.
#[derive(Clone, Copy, Debug, PartialEq, Eq)]
pub struct Canvas {
    pub top: i64,
    pub bottom: i64,
    pub width: i64,
}

impl Point {
    pub open spec fn fits(self) -> bool {
        -COORD_LIMIT <= self.x <= COORD_LIMIT && -COORD_LIMIT <= self.y <= COORD_LIMIT
    }
}

impl Velocity {
    pub open spec fn fits(self) -> bool {
        -SPEED_LIMIT <= self.x <= SPEED_LIMIT && -SPEED_LIMIT <= self.y <= SPEED_LIMIT
    }
}

impl Particle {
    pub open spec fn fits(self) -> bool {
        self.position.fits() && self.velocity.fits()
    }
}

impl Canvas {
    /// Edges in order and within the coordinate limits, and a positive width.
    pub open spec fn fits(self) -> bool {
        -COORD_LIMIT <= self.bottom <= self.top <= COORD_LIMIT && 0 < self.width <= COORD_LIMIT
    }
}

} // verus!
