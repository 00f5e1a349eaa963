//! World and behavior constants, all in fixed-point thousandths of a world
//! unit (a car is 20 by 40 units, the arena spans 900 by 1200 units).
//!
//! Personality coefficients are in per-mille: a coefficient of 1500 means
//! 150 percent.

use vstd::prelude::*;

verus! {

// Car geometry.
pub const CAR_WIDTH: i64 = 20_000;
pub const CAR_LENGTH: i64 = 40_000;
pub const CAR_WIDTH_HALF: i64 = 10_000;
pub const CAR_LENGTH_HALF: i64 = 20_000;

// Driving forces: how much forward velocity a car can gain or shed per tick.
pub const CAR_GAS_POWER: i64 = 10_000;
pub const CAR_BRAKE_POWER: i64 = 15_000;

/// Maximum forward range at which an agent can detect an obstacle.
pub const CAR_SIGHT_DISTANCE: i64 = 300_000;

// Lanes: a fixed set of adjacent parallel lanes starting at the left wall.
pub const LANE_WIDTH: i64 = 40_000;
pub const LANE_WIDTH_DOUBLE: i64 = 80_000;
pub const NUM_LANES: i64 = 2;

// Arena walls (x spans left to right, y is the direction of travel).
pub const LEFT_WALL: i64 = -450_000;
pub const RIGHT_WALL: i64 = 450_000;
pub const BOTTOM_WALL: i64 = -600_000;
pub const TOP_WALL: i64 = 600_000;
pub const WALL_THICKNESS: i64 = 10_000;

// Environment.
pub const SPEED_LIMIT: i64 = 200_000;

/// Rolling resistance: velocity is scaled by
/// `FRICTION_DECAY_NUM / FRICTION_DECAY_DEN` (0.996) every tick.
pub const FRICTION_DECAY_NUM: i64 = 996;
pub const FRICTION_DECAY_DEN: i64 = 1000;

/// Forward speed of a freshly spawned agent: half the speed limit.
pub const INITIAL_CRUISE_SPEED: i64 = 100_000;

/// Lateral speed while steering toward a target lane's centerline.
pub const LATERAL_SPEED: i64 = 10_000;

/// An agent within this distance of a lane centerline counts as centered.
pub const LANE_CENTER_EPSILON: i64 = 500;

/// Closing speeds faster than this (in negative fixed-point units per
/// second) forbid accelerating while inside the brake-consideration band.
pub const REL_SPEED_ACCEL_GUARD: i64 = 50_000;

/// Scale of the per-mille personality coefficients and ratios.
pub const PCT_SCALE: i64 = 1000;

/// Ticks are at most one second long (a tick duration is in milliseconds).
pub const MAX_TICK_MS: i64 = 1000;

/// Milliseconds per second, for clearing tick durations out of divisions.
pub const MS_PER_SECOND: i64 = 1000;

/// No agent's forward velocity ever exceeds this bound: friction pulls any
/// speed above it back down faster than one tick's gas can push it up.
pub const VELOCITY_CAP: i64 = 10_000_000;

} // verus!
