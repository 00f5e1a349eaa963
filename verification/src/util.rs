//! Driver personality traits, their coefficient tables, and lane/position
//! conversions.
//!
//! The three categorical traits are fixed at an agent's creation and
//! parameterize its driving style:
//! - lawfulness: whether the driver returns to the home (rightmost) lane
//!   when not passing;
//! - temperament: top speed, when braking starts, and how close the driver
//!   will follow;
//! - patience: how much slowdown the driver tolerates before trying to pass.

use vstd::prelude::*;
use crate::constants::{LEFT_WALL, RIGHT_WALL, BOTTOM_WALL, LANE_WIDTH, NUM_LANES};

verus! {

#[derive(Clone, Copy, Debug, PartialEq, Eq, Structural)]
pub enum DriverLawfulness {
    Chaotic,
    Orderly,
}

#[derive(Clone, Copy, Debug, PartialEq, Eq, Structural)]
pub enum DriverTemperament {
    Psychotic,
    Aggressive,
    Calm,
    Passive,
}

#[derive(Clone, Copy, Debug, PartialEq, Eq, Structural)]
pub enum DriverPatience {
    Enlightened,
    Patient,
    Normal,
    Wild,
}

/// Which adjacent lane an agent wants to move to, if any. Left is toward
/// lane 0 (the passing side), Right is toward the home lane.
#[derive(Clone, Copy, Debug, PartialEq, Eq, Structural)]
pub enum LaneChangeDirection {
    Left,
    Right,
    Stay,
}

/// Percentage of the speed limit this temperament tops out at, per-mille.
pub open spec fn spec_top_speed_pct(t: DriverTemperament) -> int {
    match t {
        DriverTemperament::Psychotic => 1500,
        DriverTemperament::Aggressive => 1300,
        DriverTemperament::Calm => 1000,
        DriverTemperament::Passive => 800,
    }
}

/// Percentage of the sight distance at which this temperament begins to
/// consider braking, per-mille.
pub open spec fn spec_brake_threshold_pct(t: DriverTemperament) -> int {
    match t {
        DriverTemperament::Psychotic => 500,
        DriverTemperament::Aggressive => 700,
        DriverTemperament::Calm => 1000,
        DriverTemperament::Passive => 1000,
    }
}

/// Percentage of one car length this temperament is willing to tail at,
/// per-mille.
pub open spec fn spec_tail_threshold_pct(t: DriverTemperament) -> int {
    match t {
        DriverTemperament::Psychotic => 1500,
        DriverTemperament::Aggressive => 3000,
        DriverTemperament::Calm => 4500,
        DriverTemperament::Passive => 6000,
    }
}

/// Percentage of the speed limit below which this patience gets frustrated
/// enough to pass, per-mille.
pub open spec fn spec_min_speed_pct(p: DriverPatience) -> int {
    match p {
        DriverPatience::Enlightened => 200,
        DriverPatience::Patient => 700,
        DriverPatience::Normal => 900,
        DriverPatience::Wild => 1000,
    }
}

pub fn driver_temperament_top_speed_pct(temperament: &DriverTemperament) -> (r: i64)
    ensures
        r == spec_top_speed_pct(*temperament),
{
    match temperament {
        DriverTemperament::Psychotic => 1500,
        DriverTemperament::Aggressive => 1300,
        DriverTemperament::Calm => 1000,
        DriverTemperament::Passive => 800,
    }
}

pub fn driver_temperament_brake_threshold(temperament: &DriverTemperament) -> (r: i64)
    ensures
        r == spec_brake_threshold_pct(*temperament),
{
    match temperament {
        DriverTemperament::Psychotic => 500,
        DriverTemperament::Aggressive => 700,
        DriverTemperament::Calm => 1000,
        DriverTemperament::Passive => 1000,
    }
}

pub fn driver_temperament_tail_threshold(temperament: &DriverTemperament) -> (r: i64)
    ensures
        r == spec_tail_threshold_pct(*temperament),
{
    match temperament {
        DriverTemperament::Psychotic => 1500,
        DriverTemperament::Aggressive => 3000,
        DriverTemperament::Calm => 4500,
        DriverTemperament::Passive => 6000,
    }
}

pub fn driver_patience_min_speed_pct(patience: &DriverPatience) -> (r: i64)
    ensures
        r == spec_min_speed_pct(*patience),
{
    match patience {
        DriverPatience::Enlightened => 200,
        DriverPatience::Patient => 700,
        DriverPatience::Normal => 900,
        DriverPatience::Wild => 1000,
    }
}

/// A 2D point or extent in fixed-point world coordinates.
#[derive(Clone, Copy, Debug, PartialEq, Eq, Structural)]
pub struct Vec2 {
    pub x: i64,
    pub y: i64,
}

/// The x coordinate where a lane begins (its left edge).
pub open spec fn spec_lane_start_x(lane_idx: int) -> int {
    LEFT_WALL + LANE_WIDTH * lane_idx
}

/// The x coordinate of a lane's centerline.
pub open spec fn spec_lane_center_x(lane_idx: int) -> int {
    spec_lane_start_x(lane_idx) + LANE_WIDTH / 2
}

/// Given the index of a lane, return its starting coordinates: the left
/// edge of the lane at the near end of the arena.
pub fn lane_idx_to_screen_pos(lane_idx: i64) -> (r: Vec2)
    requires
        0 <= lane_idx < NUM_LANES,
    ensures
        r.x == spec_lane_start_x(lane_idx as int),
        r.y == BOTTOM_WALL,
{
    Vec2 { x: LEFT_WALL + LANE_WIDTH * lane_idx, y: BOTTOM_WALL }
}

/// Given the index of a lane, return the coordinates of that lane's
/// centerline at the near end of the arena.
pub fn lane_idx_to_center(lane_idx: i64) -> (r: Vec2)
    requires
        0 <= lane_idx < NUM_LANES,
    ensures
        r.x == spec_lane_center_x(lane_idx as int),
        r.y == BOTTOM_WALL,
{
    let lane_pos = lane_idx_to_screen_pos(lane_idx);
    Vec2 { x: lane_pos.x + LANE_WIDTH / 2, y: lane_pos.y }
}

/// The index of the lane containing an x coordinate.
pub open spec fn spec_lane_idx_of(x: int) -> int {
    (x - LEFT_WALL) / (LANE_WIDTH as int)
}

/// Given a position in the arena, return the index of the lane it lies in.
pub fn lane_idx_from_screen_pos(screen_pos: &Vec2) -> (r: i64)
    requires
        LEFT_WALL <= screen_pos.x <= RIGHT_WALL,
    ensures
        r == spec_lane_idx_of(screen_pos.x as int),
{
    let adjusted_x = screen_pos.x - LEFT_WALL;
    adjusted_x / LANE_WIDTH
}

} // verus!
