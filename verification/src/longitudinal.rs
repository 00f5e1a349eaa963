//! Longitudinal controller: from an agent's perceived forward distance (and
//! its change since the previous hit) and its temperament, compute a signed
//! change to the forward velocity, then clamp the velocity to be
//! non-negative.
//!
//! Outside the brake-consideration band the agent accelerates by a fixed
//! gas increment, never past its personality-scaled top speed. Inside its
//! minimum following gap it always brakes, harder the deeper it has
//! intruded. In between, it accelerates proportionally to its remaining
//! headroom unless the car ahead is approaching quickly, in which case it
//! brakes proportionally to the missing headroom.

use vstd::prelude::*;
use crate::constants::{
    CAR_BRAKE_POWER, CAR_GAS_POWER, CAR_LENGTH, CAR_SIGHT_DISTANCE, MAX_TICK_MS,
    MS_PER_SECOND, PCT_SCALE, REL_SPEED_ACCEL_GUARD, SPEED_LIMIT, VELOCITY_CAP,
};
use crate::components::{DriverAgent, Velocity, wf_front_distance};
use crate::util::{
    DriverTemperament, driver_temperament_brake_threshold, driver_temperament_tail_threshold,
    driver_temperament_top_speed_pct, spec_brake_threshold_pct, spec_tail_threshold_pct,
    spec_top_speed_pct,
};

verus! {

/// The personality-scaled top speed of a temperament.
pub open spec fn spec_top_speed(t: DriverTemperament) -> int {
    SPEED_LIMIT * spec_top_speed_pct(t) / (PCT_SCALE as int)
}

/// The distance at which this temperament begins to consider slowing.
pub open spec fn spec_brake_distance_threshold(t: DriverTemperament) -> int {
    CAR_SIGHT_DISTANCE * spec_brake_threshold_pct(t) / (PCT_SCALE as int)
}

/// The minimum following gap this temperament tolerates.
pub open spec fn spec_tail_distance(t: DriverTemperament) -> int {
    CAR_LENGTH * spec_tail_threshold_pct(t) / (PCT_SCALE as int)
}

/// Every temperament's thresholds are concrete, well-ordered amounts: the
/// tail gap sits strictly inside the brake-consideration band.
pub proof fn lemma_threshold_bounds(t: DriverTemperament)
    ensures
        60_000 <= spec_tail_distance(t) <= 240_000,
        150_000 <= spec_brake_distance_threshold(t) <= CAR_SIGHT_DISTANCE,
        160_000 <= spec_top_speed(t) <= 300_000,
        spec_tail_distance(t) < spec_brake_distance_threshold(t),
{
    match t {
        DriverTemperament::Psychotic => {},
        DriverTemperament::Aggressive => {},
        DriverTemperament::Calm => {},
        DriverTemperament::Passive => {},
    }
}

/// Clamp a ratio to per-mille range.
pub open spec fn spec_clamp_pm(x: int) -> int {
    if x < 0 {
        0
    } else if x > PCT_SCALE {
        PCT_SCALE as int
    } else {
        x
    }
}

/// The forward velocity after the longitudinal controller runs on one
/// agent, as a function of the perceived distances, the temperament, the
/// current forward velocity, and the tick duration.
pub open spec fn spec_next_vy(
    front: int, last: int, t: DriverTemperament, vy: int, dt_ms: int,
) -> int {
    let brake_thr = spec_brake_distance_threshold(t);
    let tail = spec_tail_distance(t);
    let top = spec_top_speed(t);
    if front == -1 || front > brake_thr {
        // no obstacle worth reacting to: gain gas, never past top speed
        if vy < top {
            if vy + CAR_GAS_POWER <= top {
                vy + CAR_GAS_POWER
            } else {
                top
            }
        } else {
            vy
        }
    } else if front <= tail {
        // inside the minimum gap: brake, harder the closer to contact
        let pp = spec_clamp_pm(front * PCT_SCALE / tail);
        let brake = CAR_BRAKE_POWER * (PCT_SCALE - pp) / (PCT_SCALE as int);
        if vy - brake >= 0 {
            vy - brake
        } else {
            0
        }
    } else {
        // between the tail gap and the brake threshold: react to the
        // closing speed, scaled by the remaining headroom
        let denom = if brake_thr - tail >= 1 {
            brake_thr - tail
        } else {
            1
        };
        let hr = spec_clamp_pm((front - tail) * PCT_SCALE / denom);
        if (front - last) * MS_PER_SECOND > -REL_SPEED_ACCEL_GUARD * dt_ms {
            // not approaching quickly: accelerate with the headroom
            vy + CAR_GAS_POWER * hr / (PCT_SCALE as int)
        } else {
            // approaching quickly: brake with the missing headroom
            let brake = CAR_BRAKE_POWER * (PCT_SCALE - hr) / (PCT_SCALE as int);
            if vy - brake >= 0 {
                vy - brake
            } else {
                0
            }
        }
    }
}

/// The controller never reverses an agent (the new velocity stays
/// non-negative), and one tick's gain is at most one gas increment.
pub proof fn lemma_next_vy_bounds(
    front: int, last: int, t: DriverTemperament, vy: int, dt_ms: int,
)
    requires
        0 <= vy,
    ensures
        0 <= spec_next_vy(front, last, t, vy, dt_ms),
        spec_next_vy(front, last, t, vy, dt_ms) <= vy + CAR_GAS_POWER,
{
    lemma_threshold_bounds(t);
    let tail = spec_tail_distance(t);
    let brake_thr = spec_brake_distance_threshold(t);
    let denom = if brake_thr - tail >= 1 { brake_thr - tail } else { 1 };
    assert(0 <= spec_clamp_pm(front * PCT_SCALE / tail) <= PCT_SCALE);
    assert(0 <= spec_clamp_pm((front - tail) * PCT_SCALE / denom) <= PCT_SCALE);
    assert(0 <= CAR_BRAKE_POWER * (PCT_SCALE - spec_clamp_pm(front * PCT_SCALE / tail))
        / (PCT_SCALE as int) <= CAR_BRAKE_POWER) by (nonlinear_arith);
    assert(0 <= CAR_GAS_POWER * spec_clamp_pm((front - tail) * PCT_SCALE / denom)
        / (PCT_SCALE as int) <= CAR_GAS_POWER) by (nonlinear_arith);
    assert(0 <= CAR_BRAKE_POWER * (PCT_SCALE - spec_clamp_pm((front - tail) * PCT_SCALE / denom))
        / (PCT_SCALE as int) <= CAR_BRAKE_POWER) by (nonlinear_arith);
}

/// An agent inside its minimum following gap never gains velocity: the
/// delta the controller applies that tick is non-positive.
pub proof fn lemma_brake_inside_tail_gap(
    front: int, last: int, t: DriverTemperament, vy: int, dt_ms: int,
)
    requires
        0 <= vy,
        0 <= front <= spec_tail_distance(t),
    ensures
        spec_next_vy(front, last, t, vy, dt_ms) <= vy,
{
    lemma_threshold_bounds(t);
    let tail = spec_tail_distance(t);
    let pp = spec_clamp_pm(front * PCT_SCALE / tail);
    assert(0 <= CAR_BRAKE_POWER * (PCT_SCALE - pp) / (PCT_SCALE as int)) by (nonlinear_arith)
        requires 0 <= pp <= PCT_SCALE;
}

/// The pure-acceleration branch (no obstacle, or one beyond the brake
/// threshold) never drives the velocity above the personality-scaled top
/// speed; an agent already above it keeps its speed for friction to shed.
pub proof fn lemma_cruise_capped_at_top_speed(
    front: int, last: int, t: DriverTemperament, vy: int, dt_ms: int,
)
    requires
        0 <= vy,
        front == -1 || front > spec_brake_distance_threshold(t),
    ensures
        spec_next_vy(front, last, t, vy, dt_ms)
            <= if vy > spec_top_speed(t) { vy } else { spec_top_speed(t) },
        vy < spec_top_speed(t) ==> spec_next_vy(front, last, t, vy, dt_ms) > vy,
{
}

/// Apply the braking/acceleration curve for a perceived obstacle ahead:
/// the distance-branch part of the longitudinal controller.
pub fn brake_for_front(agent: &DriverAgent, velocity: &mut Velocity, dt_ms: i64)
    requires
        0 <= agent.collision_information.front_distance <= CAR_SIGHT_DISTANCE,
        wf_front_distance(agent.collision_information.last_front_distance as int),
        0 <= old(velocity).y <= VELOCITY_CAP,
        1 <= dt_ms <= MAX_TICK_MS,
    ensures
        final(velocity).x == old(velocity).x,
        final(velocity).y as int == spec_next_vy(
            agent.collision_information.front_distance as int,
            agent.collision_information.last_front_distance as int,
            agent.temperament,
            old(velocity).y as int,
            dt_ms as int,
        ),
{
    proof {
        lemma_threshold_bounds(agent.temperament);
        lemma_next_vy_bounds(
            agent.collision_information.front_distance as int,
            agent.collision_information.last_front_distance as int,
            agent.temperament,
            old(velocity).y as int,
            dt_ms as int,
        );
    }
    let distance = agent.collision_information.front_distance;
    let brake_distance_threshold =
        CAR_SIGHT_DISTANCE * driver_temperament_brake_threshold(&agent.temperament) / PCT_SCALE;
    let top_speed = SPEED_LIMIT * driver_temperament_top_speed_pct(&agent.temperament) / PCT_SCALE;

    if distance > brake_distance_threshold {
        // not within braking distance; continue accelerating toward top speed
        if velocity.y < top_speed {
            if velocity.y + CAR_GAS_POWER <= top_speed {
                velocity.y = velocity.y + CAR_GAS_POWER;
            } else {
                velocity.y = top_speed;
            }
        }
    } else {
        let min_tail_distance =
            CAR_LENGTH * driver_temperament_tail_threshold(&agent.temperament) / PCT_SCALE;
        if distance <= min_tail_distance {
            // always brake within the tail gap, approaching full power as
            // the distance approaches zero
            let q = distance * PCT_SCALE / min_tail_distance;
            let power_percentage = if q > PCT_SCALE {
                PCT_SCALE
            } else if q < 0 {
                0
            } else {
                q
            };
            let brake_power = CAR_BRAKE_POWER * (PCT_SCALE - power_percentage) / PCT_SCALE;
            if velocity.y - brake_power >= 0 {
                velocity.y = velocity.y - brake_power;
            } else {
                velocity.y = 0;
            }
        } else {
            // between the tail gap and the brake threshold: the change in
            // distance since the last hit approximates the closing speed
            let previous_distance = agent.collision_information.last_front_distance;
            let distance_difference = distance - previous_distance;
            let adjusted_threshold0 = brake_distance_threshold - min_tail_distance;
            let adjusted_threshold = if adjusted_threshold0 >= 1 {
                adjusted_threshold0
            } else {
                1
            };
            let q = (distance - min_tail_distance) * PCT_SCALE / adjusted_threshold;
            let headroom = if q > PCT_SCALE {
                PCT_SCALE
            } else if q < 0 {
                0
            } else {
                q
            };
            // the closing-speed comparison, cleared of its division:
            // difference / (dt / 1000) > -guard
            if distance_difference * MS_PER_SECOND > -REL_SPEED_ACCEL_GUARD * dt_ms {
                velocity.y = velocity.y + CAR_GAS_POWER * headroom / PCT_SCALE;
            } else {
                let brake_power = CAR_BRAKE_POWER * (PCT_SCALE - headroom) / PCT_SCALE;
                if velocity.y - brake_power >= 0 {
                    velocity.y = velocity.y - brake_power;
                } else {
                    velocity.y = 0;
                }
            }
        }
    }
}

/// Accelerate or brake one agent: the whole longitudinal controller for a
/// single vehicle.
pub fn agent_accelerate_or_brake(agent: &DriverAgent, velocity: &mut Velocity, dt_ms: i64)
    requires
        wf_front_distance(agent.collision_information.front_distance as int),
        wf_front_distance(agent.collision_information.last_front_distance as int),
        0 <= old(velocity).y <= VELOCITY_CAP,
        1 <= dt_ms <= MAX_TICK_MS,
    ensures
        final(velocity).x == old(velocity).x,
        final(velocity).y as int == spec_next_vy(
            agent.collision_information.front_distance as int,
            agent.collision_information.last_front_distance as int,
            agent.temperament,
            old(velocity).y as int,
            dt_ms as int,
        ),
        // braking never reverses the agent
        final(velocity).y >= 0,
        // one tick gains at most one gas increment
        final(velocity).y <= old(velocity).y + CAR_GAS_POWER,
        // the pure-acceleration branch respects the top speed
        (agent.collision_information.front_distance == -1
            || agent.collision_information.front_distance as int
                > spec_brake_distance_threshold(agent.temperament))
            && old(velocity).y <= spec_top_speed(agent.temperament)
            ==> final(velocity).y <= spec_top_speed(agent.temperament),
        // inside the minimum following gap the delta is non-positive
        0 <= agent.collision_information.front_distance as int
            <= spec_tail_distance(agent.temperament)
            ==> final(velocity).y <= old(velocity).y,
{
    proof {
        lemma_threshold_bounds(agent.temperament);
        lemma_next_vy_bounds(
            agent.collision_information.front_distance as int,
            agent.collision_information.last_front_distance as int,
            agent.temperament,
            old(velocity).y as int,
            dt_ms as int,
        );
        if 0 <= agent.collision_information.front_distance as int
            <= spec_tail_distance(agent.temperament) {
            lemma_brake_inside_tail_gap(
                agent.collision_information.front_distance as int,
                agent.collision_information.last_front_distance as int,
                agent.temperament,
                old(velocity).y as int,
                dt_ms as int,
            );
        }
    }
    if agent.collision_information.front_distance >= 0 {
        brake_for_front(agent, velocity, dt_ms);
    } else {
        // no obstacle in sight: gain gas, never past top speed
        let top_speed =
            SPEED_LIMIT * driver_temperament_top_speed_pct(&agent.temperament) / PCT_SCALE;
        if velocity.y < top_speed {
            if velocity.y + CAR_GAS_POWER <= top_speed {
                velocity.y = velocity.y + CAR_GAS_POWER;
            } else {
                velocity.y = top_speed;
            }
        }
    }
}

/// What the longitudinal controller does to one agent.
pub open spec fn spec_drive_agent(a: DriverAgent, dt_ms: int) -> DriverAgent {
    DriverAgent {
        velocity: Velocity {
            x: a.velocity.x,
            y: spec_next_vy(
                a.collision_information.front_distance as int,
                a.collision_information.last_front_distance as int,
                a.temperament,
                a.velocity.y as int,
                dt_ms,
            ) as i64,
        },
        ..a
    }
}

/// The whole longitudinal stage as a function on the agent collection.
pub open spec fn spec_drive(s: Seq<DriverAgent>, dt_ms: int) -> Seq<DriverAgent> {
    Seq::new(s.len(), |i: int| spec_drive_agent(s[i], dt_ms))
}

/// Run the longitudinal controller over every agent.
pub fn agent_drive_system(agents: &mut Vec<DriverAgent>, dt_ms: i64)
    requires
        1 <= dt_ms <= MAX_TICK_MS,
        forall|i: int| 0 <= i < old(agents)@.len() ==> {
            let a = #[trigger] old(agents)@[i];
            &&& wf_front_distance(a.collision_information.front_distance as int)
            &&& wf_front_distance(a.collision_information.last_front_distance as int)
            &&& 0 <= a.velocity.y <= VELOCITY_CAP
        },
    ensures
        final(agents)@ =~= spec_drive(old(agents)@, dt_ms as int),
{
    let ghost s = agents@;
    let n = agents.len();
    let mut i: usize = 0;
    while i < n
        invariant
            0 <= i <= n,
            n == s.len(),
            agents@.len() == s.len(),
            1 <= dt_ms <= MAX_TICK_MS,
            forall|k: int| 0 <= k < n as int ==> {
                let a = #[trigger] s[k];
                &&& wf_front_distance(a.collision_information.front_distance as int)
                &&& wf_front_distance(a.collision_information.last_front_distance as int)
                &&& 0 <= a.velocity.y <= VELOCITY_CAP
            },
            forall|k: int| 0 <= k < i as int
                ==> #[trigger] agents@[k] == spec_drive_agent(s[k], dt_ms as int),
            forall|k: int| i as int <= k < n as int ==> #[trigger] agents@[k] == s[k],
        decreases n - i,
    {
        let a = agents[i];
        let mut v = a.velocity;
        agent_accelerate_or_brake(&a, &mut v, dt_ms);
        let mut a2 = a;
        a2.velocity = v;
        agents[i] = a2;
        i = i + 1;
    }
}

} // verus!
