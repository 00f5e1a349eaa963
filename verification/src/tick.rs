//! One simulation tick: the five pipeline stages in their fixed order —
//! perception, longitudinal control, lane-change arbitration, lateral
//! control, then friction and motion integration with wrap-around.
//!
//! The tick preserves every data-model invariant: perceived distances stay
//! sentinel-or-in-range, forward velocity stays non-negative and bounded,
//! at most one lane change is active per agent with its target lane in
//! range, and every agent stays inside the arena.

use vstd::prelude::*;
use crate::constants::{
    BOTTOM_WALL, CAR_GAS_POWER, CAR_LENGTH, CAR_LENGTH_HALF, FRICTION_DECAY_DEN,
    FRICTION_DECAY_NUM, LANE_CENTER_EPSILON, LATERAL_SPEED, LEFT_WALL, MAX_TICK_MS, NUM_LANES,
    RIGHT_WALL, TOP_WALL, VELOCITY_CAP,
};
use crate::components::{DriverAgent, wf_agent, wf_agent_loose, wf_agents};
use crate::lane_change::{agent_check_lane_change_system, spec_arbiter, spec_arbiter_agent};
use crate::lateral::{agent_active_lane_change_system, spec_lateral, spec_lateral_agent};
use crate::longitudinal::{
    agent_drive_system, lemma_next_vy_bounds, spec_drive, spec_drive_agent,
};
use crate::motion::{
    apply_friction, apply_velocity, lemma_decay_bounds, lemma_shift_bounds, spec_decay,
    spec_friction, spec_friction_agent, spec_integrate, spec_integrate_agent, spec_shift,
    spec_wrap, spec_wrap_agent, wrap_position,
};
use crate::perception::{collision_system, spec_perception};
use crate::util::spec_lane_center_x;

verus! {

/// The whole tick as a function on the agent collection.
pub open spec fn spec_tick(s: Seq<DriverAgent>, dt_ms: int) -> Seq<DriverAgent> {
    spec_wrap(
        spec_integrate(
            spec_friction(spec_lateral(spec_arbiter(spec_drive(spec_perception(s), dt_ms)))),
            dt_ms,
        ),
    )
}

/// Friction always pulls a one-tick velocity overshoot back under the cap.
proof fn lemma_decay_caps_velocity(v: int)
    requires
        0 <= v <= VELOCITY_CAP + CAR_GAS_POWER,
    ensures
        0 <= spec_decay(v) <= VELOCITY_CAP,
{
    lemma_decay_bounds(v);
    assert(v * FRICTION_DECAY_NUM <= (VELOCITY_CAP + CAR_GAS_POWER) * FRICTION_DECAY_NUM);
    vstd::arithmetic::div_mod::lemma_div_is_ordered(
        v * FRICTION_DECAY_NUM,
        (VELOCITY_CAP + CAR_GAS_POWER) * FRICTION_DECAY_NUM,
        FRICTION_DECAY_DEN as int,
    );
}

/// One tick keeps a single agent well-formed: the chain of per-agent stage
/// effects, starting from a well-formed perception result, lands inside
/// every data-model invariant again.
proof fn lemma_stage_chain_wf(
    a1: DriverAgent,
    a3: DriverAgent,
    dt: int,
)
    requires
        1 <= dt <= MAX_TICK_MS,
        wf_agent(a1),
        // the arbiter only ever adds an active lane change with an
        // in-range target to the driven agent
        ({
            let a2 = spec_drive_agent(a1, dt);
            &&& a3.position == a2.position
            &&& a3.velocity == a2.velocity
            &&& a3.size == a2.size
            &&& a3.lane_index == a2.lane_index
            &&& a3.collision_information == a2.collision_information
            &&& a3.lawfulness == a2.lawfulness
            &&& a3.temperament == a2.temperament
            &&& a3.patience == a2.patience
            &&& (a2.active_lane_change is Some ==> a3.active_lane_change == a2.active_lane_change)
            &&& (a3.active_lane_change is None ==> a3.active_lane_change == a2.active_lane_change)
            &&& (match a3.active_lane_change {
                Some(c) => 0 <= c.lane_target < NUM_LANES,
                None => true,
            })
        }),
    ensures
        wf_agent(
            spec_wrap_agent(
                spec_integrate_agent(spec_friction_agent(spec_lateral_agent(a3)), dt),
            ),
        ),
{
    let a2 = spec_drive_agent(a1, dt);
    let a4 = spec_lateral_agent(a3);
    let a5 = spec_friction_agent(a4);
    let a6 = spec_integrate_agent(a5, dt);
    let a7 = spec_wrap_agent(a6);

    lemma_next_vy_bounds(
        a1.collision_information.front_distance as int,
        a1.collision_information.last_front_distance as int,
        a1.temperament,
        a1.velocity.y as int,
        dt,
    );
    assert(0 <= a2.velocity.y <= VELOCITY_CAP + CAR_GAS_POWER);

    // the lateral controller leaves the forward velocity alone and puts
    // the lateral velocity at zero or one lateral-speed step toward the
    // target centerline
    assert(a4.velocity.y == a2.velocity.y);
    assert(-LATERAL_SPEED <= a4.velocity.x <= LATERAL_SPEED);
    assert(a4.active_lane_change is None ==> a4.velocity.x == 0);

    // friction caps the forward velocity back under the cap and never
    // strengthens or flips the lateral velocity
    lemma_decay_caps_velocity(a4.velocity.y as int);
    lemma_decay_bounds(a4.velocity.x as int);
    assert(0 <= a5.velocity.y <= VELOCITY_CAP);
    assert(-LATERAL_SPEED <= a5.velocity.x <= LATERAL_SPEED);
    assert(a5.active_lane_change is None ==> a5.velocity.x == 0);

    // motion: forward travel never retreats, lateral travel moves toward
    // the target centerline and cannot leave the walls
    lemma_shift_bounds(a5.velocity.x as int, dt);
    lemma_shift_bounds(a5.velocity.y as int, dt);
    assert(a6.position.y >= a5.position.y >= BOTTOM_WALL);

    if a5.velocity.x > 0 {
        assert(a4.velocity.x > 0);
        let c = a4.active_lane_change.unwrap();
        let center = spec_lane_center_x(c.lane_target as int);
        assert(center - a3.position.x > LANE_CENTER_EPSILON);
        assert(-430_000 <= center <= -390_000);
        assert(LEFT_WALL <= a6.position.x <= RIGHT_WALL);
    } else if a5.velocity.x < 0 {
        assert(a4.velocity.x < 0);
        let c = a4.active_lane_change.unwrap();
        let center = spec_lane_center_x(c.lane_target as int);
        assert(center - a3.position.x < -LANE_CENTER_EPSILON);
        assert(-430_000 <= center <= -390_000);
        assert(LEFT_WALL <= a6.position.x <= RIGHT_WALL);
    } else {
        assert(spec_shift(0, dt) == 0);
        assert(a6.position.x == a5.position.x);
    }

    // wrap-around puts the forward position back inside the arena
    assert(a7.size.y == CAR_LENGTH);
    if a6.position.y > TOP_WALL - a6.size.y as int / 2 {
        assert(a7.position.y == BOTTOM_WALL + CAR_LENGTH_HALF);
    } else {
        assert(BOTTOM_WALL <= a7.position.y <= TOP_WALL - CAR_LENGTH_HALF);
    }

    assert(wf_agent(a7));
}

/// Advance the whole simulation by one tick: perception, longitudinal
/// control, lane-change arbitration, lateral control, then friction,
/// integration, and wrap-around, in that fixed order, each stage finishing
/// over all agents before the next begins.
pub fn tick(agents: &mut Vec<DriverAgent>, dt_ms: i64)
    requires
        wf_agents(old(agents)@),
        1 <= dt_ms <= MAX_TICK_MS,
    ensures
        final(agents)@ =~= spec_tick(old(agents)@, dt_ms as int),
        final(agents)@.len() == old(agents)@.len(),
        wf_agents(final(agents)@),
{
    let ghost s0 = agents@;
    let ghost dt = dt_ms as int;

    collision_system(agents);
    let ghost s1 = agents@;

    agent_drive_system(agents, dt_ms);
    let ghost s2 = agents@;
    proof {
        assert(s2 =~= spec_drive(s1, dt));
        assert forall|k: int| 0 <= k < s2.len() implies wf_agent_loose(#[trigger] s2[k]) by {
            assert(s2[k] == spec_drive_agent(s1[k], dt));
            assert(wf_agent(s1[k]));
            lemma_next_vy_bounds(
                s1[k].collision_information.front_distance as int,
                s1[k].collision_information.last_front_distance as int,
                s1[k].temperament,
                s1[k].velocity.y as int,
                dt,
            );
        }
    }

    agent_check_lane_change_system(agents);
    let ghost s3 = agents@;
    proof {
        assert(s3 =~= spec_arbiter(s2));
        assert forall|k: int| 0 <= k < s3.len() implies wf_agent_loose(#[trigger] s3[k]) by {
            assert(s3[k] == spec_arbiter_agent(s2, k));
            assert(wf_agent_loose(s2[k]));
        }
    }

    agent_active_lane_change_system(agents);
    let ghost s4 = agents@;
    proof {
        assert(s4 =~= spec_lateral(s3));
        assert forall|k: int| 0 <= k < s4.len() implies {
            let a = #[trigger] s4[k];
            &&& -1_000_000_000 <= a.velocity.x <= 1_000_000_000
            &&& -1_000_000_000 <= a.velocity.y <= 1_000_000_000
        } by {
            assert(s4[k] == spec_lateral_agent(s3[k]));
            assert(wf_agent_loose(s2[k]));
            assert(s2[k] == spec_drive_agent(s1[k], dt));
            assert(wf_agent(s1[k]));
            lemma_next_vy_bounds(
                s1[k].collision_information.front_distance as int,
                s1[k].collision_information.last_front_distance as int,
                s1[k].temperament,
                s1[k].velocity.y as int,
                dt,
            );
        }
    }

    apply_friction(agents);
    let ghost s5 = agents@;
    proof {
        assert(s5 =~= spec_friction(s4));
        assert forall|k: int| 0 <= k < s5.len() implies {
            let a = #[trigger] s5[k];
            &&& -1_000_000_000 <= a.velocity.x <= 1_000_000_000
            &&& -1_000_000_000 <= a.velocity.y <= 1_000_000_000
            &&& -1_000_000_000 <= a.position.x <= 1_000_000_000
            &&& -1_000_000_000 <= a.position.y <= 1_000_000_000
        } by {
            assert(s5[k] == spec_friction_agent(s4[k]));
            assert(s4[k] == spec_lateral_agent(s3[k]));
            assert(wf_agent_loose(s3[k]));
            lemma_decay_bounds(s4[k].velocity.x as int);
            lemma_decay_bounds(s4[k].velocity.y as int);
        }
    }

    apply_velocity(agents, dt_ms);
    let ghost s6 = agents@;
    proof {
        assert(s6 =~= spec_integrate(s5, dt));
        assert forall|k: int| 0 <= k < s6.len() implies {
            let a = #[trigger] s6[k];
            &&& -1_100_000_000 <= a.position.y <= 1_100_000_000
            &&& 0 <= a.size.y <= 100_000
        } by {
            assert(s6[k] == spec_integrate_agent(s5[k], dt));
            assert(s5[k] == spec_friction_agent(s4[k]));
            assert(s4[k] == spec_lateral_agent(s3[k]));
            assert(s3[k] == spec_arbiter_agent(s2, k));
            assert(s2[k] == spec_drive_agent(s1[k], dt));
            assert(wf_agent(s1[k]));
            lemma_shift_bounds(s5[k].velocity.x as int, dt);
            lemma_shift_bounds(s5[k].velocity.y as int, dt);
        }
    }

    wrap_position(agents);
    proof {
        assert(agents@ =~= spec_wrap(s6));
        assert(agents@ =~= spec_tick(s0, dt));
        assert forall|k: int| 0 <= k < agents@.len() implies wf_agent(#[trigger] agents@[k]) by {
            assert(agents@[k] == spec_wrap_agent(s6[k]));
            assert(s6[k] == spec_integrate_agent(s5[k], dt));
            assert(s5[k] == spec_friction_agent(s4[k]));
            assert(s4[k] == spec_lateral_agent(s3[k]));
            assert(s3[k] == spec_arbiter_agent(s2, k));
            assert(s2[k] == spec_drive_agent(s1[k], dt));
            assert(wf_agent(s1[k]));
            lemma_stage_chain_wf(s1[k], s3[k], dt);
        }
    }
}

} // verus!
