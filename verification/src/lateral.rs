//! Lateral controller: while an agent has an active lane change, steer its
//! lateral velocity toward the target lane's centerline at a fixed speed;
//! once the agent is within a small epsilon of the centerline, stop the
//! lateral motion, clear the maneuver, and snap `lane_index` to the target.

use vstd::prelude::*;
use crate::constants::{LANE_CENTER_EPSILON, LATERAL_SPEED};
use crate::components::{
    DriverAgent, Velocity, wf_agent, wf_agent_loose, wf_agents, wf_agents_loose,
};
use crate::util::{Vec2, lane_idx_to_center, spec_lane_center_x};

verus! {

/// What the lateral controller does to one agent: nothing without an
/// active lane change; else steer toward the target centerline, or arrive.
pub open spec fn spec_lateral_agent(a: DriverAgent) -> DriverAgent {
    match a.active_lane_change {
        None => a,
        Some(c) => {
            let center_x = spec_lane_center_x(c.lane_target as int);
            let dist = center_x - a.position.x;
            if dist > LANE_CENTER_EPSILON {
                DriverAgent {
                    velocity: Velocity { x: LATERAL_SPEED, y: a.velocity.y },
                    ..a
                }
            } else if dist < -LANE_CENTER_EPSILON {
                DriverAgent {
                    velocity: Velocity { x: (-LATERAL_SPEED) as i64, y: a.velocity.y },
                    ..a
                }
            } else {
                DriverAgent {
                    velocity: Velocity { x: 0i64, y: a.velocity.y },
                    active_lane_change: None,
                    lane_index: c.lane_target,
                    ..a
                }
            }
        },
    }
}

/// The whole lateral stage as a function on the agent collection.
pub open spec fn spec_lateral(s: Seq<DriverAgent>) -> Seq<DriverAgent> {
    Seq::new(s.len(), |i: int| spec_lateral_agent(s[i]))
}

/// Run the lateral controller over every agent with an active lane change.
///
/// The maneuver is cleared — and `lane_index` snapped to the target —
/// exactly when the agent's distance to the target centerline falls at or
/// below the centering epsilon.
pub fn agent_active_lane_change_system(agents: &mut Vec<DriverAgent>)
    requires
        wf_agents_loose(old(agents)@),
    ensures
        final(agents)@ =~= spec_lateral(old(agents)@),
        wf_agents(old(agents)@) ==> wf_agents(final(agents)@),
        // arrival is exactly the centering condition
        forall|i: int| 0 <= i < old(agents)@.len()
            && old(agents)@[i].active_lane_change is Some
            ==> {
                let a = old(agents)@[i];
                let c = a.active_lane_change.unwrap();
                let dist = spec_lane_center_x(c.lane_target as int) - a.position.x;
                &&& ((#[trigger] final(agents)@[i]).active_lane_change is None
                    <==> -LANE_CENTER_EPSILON <= dist <= LANE_CENTER_EPSILON)
                &&& (final(agents)@[i].active_lane_change is None ==> {
                    &&& final(agents)@[i].lane_index == c.lane_target
                    &&& final(agents)@[i].velocity.x == 0
                })
                &&& (final(agents)@[i].active_lane_change is Some ==> {
                    &&& final(agents)@[i].lane_index == a.lane_index
                    &&& (dist > LANE_CENTER_EPSILON
                        ==> final(agents)@[i].velocity.x == LATERAL_SPEED)
                    &&& (dist < -LANE_CENTER_EPSILON
                        ==> final(agents)@[i].velocity.x == -LATERAL_SPEED)
                })
            },
        // agents without an active change are untouched
        forall|i: int| 0 <= i < old(agents)@.len()
            && old(agents)@[i].active_lane_change is None
            ==> #[trigger] final(agents)@[i] == old(agents)@[i],
{
    let ghost s = agents@;
    let n = agents.len();
    let mut i: usize = 0;
    while i < n
        invariant
            0 <= i <= n,
            n == s.len(),
            agents@.len() == s.len(),
            wf_agents_loose(s),
            forall|k: int| 0 <= k < i as int
                ==> #[trigger] agents@[k] == spec_lateral_agent(s[k]),
            forall|k: int| i as int <= k < n as int ==> #[trigger] agents@[k] == s[k],
        decreases n - i,
    {
        let a = agents[i];
        proof {
            assert(wf_agent_loose(s[i as int]));
        }
        match a.active_lane_change {
            None => {},
            Some(active) => {
                let target_lane_center = lane_idx_to_center(active.lane_target);
                let distance_from_lane_center = target_lane_center.x - a.position.x;
                let mut a2 = a;
                if distance_from_lane_center > LANE_CENTER_EPSILON {
                    a2.velocity = Velocity { x: LATERAL_SPEED, y: a.velocity.y };
                } else if distance_from_lane_center < -LANE_CENTER_EPSILON {
                    a2.velocity = Velocity { x: -LATERAL_SPEED, y: a.velocity.y };
                } else {
                    a2.velocity = Velocity { x: 0, y: a.velocity.y };
                    a2.active_lane_change = None;
                    a2.lane_index = active.lane_target;
                }
                agents[i] = a2;
            },
        }
        i = i + 1;
    }
    proof {
        assert(agents@ =~= spec_lateral(s));
        if wf_agents(s) {
            assert forall|k: int| 0 <= k < s.len() implies wf_agent(#[trigger] agents@[k]) by {
                assert(agents@[k] == spec_lateral_agent(s[k]));
                assert(wf_agent(s[k]));
            }
        }
    }
}

} // verus!
