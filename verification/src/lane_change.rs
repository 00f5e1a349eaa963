//! Lane-change arbiter: decides, per tick, whether an agent wants to move
//! to an adjacent lane — left to pass a slow car ahead, or right to return
//! to the home lane when its driver is orderly — and commits the change
//! only when the target lane is physically clear near the agent.
//!
//! Agents that already have an active lane change are skipped: at most one
//! lateral maneuver is in progress at a time. The "who occupies which
//! lane" lookup is built fresh at the start of the stage and never retained
//! across ticks.

use vstd::prelude::*;
use crate::constants::{
    CAR_LENGTH_HALF, CAR_WIDTH_HALF, LANE_WIDTH_DOUBLE, NUM_LANES, PCT_SCALE, SPEED_LIMIT,
};
use crate::components::{
    ActiveLaneChange, DriverAgent, wf_agent, wf_agent_loose, wf_agents, wf_agents_loose,
};
use crate::util::{
    DriverLawfulness, LaneChangeDirection, Vec2, driver_patience_min_speed_pct,
    spec_min_speed_pct,
};

verus! {

/// One entry of the per-tick lane lookup: which lane an agent occupies and
/// where it is.
#[derive(Clone, Copy, Debug, PartialEq, Eq, Structural)]
pub struct LaneOccupant {
    pub lane_index: i64,
    pub position: Vec2,
}

/// The lookup entry an agent contributes.
pub open spec fn spec_occupant_of(a: DriverAgent) -> LaneOccupant {
    LaneOccupant { lane_index: a.lane_index, position: a.position }
}

/// The whole per-tick lane lookup.
pub open spec fn spec_occupants(s: Seq<DriverAgent>) -> Seq<LaneOccupant> {
    Seq::new(s.len(), |i: int| spec_occupant_of(s[i]))
}

/// Closed-interval overlap of two axis-aligned boxes given by center and
/// half-extent.
pub open spec fn spec_boxes_overlap(
    ax: int, ay: int, ahx: int, ahy: int,
    bx: int, by: int, bhx: int, bhy: int,
) -> bool {
    &&& ax - ahx <= bx + bhx
    &&& bx - bhx <= ax + ahx
    &&& ay - ahy <= by + bhy
    &&& by - bhy <= ay + ahy
}

/// Does the feasibility box of an agent at `pos` — its own length, widened
/// by two lane widths to either side — clear every occupant of the target
/// lane?
pub open spec fn spec_lane_open(occ: Seq<LaneOccupant>, target_lane: int, pos: Vec2) -> bool {
    forall|j: int| 0 <= j < occ.len() && (#[trigger] occ[j]).lane_index == target_lane
        ==> !spec_boxes_overlap(
            pos.x as int, pos.y as int, LANE_WIDTH_DOUBLE as int, CAR_LENGTH_HALF as int,
            occ[j].position.x as int, occ[j].position.y as int,
            CAR_WIDTH_HALF as int, CAR_LENGTH_HALF as int,
        )
}

/// Which adjacent lane an agent wants to move to, ignoring feasibility:
/// left when an obstacle ahead has it frustrated below its patience's
/// minimum passing speed, else right when an orderly driver is away from
/// the home (rightmost) lane, else none.
pub open spec fn spec_lane_change_desire(a: DriverAgent) -> LaneChangeDirection {
    if a.collision_information.front_distance > -1
        && (a.velocity.y as int) * PCT_SCALE < SPEED_LIMIT * spec_min_speed_pct(a.patience) {
        LaneChangeDirection::Left
    } else {
        match a.lawfulness {
            DriverLawfulness::Chaotic => LaneChangeDirection::Stay,
            DriverLawfulness::Orderly => {
                if a.lane_index < NUM_LANES - 1 {
                    LaneChangeDirection::Right
                } else {
                    LaneChangeDirection::Stay
                }
            },
        }
    }
}

/// What the arbiter does to agent `i`: nothing while a change is already
/// active or no adjacent lane is desired; else commit a change to the
/// desired lane exactly when that lane exists and is clear.
pub open spec fn spec_arbiter_agent(s: Seq<DriverAgent>, i: int) -> DriverAgent {
    let a = s[i];
    if a.active_lane_change is Some {
        a
    } else {
        let dir = spec_lane_change_desire(a);
        if dir == LaneChangeDirection::Stay {
            a
        } else {
            let target: int = if dir == LaneChangeDirection::Left {
                a.lane_index - 1
            } else {
                a.lane_index + 1
            };
            if 0 <= target < NUM_LANES
                && spec_lane_open(spec_occupants(s), target, a.position) {
                DriverAgent {
                    active_lane_change: Some(ActiveLaneChange {
                        lane_change_direction: dir,
                        lane_target: target as i64,
                    }),
                    ..a
                }
            } else {
                a
            }
        }
    }
}

/// The whole arbiter stage as a function on the agent collection.
pub open spec fn spec_arbiter(s: Seq<DriverAgent>) -> Seq<DriverAgent> {
    Seq::new(s.len(), |i: int| spec_arbiter_agent(s, i))
}

/// The direction the agent wants to change lanes; does not check
/// feasibility.
pub fn get_lane_change_direction(agent: &DriverAgent) -> (r: LaneChangeDirection)
    requires
        0 <= agent.velocity.y,
    ensures
        r == spec_lane_change_desire(*agent),
{
    let min_speed_threshold =
        SPEED_LIMIT * driver_patience_min_speed_pct(&agent.patience) / PCT_SCALE;

    if agent.collision_information.front_distance > -1
        && agent.velocity.y < min_speed_threshold {
        proof {
            // velocity below the truncated threshold is below the exact one
            assert((agent.velocity.y as int) * PCT_SCALE
                < SPEED_LIMIT * spec_min_speed_pct(agent.patience)) by (nonlinear_arith)
                requires
                    agent.velocity.y < SPEED_LIMIT * spec_min_speed_pct(agent.patience)
                        / (PCT_SCALE as int),
                    0 <= agent.velocity.y,
                    0 <= SPEED_LIMIT * spec_min_speed_pct(agent.patience),
                    PCT_SCALE == 1000;
        }
        LaneChangeDirection::Left
    } else {
        proof {
            if agent.collision_information.front_distance > -1 {
                assert(agent.velocity.y >= SPEED_LIMIT * spec_min_speed_pct(agent.patience)
                    / (PCT_SCALE as int));
                assert((agent.velocity.y as int) * PCT_SCALE
                    >= SPEED_LIMIT * spec_min_speed_pct(agent.patience)) by (nonlinear_arith)
                    requires
                        agent.velocity.y >= SPEED_LIMIT * spec_min_speed_pct(agent.patience)
                            / (PCT_SCALE as int),
                        SPEED_LIMIT * spec_min_speed_pct(agent.patience) % (PCT_SCALE as int)
                            == 0,
                        PCT_SCALE == 1000;
            }
        }
        match agent.lawfulness {
            DriverLawfulness::Chaotic => LaneChangeDirection::Stay,
            DriverLawfulness::Orderly => {
                if agent.lane_index < NUM_LANES - 1 {
                    LaneChangeDirection::Right
                } else {
                    LaneChangeDirection::Stay
                }
            },
        }
    }
}

/// Is the target lane clear near this position? The check box extends two
/// lane widths to either side of the agent and is tested against every
/// agent recorded in the target lane.
pub fn is_lane_open(
    target_lane: i64,
    car_pos: &Vec2,
    occupants: &Vec<LaneOccupant>,
) -> (r: bool)
    requires
        -1_000_000_000 <= car_pos.x <= 1_000_000_000,
        -1_000_000_000 <= car_pos.y <= 1_000_000_000,
        forall|j: int| 0 <= j < occupants@.len() ==> {
            let o = #[trigger] occupants@[j];
            &&& -1_000_000_000 <= o.position.x <= 1_000_000_000
            &&& -1_000_000_000 <= o.position.y <= 1_000_000_000
        },
    ensures
        r == spec_lane_open(occupants@, target_lane as int, *car_pos),
{
    let n = occupants.len();
    let mut j: usize = 0;
    while j < n
        invariant
            0 <= j <= n,
            n == occupants@.len(),
            -1_000_000_000 <= car_pos.x <= 1_000_000_000,
            -1_000_000_000 <= car_pos.y <= 1_000_000_000,
            forall|k: int| 0 <= k < occupants@.len() ==> {
                let o = #[trigger] occupants@[k];
                &&& -1_000_000_000 <= o.position.x <= 1_000_000_000
                &&& -1_000_000_000 <= o.position.y <= 1_000_000_000
            },
            forall|k: int| 0 <= k < j as int && (#[trigger] occupants@[k]).lane_index == target_lane
                ==> !spec_boxes_overlap(
                    car_pos.x as int, car_pos.y as int,
                    LANE_WIDTH_DOUBLE as int, CAR_LENGTH_HALF as int,
                    occupants@[k].position.x as int, occupants@[k].position.y as int,
                    CAR_WIDTH_HALF as int, CAR_LENGTH_HALF as int,
                ),
        decreases n - j,
    {
        let o = occupants[j];
        if o.lane_index == target_lane {
            let overlap = car_pos.x - LANE_WIDTH_DOUBLE <= o.position.x + CAR_WIDTH_HALF
                && o.position.x - CAR_WIDTH_HALF <= car_pos.x + LANE_WIDTH_DOUBLE
                && car_pos.y - CAR_LENGTH_HALF <= o.position.y + CAR_LENGTH_HALF
                && o.position.y - CAR_LENGTH_HALF <= car_pos.y + CAR_LENGTH_HALF;
            if overlap {
                return false;
            }
        }
        j = j + 1;
    }
    true
}

/// The arbiter's whole decision for one agent: the commit to store, if
/// any. A change is committed only toward an existing lane that the
/// feasibility check found clear.
pub fn attempt_lane_change(
    direction: LaneChangeDirection,
    car_pos: &Vec2,
    current_lane: i64,
    occupants: &Vec<LaneOccupant>,
) -> (r: Option<ActiveLaneChange>)
    requires
        direction != LaneChangeDirection::Stay,
        0 <= current_lane < NUM_LANES,
        -1_000_000_000 <= car_pos.x <= 1_000_000_000,
        -1_000_000_000 <= car_pos.y <= 1_000_000_000,
        forall|j: int| 0 <= j < occupants@.len() ==> {
            let o = #[trigger] occupants@[j];
            &&& -1_000_000_000 <= o.position.x <= 1_000_000_000
            &&& -1_000_000_000 <= o.position.y <= 1_000_000_000
        },
    ensures
        ({
            let target: int = if direction == LaneChangeDirection::Left {
                current_lane - 1
            } else {
                current_lane + 1
            };
            if 0 <= target < NUM_LANES && spec_lane_open(occupants@, target, *car_pos) {
                r == Some(ActiveLaneChange {
                    lane_change_direction: direction,
                    lane_target: target as i64,
                })
            } else {
                r is None
            }
        }),
{
    let next_lane = match direction {
        LaneChangeDirection::Left => current_lane - 1,
        LaneChangeDirection::Right => current_lane + 1,
        LaneChangeDirection::Stay => current_lane,
    };

    if 0 <= next_lane && next_lane < NUM_LANES
        && is_lane_open(next_lane, car_pos, occupants) {
        Some(ActiveLaneChange { lane_change_direction: direction, lane_target: next_lane })
    } else {
        None
    }
}

/// Run the lane-change arbiter over every agent.
///
/// An agent with an active lane change is left exactly as it is, and a
/// change is committed only into a lane the feasibility check found clear
/// of overlaps.
pub fn agent_check_lane_change_system(agents: &mut Vec<DriverAgent>)
    requires
        wf_agents_loose(old(agents)@),
    ensures
        final(agents)@ =~= spec_arbiter(old(agents)@),
        wf_agents(old(agents)@) ==> wf_agents(final(agents)@),
        // never a second active change while one is active
        forall|i: int| 0 <= i < old(agents)@.len()
            && old(agents)@[i].active_lane_change is Some
            ==> #[trigger] final(agents)@[i] == old(agents)@[i],
        // never a commit into a lane found occupied, nor out of range
        forall|i: int| 0 <= i < old(agents)@.len()
            && old(agents)@[i].active_lane_change is None
            && (#[trigger] final(agents)@[i]).active_lane_change is Some
            ==> {
                let c = final(agents)@[i].active_lane_change.unwrap();
                &&& 0 <= c.lane_target < NUM_LANES
                &&& spec_lane_open(
                    spec_occupants(old(agents)@), c.lane_target as int,
                    old(agents)@[i].position,
                )
                &&& c.lane_change_direction == spec_lane_change_desire(old(agents)@[i])
            },
{
    let ghost s = agents@;
    let n = agents.len();

    // Build the lane lookup fresh, before evaluating any agent.
    let mut occupants: Vec<LaneOccupant> = Vec::new();
    let mut i: usize = 0;
    while i < n
        invariant
            0 <= i <= n,
            n == s.len(),
            agents@ == s,
            wf_agents_loose(s),
            occupants@.len() == i as int,
            forall|k: int| 0 <= k < i as int
                ==> #[trigger] occupants@[k] == spec_occupant_of(s[k]),
        decreases n - i,
    {
        let a = agents[i];
        occupants.push(LaneOccupant { lane_index: a.lane_index, position: a.position });
        i = i + 1;
    }
    proof {
        assert(occupants@ =~= spec_occupants(s));
    }

    // First pass: every agent's arbitration outcome, from the unchanged
    // per-tick snapshot.
    let mut commits: Vec<Option<ActiveLaneChange>> = Vec::new();
    let mut i: usize = 0;
    while i < n
        invariant
            0 <= i <= n,
            n == s.len(),
            agents@ == s,
            wf_agents_loose(s),
            occupants@ == spec_occupants(s),
            commits@.len() == i as int,
            forall|k: int| 0 <= k < i as int
                ==> #[trigger] commits@[k] == spec_arbiter_agent(s, k).active_lane_change,
        decreases n - i,
    {
        let a = agents[i];
        proof {
            assert(wf_agent_loose(s[i as int]));
        }
        let commit: Option<ActiveLaneChange> = match a.active_lane_change {
            Some(c) => Some(c),
            None => {
                let dir = get_lane_change_direction(&a);
                match dir {
                    LaneChangeDirection::Stay => None,
                    _ => attempt_lane_change(dir, &a.position, a.lane_index, &occupants),
                }
            },
        };
        commits.push(commit);
        i = i + 1;
    }

    // Second pass: store the outcomes.
    let mut i: usize = 0;
    while i < n
        invariant
            0 <= i <= n,
            n == s.len(),
            agents@.len() == s.len(),
            wf_agents_loose(s),
            commits@.len() == n as int,
            forall|k: int| 0 <= k < n as int
                ==> #[trigger] commits@[k] == spec_arbiter_agent(s, k).active_lane_change,
            forall|k: int| 0 <= k < i as int
                ==> #[trigger] agents@[k] == spec_arbiter_agent(s, k),
            forall|k: int| i as int <= k < n as int ==> #[trigger] agents@[k] == s[k],
        decreases n - i,
    {
        let mut a = agents[i];
        a.active_lane_change = commits[i];
        agents[i] = a;
        i = i + 1;
    }

    proof {
        assert(agents@ =~= spec_arbiter(s));
        if wf_agents(s) {
            assert forall|k: int| 0 <= k < s.len() implies wf_agent(#[trigger] agents@[k]) by {
                assert(agents@[k] == spec_arbiter_agent(s, k));
                assert(wf_agent(s[k]));
            }
        }
    }
}

} // verus!
