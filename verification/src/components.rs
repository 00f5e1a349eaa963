//! The agent data model: one simulated vehicle with its position, velocity,
//! perception state, personality, and (possibly) an in-progress lane change.

use vstd::prelude::*;
use crate::constants::{
    BOTTOM_WALL, CAR_LENGTH, CAR_LENGTH_HALF, CAR_SIGHT_DISTANCE, CAR_WIDTH,
    INITIAL_CRUISE_SPEED, LATERAL_SPEED, LEFT_WALL, NUM_LANES, RIGHT_WALL, TOP_WALL,
    VELOCITY_CAP, WALL_THICKNESS,
};
use crate::util::{
    DriverLawfulness, DriverPatience, DriverTemperament, LaneChangeDirection, Vec2,
    lane_idx_to_center, spec_lane_center_x,
};

verus! {

/// What an agent perceived ahead of it. `front_distance` is `-1` while no
/// obstacle is within sight range, else the (non-negative) distance to the
/// nearest obstacle ahead. `last_front_distance` holds the value the
/// previous perception hit produced, as a proxy for closing speed; it is
/// rotated only when a new hit is recorded.
#[derive(Clone, Copy, Debug, PartialEq, Eq, Structural)]
pub struct CollisionInformation {
    pub front_distance: i64,
    pub last_front_distance: i64,
}

/// An agent's current speed vector: `x` is lateral (lane centering), `y` is
/// forward travel.
#[derive(Clone, Copy, Debug, PartialEq, Eq, Structural)]
pub struct Velocity {
    pub x: i64,
    pub y: i64,
}

/// Present on an agent only while a lateral maneuver is in progress; its
/// presence is the sole flag that the lateral controller acts on.
#[derive(Clone, Copy, Debug, PartialEq, Eq, Structural)]
pub struct ActiveLaneChange {
    pub lane_change_direction: LaneChangeDirection,
    pub lane_target: i64,
}

/// One simulated vehicle.
#[derive(Clone, Copy, Debug, PartialEq, Eq, Structural)]
pub struct DriverAgent {
    /// World coordinates of the agent's center.
    pub position: Vec2,
    /// Current speed vector.
    pub velocity: Velocity,
    /// Bounding-box extent (width, length); every car has the same one.
    pub size: Vec2,
    /// The lane the agent currently occupies; updated only when a lane
    /// change completes.
    pub lane_index: i64,
    pub lawfulness: DriverLawfulness,
    pub temperament: DriverTemperament,
    pub patience: DriverPatience,
    pub collision_information: CollisionInformation,
    /// At most one lateral maneuver is in progress at a time.
    pub active_lane_change: Option<ActiveLaneChange>,
}

/// A perceived distance is either the no-obstacle sentinel `-1` or a real
/// distance within sight range.
pub open spec fn wf_front_distance(d: int) -> bool {
    d == -1 || 0 <= d <= CAR_SIGHT_DISTANCE
}

/// Well-formedness of one agent: the data-model invariants that every
/// pipeline stage preserves.
pub open spec fn wf_agent(a: DriverAgent) -> bool {
    &&& wf_front_distance(a.collision_information.front_distance as int)
    &&& wf_front_distance(a.collision_information.last_front_distance as int)
    &&& 0 <= a.velocity.y <= VELOCITY_CAP
    &&& -LATERAL_SPEED <= a.velocity.x <= LATERAL_SPEED
    &&& (a.active_lane_change is None ==> a.velocity.x == 0)
    &&& 0 <= a.lane_index < NUM_LANES
    &&& (match a.active_lane_change {
        Some(c) => 0 <= c.lane_target < NUM_LANES,
        None => true,
    })
    &&& LEFT_WALL <= a.position.x <= RIGHT_WALL
    &&& BOTTOM_WALL <= a.position.y <= TOP_WALL - CAR_LENGTH_HALF
    &&& a.size.x == CAR_WIDTH
    &&& a.size.y == CAR_LENGTH
}

/// Well-formedness of the whole agent collection.
pub open spec fn wf_agents(s: Seq<DriverAgent>) -> bool {
    forall|i: int| 0 <= i < s.len() ==> wf_agent(#[trigger] s[i])
}

/// The few facts the lane-change stages need of an agent; unlike
/// `wf_agent` this tolerates the one-tick velocity overshoot that friction
/// has not yet shed.
pub open spec fn wf_agent_loose(a: DriverAgent) -> bool {
    &&& 0 <= a.lane_index < NUM_LANES
    &&& 0 <= a.velocity.y
    &&& -1_000_000_000 <= a.position.x <= 1_000_000_000
    &&& -1_000_000_000 <= a.position.y <= 1_000_000_000
    &&& (match a.active_lane_change {
        Some(c) => 0 <= c.lane_target < NUM_LANES,
        None => true,
    })
}

/// The loose facts for the whole collection.
pub open spec fn wf_agents_loose(s: Seq<DriverAgent>) -> bool {
    forall|i: int| 0 <= i < s.len() ==> wf_agent_loose(#[trigger] s[i])
}

impl DriverAgent {
    /// A new agent at the given position with the default personality,
    /// zeroed lateral speed, the initial cruising speed, and no obstacle in
    /// sight.
    pub fn new(position: Vec2, lane_index: i64) -> (r: DriverAgent)
        requires
            0 <= lane_index < NUM_LANES,
            LEFT_WALL <= position.x <= RIGHT_WALL,
            BOTTOM_WALL <= position.y <= TOP_WALL - CAR_LENGTH_HALF,
        ensures
            r == (DriverAgent {
                position,
                velocity: Velocity { x: 0, y: INITIAL_CRUISE_SPEED },
                size: Vec2 { x: CAR_WIDTH, y: CAR_LENGTH },
                lane_index,
                lawfulness: DriverLawfulness::Orderly,
                temperament: DriverTemperament::Calm,
                patience: DriverPatience::Normal,
                collision_information: CollisionInformation {
                    front_distance: -1i64,
                    last_front_distance: -1i64,
                },
                active_lane_change: None::<ActiveLaneChange>,
            }),
            wf_agent(r),
    {
        DriverAgent {
            position,
            velocity: Velocity { x: 0, y: INITIAL_CRUISE_SPEED },
            size: Vec2 { x: CAR_WIDTH, y: CAR_LENGTH },
            lane_index,
            lawfulness: DriverLawfulness::Orderly,
            temperament: DriverTemperament::Calm,
            patience: DriverPatience::Normal,
            collision_information: CollisionInformation {
                front_distance: -1,
                last_front_distance: -1,
            },
            active_lane_change: None,
        }
    }

    /// A new agent with the given personality instead of the default one.
    pub fn new_with_behavior(
        position: Vec2,
        lane_index: i64,
        lawfulness: DriverLawfulness,
        temperament: DriverTemperament,
        patience: DriverPatience,
    ) -> (r: DriverAgent)
        requires
            0 <= lane_index < NUM_LANES,
            LEFT_WALL <= position.x <= RIGHT_WALL,
            BOTTOM_WALL <= position.y <= TOP_WALL - CAR_LENGTH_HALF,
        ensures
            r == (DriverAgent {
                lawfulness,
                temperament,
                patience,
                ..DriverAgent::spec_default_at(position, lane_index)
            }),
            wf_agent(r),
    {
        DriverAgent {
            lawfulness,
            temperament,
            patience,
            ..DriverAgent::new(position, lane_index)
        }
    }

    /// The agent `new` builds, as a spec value.
    pub open spec fn spec_default_at(position: Vec2, lane_index: i64) -> DriverAgent {
        DriverAgent {
            position,
            velocity: Velocity { x: 0, y: INITIAL_CRUISE_SPEED },
            size: Vec2 { x: CAR_WIDTH, y: CAR_LENGTH },
            lane_index,
            lawfulness: DriverLawfulness::Orderly,
            temperament: DriverTemperament::Calm,
            patience: DriverPatience::Normal,
            collision_information: CollisionInformation {
                front_distance: -1i64,
                last_front_distance: -1i64,
            },
            active_lane_change: None,
        }
    }

    /// Replace the lawfulness trait, keeping everything else.
    pub fn with_lawfulness(self, lawfulness: DriverLawfulness) -> (r: DriverAgent)
        ensures
            r == (DriverAgent { lawfulness, ..self }),
    {
        DriverAgent { lawfulness, ..self }
    }

    /// Replace the temperament trait, keeping everything else.
    pub fn with_temperament(self, temperament: DriverTemperament) -> (r: DriverAgent)
        ensures
            r == (DriverAgent { temperament, ..self }),
    {
        DriverAgent { temperament, ..self }
    }

    /// Replace the patience trait, keeping everything else.
    pub fn with_patience(self, patience: DriverPatience) -> (r: DriverAgent)
        ensures
            r == (DriverAgent { patience, ..self }),
    {
        DriverAgent { patience, ..self }
    }

    /// Replace the whole driver profile at once, as the external
    /// modify-agent request does; no partial merge.
    pub fn with_profile(
        self,
        lawfulness: DriverLawfulness,
        temperament: DriverTemperament,
        patience: DriverPatience,
    ) -> (r: DriverAgent)
        ensures
            r == (DriverAgent { lawfulness, temperament, patience, ..self }),
            wf_agent(self) ==> wf_agent(r),
    {
        DriverAgent { lawfulness, temperament, patience, ..self }
    }
}

/// Spawn a new agent into the collection, centered in the given lane at the
/// near end of the arena, with the given personality.
pub fn spawn_car_at_lane(
    agents: &mut Vec<DriverAgent>,
    lane_idx: i64,
    lawfulness: DriverLawfulness,
    temperament: DriverTemperament,
    patience: DriverPatience,
) -> (idx: usize)
    requires
        0 <= lane_idx < NUM_LANES,
        old(agents)@.len() < usize::MAX,
    ensures
        final(agents)@.len() == old(agents)@.len() + 1,
        final(agents)@ =~= old(agents)@.push(final(agents)@[old(agents)@.len() as int]),
        idx == old(agents)@.len(),
        ({
            let a = final(agents)@[idx as int];
            &&& a.position.x == spec_lane_center_x(lane_idx as int)
            &&& a.position.y == BOTTOM_WALL + WALL_THICKNESS
            &&& a.lane_index == lane_idx
            &&& a.lawfulness == lawfulness
            &&& a.temperament == temperament
            &&& a.patience == patience
            &&& a.velocity == (Velocity { x: 0, y: INITIAL_CRUISE_SPEED })
            &&& a.collision_information.front_distance == -1
            &&& a.collision_information.last_front_distance == -1
            &&& a.active_lane_change is None
            &&& wf_agent(a)
        }),
        wf_agents(old(agents)@) ==> wf_agents(final(agents)@),
{
    let center = lane_idx_to_center(lane_idx);
    let car_pos = Vec2 { x: center.x, y: BOTTOM_WALL + WALL_THICKNESS };
    let agent = DriverAgent::new_with_behavior(
        car_pos, lane_idx, lawfulness, temperament, patience,
    );
    let idx = agents.len();
    agents.push(agent);
    idx
}

} // verus!
