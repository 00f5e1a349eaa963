use traffic_sim::components::{ActiveLaneChange, DriverAgent};
use traffic_sim::lane_change::{
    LaneOccupant, agent_check_lane_change_system, get_lane_change_direction, is_lane_open,
};
use traffic_sim::util::{DriverLawfulness, DriverPatience, LaneChangeDirection, Vec2};

fn agent_in_lane(lane: i64, y: i64) -> DriverAgent {
    let x = if lane == 0 { -430_000 } else { -390_000 };
    let mut a = DriverAgent::new(Vec2 { x, y }, lane);
    a.position = Vec2 { x, y };
    a.lane_index = lane;
    a
}

#[test]
fn frustrated_agent_wants_left() {
    // obstacle ahead and speed below 90 percent of the limit
    let mut a = agent_in_lane(1, 0);
    a.collision_information.front_distance = 50_000;
    a.velocity.y = 100_000;
    assert_eq!(get_lane_change_direction(&a), LaneChangeDirection::Left);
}

#[test]
fn fast_agent_does_not_pass() {
    // obstacle ahead but already at 95 percent of the limit: an orderly
    // driver in the home lane stays put
    let mut a = agent_in_lane(1, 0);
    a.collision_information.front_distance = 50_000;
    a.velocity.y = 190_000;
    assert_eq!(get_lane_change_direction(&a), LaneChangeDirection::Stay);
}

#[test]
fn orderly_agent_returns_right() {
    let a = agent_in_lane(0, 0);
    assert_eq!(get_lane_change_direction(&a), LaneChangeDirection::Right);
}

#[test]
fn orderly_agent_at_home_stays() {
    let a = agent_in_lane(1, 0);
    assert_eq!(get_lane_change_direction(&a), LaneChangeDirection::Stay);
}

#[test]
fn chaotic_agent_never_returns() {
    let a = agent_in_lane(0, 0).with_lawfulness(DriverLawfulness::Chaotic);
    assert_eq!(get_lane_change_direction(&a), LaneChangeDirection::Stay);
}

#[test]
fn patience_scales_the_passing_threshold() {
    // enlightened patience passes only below 20 percent of the limit
    let mut a = agent_in_lane(1, 0).with_patience(DriverPatience::Enlightened);
    a.collision_information.front_distance = 50_000;
    a.velocity.y = 100_000;
    assert_eq!(get_lane_change_direction(&a), LaneChangeDirection::Stay);
    a.velocity.y = 30_000;
    assert_eq!(get_lane_change_direction(&a), LaneChangeDirection::Left);
}

#[test]
fn lane_open_without_occupants() {
    let occupants: Vec<LaneOccupant> = Vec::new();
    assert!(is_lane_open(1, &Vec2 { x: -430_000, y: 0 }, &occupants));
}

#[test]
fn lane_blocked_by_adjacent_occupant() {
    let occupants = vec![LaneOccupant {
        lane_index: 1,
        position: Vec2 { x: -390_000, y: 0 },
    }];
    assert!(!is_lane_open(1, &Vec2 { x: -430_000, y: 0 }, &occupants));
}

#[test]
fn lane_open_when_occupant_is_far_ahead() {
    let occupants = vec![LaneOccupant {
        lane_index: 1,
        position: Vec2 { x: -390_000, y: 100_000 },
    }];
    assert!(is_lane_open(1, &Vec2 { x: -430_000, y: 0 }, &occupants));
}

#[test]
fn occupants_of_other_lanes_are_ignored() {
    let occupants = vec![LaneOccupant {
        lane_index: 0,
        position: Vec2 { x: -430_000, y: 0 },
    }];
    assert!(is_lane_open(1, &Vec2 { x: -430_000, y: 0 }, &occupants));
}

#[test]
fn feasibility_overlap_is_inclusive() {
    // the check box reaches two lane widths (80 units) plus the occupant's
    // half width (10 units) to the side, and one car length vertically
    let at_edge = vec![LaneOccupant {
        lane_index: 1,
        position: Vec2 { x: -430_000 + 90_000, y: 40_000 },
    }];
    assert!(!is_lane_open(1, &Vec2 { x: -430_000, y: 0 }, &at_edge));
    let past_edge = vec![LaneOccupant {
        lane_index: 1,
        position: Vec2 { x: -430_000 + 90_000, y: 40_001 },
    }];
    assert!(is_lane_open(1, &Vec2 { x: -430_000, y: 0 }, &past_edge));
}

#[test]
fn arbiter_commits_into_clear_lane() {
    let mut agents = vec![agent_in_lane(0, 0)];
    agent_check_lane_change_system(&mut agents);
    let c = agents[0].active_lane_change.expect("an orderly agent commits a return home");
    assert_eq!(c.lane_target, 1);
    assert_eq!(c.lane_change_direction, LaneChangeDirection::Right);
}

#[test]
fn arbiter_skips_agent_with_active_change() {
    let mut a = agent_in_lane(0, 0);
    a.active_lane_change = Some(ActiveLaneChange {
        lane_change_direction: LaneChangeDirection::Left,
        lane_target: 0,
    });
    let before = a;
    let mut agents = vec![a];
    agent_check_lane_change_system(&mut agents);
    assert_eq!(agents[0], before);
}

#[test]
fn arbiter_refuses_occupied_lane() {
    // the home lane is blocked right beside the agent
    let mut agents = vec![agent_in_lane(0, 0), agent_in_lane(1, 10_000)];
    agent_check_lane_change_system(&mut agents);
    assert!(agents[0].active_lane_change.is_none());
}

#[test]
fn arbiter_commits_once_a_gap_appears() {
    let mut agents = vec![agent_in_lane(0, 0), agent_in_lane(1, 200_000)];
    agent_check_lane_change_system(&mut agents);
    let c = agents[0].active_lane_change.expect("the far occupant leaves a gap");
    assert_eq!(c.lane_target, 1);
}

#[test]
fn arbiter_never_leaves_the_leftmost_lane() {
    // a frustrated agent in lane 0 wants left, but no lane exists there
    let mut a = agent_in_lane(0, 0);
    a.collision_information.front_distance = 50_000;
    a.velocity.y = 10_000;
    let mut agents = vec![a];
    agent_check_lane_change_system(&mut agents);
    assert!(agents[0].active_lane_change.is_none());
}
