use traffic_sim::components::{ActiveLaneChange, DriverAgent};
use traffic_sim::lateral::agent_active_lane_change_system;
use traffic_sim::motion::{apply_friction, apply_velocity, wrap_position};
use traffic_sim::util::{LaneChangeDirection, Vec2};

fn changing_agent(x: i64, target: i64) -> DriverAgent {
    let mut a = DriverAgent::new(Vec2 { x, y: 0 }, 0);
    a.active_lane_change = Some(ActiveLaneChange {
        lane_change_direction: LaneChangeDirection::Right,
        lane_target: target,
    });
    a
}

#[test]
fn lateral_steers_right_toward_center() {
    // target centerline at -390 units, agent 40 units to its left
    let mut agents = vec![changing_agent(-430_000, 1)];
    agent_active_lane_change_system(&mut agents);
    assert_eq!(agents[0].velocity.x, 10_000);
    assert!(agents[0].active_lane_change.is_some());
    assert_eq!(agents[0].lane_index, 0);
}

#[test]
fn lateral_steers_left_after_overshoot() {
    let mut agents = vec![changing_agent(-389_000, 1)];
    agent_active_lane_change_system(&mut agents);
    assert_eq!(agents[0].velocity.x, -10_000);
    assert!(agents[0].active_lane_change.is_some());
}

#[test]
fn lateral_snaps_exactly_within_epsilon() {
    // 500 thousandths from the centerline counts as centered ...
    let mut agents = vec![changing_agent(-390_500, 1)];
    agent_active_lane_change_system(&mut agents);
    assert!(agents[0].active_lane_change.is_none());
    assert_eq!(agents[0].lane_index, 1);
    assert_eq!(agents[0].velocity.x, 0);

    // ... one thousandth farther does not
    let mut agents = vec![changing_agent(-390_501, 1)];
    agent_active_lane_change_system(&mut agents);
    assert!(agents[0].active_lane_change.is_some());
    assert_eq!(agents[0].lane_index, 0);
}

#[test]
fn lateral_ignores_agents_without_a_change() {
    let a = DriverAgent::new(Vec2 { x: -430_000, y: 0 }, 0);
    let mut agents = vec![a];
    agent_active_lane_change_system(&mut agents);
    assert_eq!(agents[0], a);
}

#[test]
fn friction_decays_velocity() {
    let mut a = DriverAgent::new(Vec2 { x: -430_000, y: 0 }, 0);
    a.velocity.y = 100_000;
    a.velocity.x = -10_000;
    let mut agents = vec![a];
    apply_friction(&mut agents);
    assert_eq!(agents[0].velocity.y, 99_600);
    assert_eq!(agents[0].velocity.x, -9_960);
}

#[test]
fn friction_leaves_rest_at_rest() {
    let mut a = DriverAgent::new(Vec2 { x: -430_000, y: 0 }, 0);
    a.velocity.y = 0;
    let mut agents = vec![a];
    apply_friction(&mut agents);
    assert_eq!(agents[0].velocity.y, 0);
}

#[test]
fn velocity_integrates_over_the_tick() {
    let mut a = DriverAgent::new(Vec2 { x: -430_000, y: 0 }, 0);
    a.velocity.y = 100_000;
    a.velocity.x = -10_000;
    let mut agents = vec![a];
    apply_velocity(&mut agents, 500);
    assert_eq!(agents[0].position.y, 50_000);
    assert_eq!(agents[0].position.x, -435_000);
}

#[test]
fn wrap_boundary_is_sharp() {
    // exactly at the far boundary minus half a car length: no wrap
    let mut a = DriverAgent::new(Vec2 { x: -430_000, y: 580_000 }, 0);
    let mut agents = vec![a];
    wrap_position(&mut agents);
    assert_eq!(agents[0].position.y, 580_000);

    // one unit past it: wrap to the near boundary plus half a length
    a.position.y = 581_000;
    let mut agents = vec![a];
    wrap_position(&mut agents);
    assert_eq!(agents[0].position.y, -580_000);
}

#[test]
fn wrap_is_idempotent() {
    let mut a = DriverAgent::new(Vec2 { x: -430_000, y: 0 }, 0);
    a.position.y = 700_000;
    let mut agents = vec![a];
    wrap_position(&mut agents);
    let once = agents[0];
    wrap_position(&mut agents);
    assert_eq!(agents[0], once);
}
