use traffic_sim::components::DriverAgent;
use traffic_sim::perception::{check_raycast_intersection, get_car_front_middle};
use traffic_sim::util::{
    Vec2, lane_idx_from_screen_pos, lane_idx_to_center, lane_idx_to_screen_pos,
};

fn agent_at(x: i64, y: i64, lane: i64) -> DriverAgent {
    let mut a = DriverAgent::new(Vec2 { x: -430_000, y: 0 }, 0);
    a.position = Vec2 { x, y };
    a.lane_index = lane;
    a
}

#[test]
fn lane_start_positions() {
    assert_eq!(lane_idx_to_screen_pos(0).x, -450_000);
    assert_eq!(lane_idx_to_screen_pos(1).x, -410_000);
    assert_eq!(lane_idx_to_screen_pos(0).y, -600_000);
}

#[test]
fn lane_centers() {
    assert_eq!(lane_idx_to_center(0).x, -430_000);
    assert_eq!(lane_idx_to_center(1).x, -390_000);
}

#[test]
fn lane_from_position_roundtrip() {
    assert_eq!(lane_idx_from_screen_pos(&Vec2 { x: -430_000, y: 0 }), 0);
    assert_eq!(lane_idx_from_screen_pos(&Vec2 { x: -390_000, y: 12_345 }), 1);
    assert_eq!(lane_idx_from_screen_pos(&Vec2 { x: -450_000, y: 0 }), 0);
}

#[test]
fn front_middle_is_half_a_length_ahead() {
    let a = agent_at(-430_000, 100_000, 0);
    let front = get_car_front_middle(&a);
    assert_eq!(front.x, -430_000);
    assert_eq!(front.y, 120_000);
}

#[test]
fn raycast_hits_box_ahead() {
    let target = agent_at(0, 50_000, 0);
    let r = check_raycast_intersection(Vec2 { x: 0, y: 0 }, 300_000, &target);
    assert_eq!(r, Some(30_000));
}

#[test]
fn raycast_misses_box_to_the_side() {
    let on_edge = agent_at(10_000, 50_000, 0);
    assert_eq!(
        check_raycast_intersection(Vec2 { x: 0, y: 0 }, 300_000, &on_edge),
        Some(30_000)
    );
    let off_edge = agent_at(10_001, 50_000, 0);
    assert_eq!(check_raycast_intersection(Vec2 { x: 0, y: 0 }, 300_000, &off_edge), None);
}

#[test]
fn raycast_misses_box_behind() {
    let behind = agent_at(0, -50_000, 0);
    assert_eq!(check_raycast_intersection(Vec2 { x: 0, y: 0 }, 300_000, &behind), None);
}

#[test]
fn raycast_overlap_reports_contact() {
    // origin already inside the target's box: distance zero, not negative
    let overlapping = agent_at(0, 10_000, 0);
    assert_eq!(
        check_raycast_intersection(Vec2 { x: 0, y: 0 }, 300_000, &overlapping),
        Some(0)
    );
}

#[test]
fn raycast_range_is_inclusive() {
    let at_range = agent_at(0, 320_000, 0);
    assert_eq!(
        check_raycast_intersection(Vec2 { x: 0, y: 0 }, 300_000, &at_range),
        Some(300_000)
    );
    let past_range = agent_at(0, 321_000, 0);
    assert_eq!(check_raycast_intersection(Vec2 { x: 0, y: 0 }, 300_000, &past_range), None);
}

#[test]
fn adjacent_lane_cars_are_not_obstacles() {
    // lane centers are 40 units apart, twice the car width: a ray from
    // one lane's center can never clip a car centered in the next lane
    let target = agent_at(-390_000, 100_000, 1);
    let r = check_raycast_intersection(Vec2 { x: -430_000, y: 0 }, 300_000, &target);
    assert_eq!(r, None);
}
