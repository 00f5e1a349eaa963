use traffic_sim::components::{DriverAgent, spawn_car_at_lane};
use traffic_sim::longitudinal::agent_drive_system;
use traffic_sim::perception::collision_system;
use traffic_sim::tick::tick;
use traffic_sim::util::{DriverLawfulness, DriverPatience, DriverTemperament, Vec2};

#[test]
fn trailing_calm_agent_sees_and_brakes_for_a_stopped_car() {
    // two agents in the same lane: the leading one stationary, its box
    // beginning 10 units beyond the trailing agent's front bumper; the
    // calm tail gap is 4.5 car lengths (180 units), so 10 units is well
    // inside it and the trailing agent must slow down this very tick
    let mut trailing = DriverAgent::new(Vec2 { x: -430_000, y: 0 }, 0);
    trailing.velocity.y = 100_000;
    let mut leading = DriverAgent::new(Vec2 { x: -430_000, y: 50_000 }, 0);
    leading.velocity.y = 0;

    let mut agents = vec![trailing, leading];
    collision_system(&mut agents);
    assert_eq!(agents[0].collision_information.front_distance, 10_000);
    assert_eq!(agents[1].collision_information.front_distance, -1);

    let before = agents[0].velocity.y;
    agent_drive_system(&mut agents, 16);
    assert!(agents[0].velocity.y < before);
    assert_eq!(agents[0].velocity.y, 100_000 - 14_175);
}

#[test]
fn perception_picks_the_nearest_of_two_obstacles() {
    let mut a = DriverAgent::new(Vec2 { x: -430_000, y: 0 }, 0);
    a.velocity.y = 100_000;
    let far = DriverAgent::new(Vec2 { x: -430_000, y: 200_000 }, 0);
    let near = DriverAgent::new(Vec2 { x: -430_000, y: 100_000 }, 0);

    let mut agents = vec![a, far, near];
    collision_system(&mut agents);
    // distance to the near box: 100 units minus its and our half lengths
    assert_eq!(agents[0].collision_information.front_distance, 60_000);
}

#[test]
fn perception_rotates_history_only_on_a_hit() {
    let mut a = DriverAgent::new(Vec2 { x: -430_000, y: 0 }, 0);
    a.collision_information.front_distance = 77_000;
    a.collision_information.last_front_distance = 88_000;
    let mut agents = vec![a];
    // alone on the road: no hit, the sentinel is stored, and the stale
    // history value stays exactly as it was
    collision_system(&mut agents);
    assert_eq!(agents[0].collision_information.front_distance, -1);
    assert_eq!(agents[0].collision_information.last_front_distance, 88_000);

    // with an obstacle the old current value rotates into the history
    let obstacle = DriverAgent::new(Vec2 { x: -430_000, y: 100_000 }, 0);
    agents[0].collision_information.front_distance = 77_000;
    agents.push(obstacle);
    collision_system(&mut agents);
    assert_eq!(agents[0].collision_information.front_distance, 60_000);
    assert_eq!(agents[0].collision_information.last_front_distance, 77_000);
}

#[test]
fn contact_forces_a_hard_stop() {
    // the leading car's rear edge already touches the trailing agent's
    // front bumper: intersection at distance zero, velocity zeroed
    let mut trailing = DriverAgent::new(Vec2 { x: -430_000, y: 0 }, 0);
    trailing.velocity.y = 150_000;
    trailing.velocity.x = 0;
    let leading = DriverAgent::new(Vec2 { x: -430_000, y: 40_000 }, 0);

    let mut agents = vec![trailing, leading];
    collision_system(&mut agents);
    assert_eq!(agents[0].collision_information.front_distance, 0);
    assert_eq!(agents[0].velocity.y, 0);
    assert_eq!(agents[0].velocity.x, 0);
}

#[test]
fn solitary_orderly_agent_returns_home_across_ticks() {
    // an orderly agent alone in the leftmost of the two lanes: across
    // consecutive ticks it commits a change toward the home lane, steers
    // over, and once centered clears the maneuver and updates its lane
    let mut agents: Vec<DriverAgent> = Vec::new();
    spawn_car_at_lane(
        &mut agents,
        0,
        DriverLawfulness::Orderly,
        DriverTemperament::Calm,
        DriverPatience::Normal,
    );

    tick(&mut agents, 1000);
    let c = agents[0].active_lane_change.expect("the first tick commits the return home");
    assert_eq!(c.lane_target, 1);
    assert_eq!(agents[0].lane_index, 0);

    let mut completed_at = None;
    for n in 2..=20 {
        tick(&mut agents, 1000);
        if agents[0].active_lane_change.is_none() {
            completed_at = Some(n);
            break;
        }
    }
    assert!(completed_at.is_some(), "the lane change never completed");
    assert_eq!(agents[0].lane_index, 1);
    assert_eq!(agents[0].velocity.x, 0);
    assert!((agents[0].position.x - -390_000).abs() <= 500);

    // settled home: later ticks commit no further change
    tick(&mut agents, 1000);
    assert!(agents[0].active_lane_change.is_none());
    assert_eq!(agents[0].lane_index, 1);
}

#[test]
fn chaotic_agent_keeps_its_lane_forever() {
    let mut agents: Vec<DriverAgent> = Vec::new();
    spawn_car_at_lane(
        &mut agents,
        0,
        DriverLawfulness::Chaotic,
        DriverTemperament::Calm,
        DriverPatience::Normal,
    );
    for _ in 0..10 {
        tick(&mut agents, 1000);
        assert!(agents[0].active_lane_change.is_none());
        assert_eq!(agents[0].lane_index, 0);
        assert_eq!(agents[0].velocity.x, 0);
    }
}

#[test]
fn tick_preserves_the_data_model_invariants() {
    let mut agents: Vec<DriverAgent> = Vec::new();
    spawn_car_at_lane(
        &mut agents,
        0,
        DriverLawfulness::Orderly,
        DriverTemperament::Psychotic,
        DriverPatience::Wild,
    );
    spawn_car_at_lane(
        &mut agents,
        1,
        DriverLawfulness::Chaotic,
        DriverTemperament::Passive,
        DriverPatience::Patient,
    );
    for _ in 0..200 {
        tick(&mut agents, 16);
        for a in agents.iter() {
            let fd = a.collision_information.front_distance;
            assert!(fd == -1 || (0 <= fd && fd <= 300_000));
            assert!(a.velocity.y >= 0);
            assert!(0 <= a.lane_index && a.lane_index < 2);
            assert!(-450_000 <= a.position.x && a.position.x <= 450_000);
            assert!(-600_000 <= a.position.y && a.position.y <= 580_000);
            if let Some(c) = a.active_lane_change {
                assert!(0 <= c.lane_target && c.lane_target < 2);
            } else {
                assert_eq!(a.velocity.x, 0);
            }
        }
    }
}

#[test]
fn speed_settles_under_the_personality_cap() {
    // a lone calm agent accelerates to its top speed and hovers there,
    // friction shedding what each tick's gas adds
    let mut agents: Vec<DriverAgent> = Vec::new();
    spawn_car_at_lane(
        &mut agents,
        1,
        DriverLawfulness::Orderly,
        DriverTemperament::Calm,
        DriverPatience::Normal,
    );
    for _ in 0..300 {
        tick(&mut agents, 16);
        assert!(agents[0].velocity.y <= 200_000);
    }
    assert!(agents[0].velocity.y > 190_000);
}

#[test]
fn drive_system_updates_every_agent() {
    let mut fast = DriverAgent::new(Vec2 { x: -430_000, y: 0 }, 0);
    fast.velocity.y = 150_000;
    let mut slow = DriverAgent::new(Vec2 { x: -390_000, y: 0 }, 1);
    slow.velocity.y = 50_000;
    let mut agents = vec![fast, slow];
    agent_drive_system(&mut agents, 16);
    assert_eq!(agents[0].velocity.y, 160_000);
    assert_eq!(agents[1].velocity.y, 60_000);
}
