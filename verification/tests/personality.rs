use traffic_sim::components::{DriverAgent, spawn_car_at_lane};
use traffic_sim::util::{
    DriverLawfulness, DriverPatience, DriverTemperament, Vec2,
    driver_patience_min_speed_pct, driver_temperament_brake_threshold,
    driver_temperament_tail_threshold, driver_temperament_top_speed_pct,
};

#[test]
fn top_speed_coefficients() {
    assert_eq!(driver_temperament_top_speed_pct(&DriverTemperament::Psychotic), 1500);
    assert_eq!(driver_temperament_top_speed_pct(&DriverTemperament::Aggressive), 1300);
    assert_eq!(driver_temperament_top_speed_pct(&DriverTemperament::Calm), 1000);
    assert_eq!(driver_temperament_top_speed_pct(&DriverTemperament::Passive), 800);
}

#[test]
fn brake_threshold_coefficients() {
    assert_eq!(driver_temperament_brake_threshold(&DriverTemperament::Psychotic), 500);
    assert_eq!(driver_temperament_brake_threshold(&DriverTemperament::Aggressive), 700);
    assert_eq!(driver_temperament_brake_threshold(&DriverTemperament::Calm), 1000);
    assert_eq!(driver_temperament_brake_threshold(&DriverTemperament::Passive), 1000);
}

#[test]
fn tail_threshold_coefficients() {
    assert_eq!(driver_temperament_tail_threshold(&DriverTemperament::Psychotic), 1500);
    assert_eq!(driver_temperament_tail_threshold(&DriverTemperament::Aggressive), 3000);
    assert_eq!(driver_temperament_tail_threshold(&DriverTemperament::Calm), 4500);
    assert_eq!(driver_temperament_tail_threshold(&DriverTemperament::Passive), 6000);
}

#[test]
fn min_speed_coefficients() {
    assert_eq!(driver_patience_min_speed_pct(&DriverPatience::Enlightened), 200);
    assert_eq!(driver_patience_min_speed_pct(&DriverPatience::Patient), 700);
    assert_eq!(driver_patience_min_speed_pct(&DriverPatience::Normal), 900);
    assert_eq!(driver_patience_min_speed_pct(&DriverPatience::Wild), 1000);
}

#[test]
fn new_agent_has_default_profile_and_sentinel_perception() {
    let a = DriverAgent::new(Vec2 { x: -430_000, y: 0 }, 0);
    assert_eq!(a.lawfulness, DriverLawfulness::Orderly);
    assert_eq!(a.temperament, DriverTemperament::Calm);
    assert_eq!(a.patience, DriverPatience::Normal);
    assert_eq!(a.collision_information.front_distance, -1);
    assert_eq!(a.collision_information.last_front_distance, -1);
    assert_eq!(a.velocity.x, 0);
    assert_eq!(a.velocity.y, 100_000);
    assert!(a.active_lane_change.is_none());
    assert_eq!(a.size.x, 20_000);
    assert_eq!(a.size.y, 40_000);
}

#[test]
fn builders_replace_one_trait_each() {
    let a = DriverAgent::new(Vec2 { x: -430_000, y: 0 }, 0)
        .with_lawfulness(DriverLawfulness::Chaotic)
        .with_temperament(DriverTemperament::Psychotic)
        .with_patience(DriverPatience::Wild);
    assert_eq!(a.lawfulness, DriverLawfulness::Chaotic);
    assert_eq!(a.temperament, DriverTemperament::Psychotic);
    assert_eq!(a.patience, DriverPatience::Wild);
    assert_eq!(a.velocity.y, 100_000);
}

#[test]
fn profile_is_replaced_wholesale() {
    let a = DriverAgent::new(Vec2 { x: -430_000, y: 0 }, 0).with_profile(
        DriverLawfulness::Chaotic,
        DriverTemperament::Aggressive,
        DriverPatience::Patient,
    );
    assert_eq!(a.lawfulness, DriverLawfulness::Chaotic);
    assert_eq!(a.temperament, DriverTemperament::Aggressive);
    assert_eq!(a.patience, DriverPatience::Patient);
}

#[test]
fn spawn_places_agent_at_lane_center() {
    let mut agents: Vec<DriverAgent> = Vec::new();
    let idx = spawn_car_at_lane(
        &mut agents,
        1,
        DriverLawfulness::Orderly,
        DriverTemperament::Passive,
        DriverPatience::Normal,
    );
    assert_eq!(idx, 0);
    assert_eq!(agents.len(), 1);
    let a = &agents[0];
    assert_eq!(a.position.x, -390_000);
    assert_eq!(a.position.y, -590_000);
    assert_eq!(a.lane_index, 1);
    assert_eq!(a.temperament, DriverTemperament::Passive);
    assert_eq!(a.velocity.y, 100_000);
    assert_eq!(a.collision_information.front_distance, -1);
}
