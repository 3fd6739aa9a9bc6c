use kwarpd::config::Config;
use kwarpd::physics::{move_towards, PhysicsState};
use kwarpd::state::AppState;

fn normal_state() -> AppState {
    let mut s = AppState::new();
    s.enter_normal();
    s
}

#[test]
fn move_towards_never_overshoots() {
    assert_eq!(move_towards(0, 10, 3), 3);
    assert_eq!(move_towards(9, 10, 3), 10);
    assert_eq!(move_towards(10, -10, 25), -10);
    assert_eq!(move_towards(5, 5, 100), 5);
}

#[test]
fn first_tick_ramps_from_rest() {
    let config = Config::default();
    let mut state = normal_state();
    state.movement.right = true;
    let mut p = PhysicsState::new(0);
    // 700 px/s^2 for 16 ms: 11.2 px/s, which moves 0.18 px: rounds to 0.
    assert_eq!(p.update(&state, &config, 16_000), (0, 0, 0));
    assert_eq!(p.velocity_x, 11_200_000);
    assert_eq!(p.velocity_y, 0);
}

#[test]
fn sustained_direction_converges_to_target_speed() {
    let config = Config::default();
    let mut state = normal_state();
    state.movement.right = true;
    let mut p = PhysicsState::new(0);
    let mut now = 0;
    for _ in 0..100 {
        now += 16_000;
        p.update(&state, &config, now);
    }
    assert_eq!(p.velocity_x, 220_000_000);
    // 220 px/s for 16 ms is 3.52 px.
    now += 16_000;
    assert_eq!(p.update(&state, &config, now), (4, 0, 0));
    assert_eq!(p.velocity_x, 220_000_000);
}

#[test]
fn accelerator_clamps_at_max_speed() {
    let config = Config::default();
    let mut state = normal_state();
    state.movement.left = true;
    state.movement.accelerating = true;
    let mut p = PhysicsState::new(0);
    let mut now = 0;
    for _ in 0..200 {
        now += 16_000;
        p.update(&state, &config, now);
    }
    assert_eq!(p.velocity_x, -1_600_000_000);
}

#[test]
fn no_direction_stops_at_twice_acceleration() {
    let config = Config::default();
    let state = normal_state();
    let mut p = PhysicsState::new(0);
    p.velocity_x = 100_000_000;
    p.velocity_y = -5_000_000;
    p.update(&state, &config, 10_000);
    assert_eq!(p.velocity_x, 86_000_000);
    assert_eq!(p.velocity_y, 0);
}

#[test]
fn stalls_emit_nothing_and_keep_velocity() {
    let config = Config::default();
    let mut state = normal_state();
    state.movement.down = true;
    let mut p = PhysicsState::new(1_000);
    p.velocity_y = 50_000_000;
    assert_eq!(p.update(&state, &config, 1_000), (0, 0, 0));
    assert_eq!(p.velocity_y, 50_000_000);
    assert_eq!(p.update(&state, &config, 101_001), (0, 0, 0));
    assert_eq!(p.velocity_y, 50_000_000);
    assert_eq!(p.last_update, 101_001);
}

#[test]
fn scroll_ramps_and_decays() {
    let config = Config::default();
    let mut state = normal_state();
    state.scroll.down = true;
    let mut p = PhysicsState::new(0);
    p.update(&state, &config, 50_000);
    // 1600 units/s^2 for 50 ms.
    assert_eq!(p.scroll_velocity, 80_000_000);
    p.scroll_velocity = 9_000_000_000;
    // 9000 units/s for 50 ms is 450 units, 4.5 wheel steps: rounds away from zero.
    assert_eq!(p.update(&state, &config, 100_000), (0, 0, 5));
    state.scroll.down = false;
    p.update(&state, &config, 150_000);
    // decays by 3400 units/s^2 for 50 ms.
    assert_eq!(p.scroll_velocity, 9_000_000_000 - 170_000_000);
}

#[test]
fn reset_stops_everything() {
    let mut p = PhysicsState::new(0);
    p.velocity_x = 7;
    p.scroll_velocity = -7;
    p.reset(42);
    assert_eq!(p, PhysicsState::new(42));
}

#[test]
fn decelerator_takes_its_target_at_once() {
    let config = Config::default();
    let mut state = normal_state();
    state.movement.right = true;
    state.movement.decelerating = true;
    let mut p = PhysicsState::new(0);
    // 50 px/s for 16 ms is 0.8 px: rounds to 1.
    assert_eq!(p.update(&state, &config, 16_000), (1, 0, 0));
    assert_eq!(p.velocity_x, 50_000_000);
    p.velocity_x = 900_000_000;
    p.update(&state, &config, 32_000);
    assert_eq!(p.velocity_x, 50_000_000);
    state.movement.accelerating = true;
    p.update(&state, &config, 48_000);
    // With the accelerator also held the decelerator's speed is ramped to.
    assert_eq!(p.velocity_x, 50_000_000);
}
