use kwarpd::config::Config;
use kwarpd::state::{Action, AppState, Mode, MovementState, ScrollState};

#[test]
fn test_movement_direction() {
    let mut m = MovementState::default();
    assert_eq!(m.direction(), (0, 0));

    m.left = true;
    assert_eq!(m.direction(), (-1, 0));

    m.up = true;
    assert_eq!(m.direction(), (-1, -1));

    m.right = true;
    // left and right cancel out
    assert_eq!(m.direction(), (0, -1));
}

#[test]
fn test_state_transitions() {
    let mut state = AppState::new();
    assert_eq!(state.mode, Mode::Inactive);

    state.enter_normal();
    assert_eq!(state.mode, Mode::Normal);

    state.enter_hint();
    assert_eq!(state.mode, Mode::Hint);

    state.exit();
    assert_eq!(state.mode, Mode::Inactive);
}

#[test]
fn scroll_direction_prefers_down() {
    let mut s = ScrollState::default();
    assert_eq!(s.direction(), 0);
    s.up = true;
    assert_eq!(s.direction(), -1);
    s.down = true;
    assert_eq!(s.direction(), 1);
    assert!(s.is_scrolling());
}

#[test]
fn normal_mode_dispatch() {
    let config = Config::default();
    let mut state = AppState::new();
    assert_eq!(state.process_key("h", true, &config), Action::Nothing);
    state.enter_normal();
    assert_eq!(state.process_key("h", true, &config), Action::Move { dx: -1, dy: 0 });
    assert_eq!(state.process_key("h", true, &config), Action::Nothing);
    assert_eq!(state.process_key("k", true, &config), Action::Move { dx: -1, dy: -1 });
    assert!(state.movement.is_moving());
    assert_eq!(state.process_key("h", false, &config), Action::Nothing);
    assert!(!state.movement.left);
    assert_eq!(state.process_key("a", true, &config), Action::Accelerate);
    assert_eq!(state.process_key("a", true, &config), Action::Nothing);
    assert_eq!(state.process_key("a", false, &config), Action::ReleaseSpeedMod);
    assert_eq!(state.process_key("d", true, &config), Action::Decelerate);
    assert_eq!(state.process_key("e", true, &config), Action::Scroll(1));
    assert_eq!(state.process_key("r", true, &config), Action::Scroll(-1));
    assert_eq!(state.process_key("m", true, &config), Action::Click(0));
    assert_eq!(state.process_key(",", true, &config), Action::Click(1));
    assert_eq!(state.process_key(".", true, &config), Action::Click(2));
    assert_eq!(state.process_key("v", true, &config), Action::ToggleDrag);
    assert!(state.drag_active);
    assert_eq!(state.process_key("c", true, &config), Action::CopyAndExit);
    assert_eq!(state.process_key("x", true, &config), Action::EnterHint);
    assert_eq!(state.process_key("esc", true, &config), Action::Exit);
    assert_eq!(state.process_key("q", true, &config), Action::Nothing);
}

#[test]
fn hint_mode_buffer() {
    let config = Config::default();
    let mut state = AppState::new();
    state.enter_hint();
    assert_eq!(state.process_key("a", false, &config), Action::Nothing);
    assert_eq!(state.process_key("a", true, &config), Action::HintChar('a'));
    assert_eq!(state.process_key("b", true, &config), Action::HintChar('b'));
    assert_eq!(state.hint_buffer, "ab");
    assert_eq!(state.process_key("backspace", true, &config), Action::Nothing);
    assert_eq!(state.hint_buffer, "a");
    assert_eq!(state.process_key("1", true, &config), Action::Nothing);
    assert_eq!(state.process_key("esc", true, &config), Action::Exit);
}

#[test]
fn entering_a_mode_clears_held_keys() {
    let config = Config::default();
    let mut state = AppState::new();
    state.enter_hint();
    state.process_key("a", true, &config);
    state.enter_normal();
    assert_eq!(state.hint_buffer, "");
    state.process_key("l", true, &config);
    state.process_key("e", true, &config);
    state.enter_hint();
    assert_eq!(state.movement, MovementState::default());
    assert_eq!(state.scroll, ScrollState::default());
    state.process_key("v", true, &config);
    state.exit();
    assert!(!state.drag_active);
}
