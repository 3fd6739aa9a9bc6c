use evdev::KeyCode;
use kwarpd::config::KeyBinding;
use kwarpd::input::{is_keyboard, key_to_name, GrabState, ModifierState, EV_KEY};

#[test]
fn test_modifier_state() {
    let mut state = ModifierState::default();
    assert!(!state.alt());
    assert!(!state.ctrl());

    state.update(KeyCode::KEY_LEFTALT.code(), true);
    assert!(state.alt());

    state.update(KeyCode::KEY_LEFTALT.code(), false);
    assert!(!state.alt());
}

#[test]
fn test_key_binding_match() {
    let binding = KeyBinding::parse("A-M-c").unwrap();
    let mut state = ModifierState::default();
    state.left_alt = true;
    state.left_meta = true;

    assert!(state.matches(&binding, "c"));
    assert!(!state.matches(&binding, "x"));

    state.left_ctrl = true;
    assert!(!state.matches(&binding, "c"));
}

#[test]
fn right_side_modifiers_count() {
    let binding = KeyBinding::parse("A-M-c").unwrap();
    let mut state = ModifierState::default();
    state.update(KeyCode::KEY_RIGHTALT.code(), true);
    state.update(KeyCode::KEY_RIGHTMETA.code(), true);
    assert!(state.matches(&binding, "c"));
    state.update(KeyCode::KEY_RIGHTSHIFT.code(), true);
    assert!(state.shift());
    assert!(!state.matches(&binding, "c"));
}

#[test]
fn key_codes_have_names() {
    assert_eq!(key_to_name(KeyCode::KEY_A.code()).unwrap(), "a");
    assert_eq!(key_to_name(KeyCode::KEY_ESC.code()).unwrap(), "esc");
    assert_eq!(key_to_name(KeyCode::KEY_BACKSLASH.code()).unwrap(), "\\");
    assert_eq!(key_to_name(KeyCode::KEY_F12.code()).unwrap(), "f12");
    assert_eq!(key_to_name(KeyCode::KEY_COMMA.code()).unwrap(), ",");
    assert!(key_to_name(KeyCode::KEY_LEFTALT.code()).is_none());
}

#[test]
fn translate_filters_repeats_and_tracks_modifiers() {
    let mut g = GrabState::new();
    assert!(g.translate(EV_KEY, KeyCode::KEY_LEFTALT.code(), 1).is_none());
    assert!(g.modifiers().alt());
    let ev = g.translate(EV_KEY, KeyCode::KEY_C.code(), 1).unwrap();
    assert_eq!(ev.key, "c");
    assert!(ev.pressed);
    assert!(ev.modifiers.alt);
    assert!(g.translate(EV_KEY, KeyCode::KEY_C.code(), 2).is_none());
    assert!(g.translate(2, 0, 5).is_none());
    let up = g.translate(EV_KEY, KeyCode::KEY_C.code(), 0).unwrap();
    assert!(!up.pressed);
}

#[test]
fn release_happens_once() {
    let mut g = GrabState::new();
    g.translate(EV_KEY, KeyCode::KEY_LEFTCTRL.code(), 1);
    g.mark_grabbed();
    assert!(g.is_grabbed());
    assert!(g.release());
    assert!(!g.modifiers().ctrl());
    assert!(!g.release());
    assert!(!g.is_grabbed());
}

#[test]
fn activation_uses_live_modifiers() {
    let binding = KeyBinding::parse("A-M-c").unwrap();
    let mut g = GrabState::new();
    g.translate(EV_KEY, KeyCode::KEY_LEFTALT.code(), 1);
    assert!(!g.check_activation("c", &binding));
    g.translate(EV_KEY, KeyCode::KEY_LEFTMETA.code(), 1);
    assert!(g.check_activation("c", &binding));
}

#[test]
fn keyboard_needs_a_and_enter() {
    let a = KeyCode::KEY_A.code();
    let enter = KeyCode::KEY_ENTER.code();
    assert!(is_keyboard(&vec![1, a, 5, enter]));
    assert!(!is_keyboard(&vec![a]));
    assert!(!is_keyboard(&vec![]));
}
