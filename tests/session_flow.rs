use kwarpd::config::{Config, Modifiers};
use kwarpd::input::{KeyEvent, ModifierState};
use kwarpd::output::{InputEvent, BTN_LEFT, EV_KEY, EV_REL, EV_SYN, REL_X};
use kwarpd::session::{Command, Session};
use kwarpd::state::Mode;

fn key(name: &str, pressed: bool) -> KeyEvent {
    KeyEvent { key: name.to_string(), pressed, modifiers: Modifiers::default() }
}

fn alt_meta() -> ModifierState {
    let mut m = ModifierState::default();
    m.left_alt = true;
    m.left_meta = true;
    m
}

#[test]
fn activation_enters_normal_and_grabs() {
    let config = Config::default();
    let mut s = Session::new(1920, 1080, 0);
    let none = ModifierState::default();
    assert!(s.handle_event(&key("c", true), &none, &config, 10).is_empty());
    assert_eq!(s.state.mode, Mode::Inactive);
    let cmds = s.handle_event(&key("c", true), &alt_meta(), &config, 10);
    assert!(matches!(cmds.as_slice(), [Command::GrabDevices]));
    assert_eq!(s.state.mode, Mode::Normal);
    assert_eq!(s.physics.last_update, 10);
}

#[test]
fn exit_releases_grab_and_drag() {
    let config = Config::default();
    let mut s = Session::new(1920, 1080, 0);
    let none = ModifierState::default();
    s.handle_event(&key("c", true), &alt_meta(), &config, 0);
    let cmds = s.handle_event(&key("v", true), &none, &config, 0);
    match cmds.as_slice() {
        [Command::Emit(ev)] => assert_eq!(ev[0], InputEvent::new(EV_KEY, BTN_LEFT, 1)),
        other => panic!("unexpected {:?}", other),
    }
    let cmds = s.handle_event(&key("esc", true), &none, &config, 5);
    match cmds.as_slice() {
        [Command::ReleaseDevices, Command::Emit(ev)] => {
            assert_eq!(ev.as_slice(), &[InputEvent::new(EV_KEY, BTN_LEFT, 0), InputEvent::new(EV_SYN, 0, 0)])
        },
        other => panic!("unexpected {:?}", other),
    }
    assert_eq!(s.state.mode, Mode::Inactive);
    assert!(!s.pointer.is_dragging());
    let cmds = s.handle_event(&key("esc", true), &none, &config, 6);
    assert!(cmds.is_empty());
}

#[test]
fn click_keys_click() {
    let config = Config::default();
    let mut s = Session::new(1920, 1080, 0);
    s.handle_event(&key("c", true), &alt_meta(), &config, 0);
    let cmds = s.handle_event(&key(".", true), &ModifierState::default(), &config, 0);
    match cmds.as_slice() {
        [Command::Click { press, release }] => {
            assert_eq!(press[0].value, 1);
            assert_eq!(release[0].value, 0);
        },
        other => panic!("unexpected {:?}", other),
    }
}

#[test]
fn hint_label_typed_exits() {
    let config = Config::default();
    let mut s = Session::new(1920, 1080, 0);
    let none = ModifierState::default();
    let cmds = s.handle_event(&key("x", true), &alt_meta(), &config, 0);
    assert!(matches!(cmds.as_slice(), [Command::GrabDevices]));
    assert_eq!(s.state.mode, Mode::Hint);
    assert_eq!(s.hints.len(), 676);
    assert!(s.handle_event(&key("q", true), &none, &config, 0).is_empty());
    assert_eq!(s.state.hint_buffer, "q");
    let cmds = s.handle_event(&key("w", true), &none, &config, 0);
    assert!(matches!(cmds.as_slice(), [Command::ReleaseDevices]));
    assert_eq!(s.state.mode, Mode::Inactive);
    assert!(s.hints.is_empty());
}

#[test]
fn unmatched_prefix_clears_buffer() {
    let mut config = Config::default();
    config.hint_chars = "ab".to_string();
    config.hint_exit = "q".to_string();
    let mut s = Session::new(1920, 1080, 0);
    s.handle_event(&key("x", true), &alt_meta(), &config, 0);
    assert_eq!(s.hints.len(), 4);
    s.hints.truncate(1);
    s.handle_event(&key("b", true), &ModifierState::default(), &config, 0);
    assert_eq!(s.state.hint_buffer, "");
    assert_eq!(s.state.mode, Mode::Hint);
    let cmds = s.handle_event(&key("q", true), &ModifierState::default(), &config, 0);
    assert!(matches!(cmds.as_slice(), [Command::ReleaseDevices]));
}

#[test]
fn ticks_move_only_in_normal_mode() {
    let config = Config::default();
    let mut s = Session::new(1920, 1080, 0);
    assert!(s.tick(&config, 16_000).is_empty());
    s.handle_event(&key("c", true), &alt_meta(), &config, 16_000);
    s.handle_event(&key("l", true), &ModifierState::default(), &config, 16_000);
    s.physics.velocity_x = 220_000_000;
    let cmds = s.tick(&config, 32_000);
    match cmds.as_slice() {
        [Command::Emit(ev)] => {
            assert_eq!(ev.as_slice(), &[InputEvent::new(EV_REL, REL_X, 4), InputEvent::new(EV_SYN, 0, 0)])
        },
        other => panic!("unexpected {:?}", other),
    }
}

#[test]
fn exact_hint_releases_a_held_drag() {
    let config = Config::default();
    let mut s = Session::new(1920, 1080, 0);
    let none = ModifierState::default();
    s.handle_event(&key("c", true), &alt_meta(), &config, 0);
    s.handle_event(&key("v", true), &none, &config, 0);
    assert!(s.pointer.is_dragging());
    s.physics.velocity_x = 5;
    assert!(s.handle_event(&key("x", true), &none, &config, 70).is_empty());
    assert_eq!(s.state.mode, Mode::Hint);
    assert_eq!((s.physics.velocity_x, s.physics.last_update), (0, 70));
    s.handle_event(&key("a", true), &none, &config, 80);
    let cmds = s.handle_event(&key("a", true), &none, &config, 90);
    match cmds.as_slice() {
        [Command::ReleaseDevices, Command::Emit(ev)] => {
            assert_eq!(ev.as_slice(), &[InputEvent::new(EV_KEY, BTN_LEFT, 0), InputEvent::new(EV_SYN, 0, 0)])
        },
        other => panic!("unexpected {:?}", other),
    }
    assert_eq!(s.state.mode, Mode::Inactive);
    assert!(!s.state.drag_active);
    assert!(!s.pointer.is_dragging());
    assert_eq!(s.physics.last_update, 90);
}

#[test]
fn copy_and_exit_resets_motion() {
    let config = Config::default();
    let mut s = Session::new(1920, 1080, 0);
    s.handle_event(&key("c", true), &alt_meta(), &config, 0);
    s.physics.velocity_y = 9;
    let cmds = s.handle_event(&key("c", true), &ModifierState::default(), &config, 33);
    assert!(matches!(cmds.as_slice(), [Command::ReleaseDevices]));
    assert_eq!(s.state.mode, Mode::Inactive);
    assert_eq!((s.physics.velocity_y, s.physics.last_update), (0, 33));
}
