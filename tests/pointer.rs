use kwarpd::output::{
    button_code, button_events, click_events, descriptor_bytes, encode_events, hscroll_events, move_events,
    scroll_events, InputEvent, PointerState, BTN_LEFT, BTN_MIDDLE, BTN_RIGHT, DESCRIPTOR_LEN, EV_KEY, EV_REL,
    EV_SYN, REL_HWHEEL, REL_WHEEL, REL_X, REL_Y,
};

fn syn() -> InputEvent {
    InputEvent::new(EV_SYN, 0, 0)
}

#[test]
fn record_layout() {
    let bytes = InputEvent::new(EV_REL, REL_Y, -2).to_bytes();
    assert_eq!(bytes.len(), 24);
    assert!(bytes[..16].iter().all(|b| *b == 0));
    assert_eq!(&bytes[16..], &[2, 0, 1, 0, 0xFE, 0xFF, 0xFF, 0xFF]);
    let key = InputEvent::new(EV_KEY, BTN_MIDDLE, 1).to_bytes();
    assert_eq!(&key[16..], &[1, 0, 0x12, 0x01, 1, 0, 0, 0]);
}

#[test]
fn record_round_trip() {
    for e in [
        InputEvent::new(EV_REL, REL_X, i32::MIN),
        InputEvent::new(EV_REL, REL_WHEEL, i32::MAX),
        InputEvent::new(EV_KEY, BTN_RIGHT, 0),
        InputEvent::new(0xBEEF, 0x1234, -1),
    ] {
        assert_eq!(InputEvent::from_bytes(&e.to_bytes()), Some(e));
    }
    assert_eq!(InputEvent::from_bytes(&[0u8; 23]), None);
}

#[test]
fn batches_are_concatenated_records() {
    let events = move_events(3, -4);
    let bytes = encode_events(&events);
    assert_eq!(bytes.len(), 72);
    for (i, e) in events.iter().enumerate() {
        assert_eq!(InputEvent::from_bytes(&bytes[i * 24..i * 24 + 24]), Some(*e));
    }
}

#[test]
fn descriptor_layout() {
    let d = descriptor_bytes(b"kwarpd virtual pointer");
    assert_eq!(d.len(), DESCRIPTOR_LEN);
    assert_eq!(&d[..22], b"kwarpd virtual pointer");
    assert!(d[22..80].iter().all(|b| *b == 0));
    assert_eq!(&d[80..88], &[0x03, 0, 0x34, 0x12, 0x78, 0x56, 1, 0]);
    assert!(d[88..].iter().all(|b| *b == 0));
}

#[test]
fn move_skips_zero_axes() {
    assert_eq!(move_events(0, 0), vec![syn()]);
    assert_eq!(move_events(5, 0), vec![InputEvent::new(EV_REL, REL_X, 5), syn()]);
    assert_eq!(
        move_events(-1, 2),
        vec![InputEvent::new(EV_REL, REL_X, -1), InputEvent::new(EV_REL, REL_Y, 2), syn()]
    );
}

#[test]
fn buttons_and_clicks() {
    assert_eq!(button_code(0), Some(BTN_LEFT));
    assert_eq!(button_code(1), Some(BTN_MIDDLE));
    assert_eq!(button_code(2), Some(BTN_RIGHT));
    assert_eq!(button_code(3), None);
    assert!(button_events(7, true).is_none());
    assert_eq!(button_events(2, true).unwrap(), vec![InputEvent::new(EV_KEY, BTN_RIGHT, 1), syn()]);
    let (press, release) = click_events(1).unwrap();
    assert_eq!(press, vec![InputEvent::new(EV_KEY, BTN_MIDDLE, 1), syn()]);
    assert_eq!(release, vec![InputEvent::new(EV_KEY, BTN_MIDDLE, 0), syn()]);
    assert!(click_events(9).is_none());
}

#[test]
fn scroll_sign_inversion() {
    assert_eq!(scroll_events(1), vec![InputEvent::new(EV_REL, REL_WHEEL, -1), syn()]);
    assert_eq!(scroll_events(-3), vec![InputEvent::new(EV_REL, REL_WHEEL, 3), syn()]);
    assert_eq!(hscroll_events(2), vec![InputEvent::new(EV_REL, REL_HWHEEL, 2), syn()]);
}

#[test]
fn release_drag_twice_emits_one_release() {
    let mut p = PointerState::new();
    assert_eq!(p.toggle_drag(), vec![InputEvent::new(EV_KEY, BTN_LEFT, 1), syn()]);
    assert!(p.is_dragging());
    assert_eq!(p.release_drag(), vec![InputEvent::new(EV_KEY, BTN_LEFT, 0), syn()]);
    assert!(p.release_drag().is_empty());
    assert!(!p.is_dragging());
}

#[test]
fn toggle_twice_releases() {
    let mut p = PointerState::new();
    p.toggle_drag();
    assert_eq!(p.toggle_drag(), vec![InputEvent::new(EV_KEY, BTN_LEFT, 0), syn()]);
    assert!(p.release_drag().is_empty());
}
