use kwarpd::config::{parse_color, ChordError, ColorError, Config, ConfigError, KeyBinding, RawConfig};

#[test]
fn test_parse_key_binding() {
    let kb = KeyBinding::parse("A-M-c").unwrap();
    assert!(kb.modifiers.alt);
    assert!(kb.modifiers.super_key);
    assert!(!kb.modifiers.ctrl);
    assert!(!kb.modifiers.shift);
    assert_eq!(kb.key, "c");
}

#[test]
fn test_parse_simple_key() {
    let kb = KeyBinding::parse("esc").unwrap();
    assert!(!kb.modifiers.alt);
    assert_eq!(kb.key, "esc");
}

#[test]
fn test_parse_color() {
    assert_eq!(parse_color("#FF4500").unwrap(), 0xFF4500FF);
    assert_eq!(parse_color("#FF450080").unwrap(), 0xFF450080);
}

#[test]
fn test_default_config() {
    let config = Config::default();
    assert_eq!(config.speed, 220);
    assert_eq!(config.hint_chars, "abcdefghijklmnopqrstuvwxyz");
}

#[test]
fn chord_key_is_lowercased() {
    let kb = KeyBinding::parse("C-S-ESC").unwrap();
    assert!(kb.modifiers.ctrl);
    assert!(kb.modifiers.shift);
    assert!(!kb.modifiers.alt);
    assert_eq!(kb.key, "esc");
}

#[test]
fn chord_with_unknown_modifier_is_refused() {
    match KeyBinding::parse("A-X-c") {
        Err(ChordError::UnknownModifier(t)) => assert_eq!(t, "X"),
        other => panic!("unexpected {:?}", other),
    }
    match KeyBinding::parse("a-c") {
        Err(ChordError::UnknownModifier(t)) => assert_eq!(t, "a"),
        other => panic!("unexpected {:?}", other),
    }
}

#[test]
fn chord_without_key_is_refused() {
    assert!(matches!(KeyBinding::parse("A-M-"), Err(ChordError::EmptyKey)));
    assert!(matches!(KeyBinding::parse(""), Err(ChordError::EmptyKey)));
    assert!(matches!(KeyBinding::parse("A--"), Err(ChordError::UnknownModifier(_))));
}

#[test]
fn color_errors() {
    assert_eq!(parse_color("#FFF"), Err(ColorError::WrongLength));
    assert_eq!(parse_color("#GG4500"), Err(ColorError::InvalidDigit));
    assert_eq!(parse_color("##00ff00"), Ok(0x00FF00FF));
    assert_eq!(parse_color("+00010"), Ok(0x10FF));
}

#[test]
fn raw_options_override_defaults() {
    let mut raw = RawConfig::default();
    raw.speed = Some(300);
    raw.left = Some("a".to_string());
    raw.activation_key = Some("C-M-k".to_string());
    raw.buttons = Some("  q\tw  e r".to_string());
    raw.cursor_color = Some("#00FF00".to_string());
    let config = Config::from_raw(raw).unwrap();
    assert_eq!(config.speed, 300);
    assert_eq!(config.left, "a");
    assert!(config.activation_key.modifiers.ctrl);
    assert!(config.activation_key.modifiers.super_key);
    assert_eq!(config.activation_key.key, "k");
    assert_eq!(config.buttons.left, "q");
    assert_eq!(config.buttons.middle, "w");
    assert_eq!(config.buttons.right, "e");
    assert_eq!(config.cursor_color, 0x00FF00FF);
    assert_eq!(config.right, "l");
    assert_eq!(config.hint_activation_key.key, "x");
}

#[test]
fn too_few_button_words_keep_defaults() {
    let mut raw = RawConfig::default();
    raw.buttons = Some("q w".to_string());
    let config = Config::from_raw(raw).unwrap();
    assert_eq!(config.buttons.left, "m");
    assert_eq!(config.buttons.middle, ",");
    assert_eq!(config.buttons.right, ".");
}

#[test]
fn raw_option_errors() {
    let mut raw = RawConfig::default();
    raw.hint_activation_key = Some("Q-x".to_string());
    raw.activation_key = Some("Z-c".to_string());
    assert!(matches!(Config::from_raw(raw), Err(ConfigError::HintActivationKey(_))));
    let mut raw = RawConfig::default();
    raw.activation_key = Some("A-".to_string());
    assert!(matches!(Config::from_raw(raw), Err(ConfigError::ActivationKey(ChordError::EmptyKey))));
    let mut raw = RawConfig::default();
    raw.cursor_color = Some("#12".to_string());
    assert!(matches!(Config::from_raw(raw), Err(ConfigError::CursorColor(ColorError::WrongLength))));
}

#[test]
fn button_words_split_on_unicode_space() {
    let mut raw = RawConfig::default();
    raw.buttons = Some("q\u{3000}w\u{a0}e".to_string());
    let config = Config::from_raw(raw).unwrap();
    assert_eq!(config.buttons.left, "q");
    assert_eq!(config.buttons.middle, "w");
    assert_eq!(config.buttons.right, "e");
}
