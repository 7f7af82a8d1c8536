use clipi::hotkey::{
    capture_from_events, code_label, display_label, format_hotkey, is_function_key, key_to_code,
    parse, Capture, HotKey, InputEvent, Key, KeyModifiers, Mods, Platform, DEFAULT,
};

#[test]
fn default_parses() {
    let hk = parse(DEFAULT).unwrap();
    assert!(hk.mods.alt);
    assert_eq!(hk.key, "KeyC");
}

#[test]
fn parsing_trims_and_reads_modifiers() {
    let hk = parse("  ctrl+shift+KeyX ").unwrap();
    assert!(hk.mods.ctrl && hk.mods.shift && !hk.mods.alt && !hk.mods.meta);
    assert_eq!(hk.key, "KeyX");
    let f = parse("F5").unwrap();
    assert!(!f.mods.ctrl && !f.mods.alt && !f.mods.shift && !f.mods.meta);
    assert_eq!(f.key, "F5");
    let s = parse("super+Digit1").unwrap();
    assert!(s.mods.meta);
    assert_eq!(s.key, "Digit1");
}

#[test]
fn bad_shortcuts_do_not_parse() {
    assert!(parse("").is_err());
    assert!(parse("ctrl+").is_err());
    assert!(parse("ctrl+KeyX+alt").is_err());
}

#[test]
fn code_labels() {
    assert_eq!(code_label("KeyA"), "A");
    assert_eq!(code_label("Digit7"), "7");
    assert_eq!(code_label("F5"), "F5");
    assert_eq!(code_label("KeyAB"), "KeyAB");
    assert_eq!(code_label("Key"), "Key");
    assert_eq!(code_label("Space"), "Space");
}

#[test]
fn labels_per_platform() {
    assert_eq!(display_label("alt+KeyC", Platform::Other), "Alt+C");
    assert_eq!(display_label("alt+KeyC", Platform::MacOs), "Option+C");
    assert_eq!(display_label("shift+ctrl+Digit1", Platform::Other), "Ctrl+Shift+1");
    assert_eq!(display_label("super+F5", Platform::Other), "Win+F5");
    assert_eq!(display_label("super+alt+Space", Platform::MacOs), "Option+Cmd+Space");
}

#[test]
fn unparsable_labels_show_the_setting() {
    assert_eq!(display_label("bogus+", Platform::Other), "bogus+");
    assert_eq!(display_label("", Platform::Other), "");
}

#[test]
fn formatting_all_modifiers() {
    let h = HotKey {
        mods: Mods { ctrl: true, alt: true, shift: true, meta: true },
        key: "KeyZ".to_string(),
    };
    assert_eq!(format_hotkey(&h, Platform::Other), "Ctrl+Alt+Shift+Win+Z");
    assert_eq!(format_hotkey(&h, Platform::MacOs), "Ctrl+Option+Shift+Cmd+Z");
}

#[test]
fn key_codes() {
    assert_eq!(key_to_code(Key::A), Some("KeyA"));
    assert_eq!(key_to_code(Key::Num3), Some("Digit3"));
    assert_eq!(key_to_code(Key::F24), Some("F24"));
    assert_eq!(key_to_code(Key::Equals), Some("Equal"));
    assert_eq!(key_to_code(Key::Backtick), Some("Backquote"));
    assert_eq!(key_to_code(Key::OpenBracket), Some("BracketLeft"));
    assert_eq!(key_to_code(Key::Escape), None);
    assert_eq!(key_to_code(Key::Other), None);
    assert!(is_function_key(Key::F1));
    assert!(is_function_key(Key::F24));
    assert!(!is_function_key(Key::A));
    assert!(!is_function_key(Key::Escape));
}

#[test]
fn every_code_parses_back() {
    let keys = [Key::A, Key::Z, Key::Num0, Key::F12, Key::F13, Key::Space, Key::ArrowLeft,
        Key::Minus, Key::Comma, Key::Period, Key::Slash, Key::Backslash, Key::Semicolon,
        Key::Quote, Key::CloseBracket, Key::PageDown, Key::Insert];
    for k in keys {
        let code = key_to_code(k).unwrap();
        let hk = parse(&format!("ctrl+{code}")).unwrap();
        assert_eq!(hk.key, code);
    }
}

fn press(key: Key, alt: bool, ctrl: bool, shift: bool, mac_cmd: bool) -> InputEvent {
    InputEvent::Key {
        key,
        pressed: true,
        repeat: false,
        modifiers: KeyModifiers { alt, ctrl, shift, mac_cmd },
    }
}

#[test]
fn escape_cancels_capture() {
    let events = vec![InputEvent::Other, press(Key::Escape, false, false, false, false)];
    assert!(matches!(capture_from_events(&events), Capture::Cancel));
}

#[test]
fn plain_keys_are_not_shortcuts() {
    let events = vec![press(Key::C, false, false, false, false)];
    assert!(matches!(capture_from_events(&events), Capture::Waiting));
    assert!(matches!(capture_from_events(&Vec::new()), Capture::Waiting));
}

#[test]
fn modifier_combinations_are_captured() {
    let events = vec![press(Key::C, false, false, false, false), press(Key::C, false, true, true, false)];
    match capture_from_events(&events) {
        Capture::Combo(h) => {
            assert!(h.mods.ctrl && h.mods.shift && !h.mods.alt && !h.mods.meta);
            assert_eq!(h.key, "KeyC");
        }
        _ => panic!("expected a combination"),
    }
}

#[test]
fn function_keys_need_no_modifier() {
    match capture_from_events(&vec![press(Key::F5, false, false, false, false)]) {
        Capture::Combo(h) => {
            assert!(!h.mods.ctrl && !h.mods.alt && !h.mods.shift && !h.mods.meta);
            assert_eq!(h.key, "F5");
        }
        _ => panic!("expected a combination"),
    }
}

#[test]
fn repeats_and_releases_are_ignored() {
    let events = vec![
        InputEvent::Key {
            key: Key::Escape,
            pressed: true,
            repeat: true,
            modifiers: KeyModifiers { alt: false, ctrl: false, shift: false, mac_cmd: false },
        },
        InputEvent::Key {
            key: Key::F2,
            pressed: false,
            repeat: false,
            modifiers: KeyModifiers { alt: false, ctrl: false, shift: false, mac_cmd: false },
        },
        press(Key::Other, true, false, false, false),
        press(Key::A, false, false, false, true),
    ];
    match capture_from_events(&events) {
        Capture::Combo(h) => {
            assert!(h.mods.meta);
            assert_eq!(h.key, "KeyA");
        }
        _ => panic!("expected a combination"),
    }
}
