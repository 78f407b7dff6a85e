use rdev_poc::keyboard::{get_keys_map, paste_shortcut, Key, KeyEvent, KeysMap, TargetOs};

#[test]
fn paste_shortcut_on_mac_uses_command() {
    assert_eq!(
        paste_shortcut(TargetOs::MacOs),
        vec![
            KeyEvent::Press(Key::MetaLeft),
            KeyEvent::Press(Key::KeyV),
            KeyEvent::Release(Key::KeyV),
            KeyEvent::Release(Key::MetaLeft),
        ]
    );
}

#[test]
fn paste_shortcut_on_linux_or_windows_uses_control() {
    assert_eq!(
        paste_shortcut(TargetOs::LinuxOrWindows),
        vec![
            KeyEvent::Press(Key::ControlLeft),
            KeyEvent::Press(Key::KeyV),
            KeyEvent::Release(Key::KeyV),
            KeyEvent::Release(Key::ControlLeft),
        ]
    );
}

#[test]
fn paste_shortcut_elsewhere_is_empty() {
    assert!(paste_shortcut(TargetOs::Other).is_empty());
}

#[test]
fn paste_shortcut_releases_in_reverse_order() {
    for os in [TargetOs::MacOs, TargetOs::LinuxOrWindows, TargetOs::Other] {
        let e = paste_shortcut(os);
        assert_eq!(e.len() % 2, 0);
        for i in 0..e.len() / 2 {
            match e[i] {
                KeyEvent::Press(k) => assert_eq!(e[e.len() - 1 - i], KeyEvent::Release(k)),
                KeyEvent::Release(_) => panic!("a release in the first half"),
            }
        }
    }
}

#[test]
fn keys_map_binds_letters() {
    let m = get_keys_map();
    assert_eq!(m.get('a'), Some((Key::KeyA, false)));
    assert_eq!(m.get('q'), Some((Key::KeyQ, false)));
    assert_eq!(m.get('z'), Some((Key::KeyZ, false)));
    assert_eq!(m.get('A'), Some((Key::KeyA, true)));
    assert_eq!(m.get('M'), Some((Key::KeyM, true)));
    assert_eq!(m.get('Z'), Some((Key::KeyZ, true)));
}

#[test]
fn keys_map_binds_digits_and_specials() {
    let m = get_keys_map();
    assert_eq!(m.get('0'), Some((Key::Num0, false)));
    assert_eq!(m.get('5'), Some((Key::Num5, false)));
    assert_eq!(m.get('9'), Some((Key::Num9, false)));
    assert_eq!(m.get('\n'), Some((Key::Return, false)));
    assert_eq!(m.get(' '), Some((Key::Space, false)));
    assert_eq!(m.get('\t'), Some((Key::Tab, false)));
    assert_eq!(m.get('`'), Some((Key::BackQuote, false)));
    assert_eq!(m.get('-'), Some((Key::Minus, false)));
    assert_eq!(m.get('='), Some((Key::Equal, false)));
}

#[test]
fn keys_map_leaves_other_characters_unbound() {
    let m = get_keys_map();
    for c in ['!', '@', '_', '+', '.', ',', '[', 'é', '\r', '~', '€'] {
        assert_eq!(m.get(c), None, "{:?}", c);
    }
}

#[test]
fn keys_map_has_sixty_eight_bindings() {
    let m = get_keys_map();
    let bound = (0u32..0x11000)
        .filter_map(char::from_u32)
        .filter(|c| m.get(*c).is_some())
        .count();
    assert_eq!(bound, 68);
}

#[test]
fn upper_case_is_shifted_lower_case() {
    let m = get_keys_map();
    for lower in 'a'..='z' {
        let upper = lower.to_ascii_uppercase();
        let (k, shifted) = m.get(lower).unwrap();
        assert!(!shifted);
        assert_eq!(m.get(upper), Some((k, true)));
    }
}

#[test]
fn default_bindings_are_distinct() {
    let m = get_keys_map();
    let bound: Vec<(char, (Key, bool))> = (0u32..128)
        .filter_map(char::from_u32)
        .filter_map(|c| m.get(c).map(|b| (c, b)))
        .collect();
    for (c1, b1) in &bound {
        for (c2, b2) in &bound {
            if b1 == b2 {
                assert_eq!(c1, c2);
            }
        }
        assert_ne!(b1.0, Key::Unknown(0));
    }
}

#[test]
fn keys_map_insert_and_get() {
    let mut m = KeysMap::new();
    assert_eq!(m.get('x'), None);
    m.insert('x', Key::KeyX, true);
    assert_eq!(m.get('x'), Some((Key::KeyX, true)));
    m.insert('x', Key::Unknown(0), false);
    assert_eq!(m.get('x'), Some((Key::Unknown(0), false)));
    assert_eq!(m.get('y'), None);
}
