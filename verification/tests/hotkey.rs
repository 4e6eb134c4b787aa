use openwispr::hotkey::{
    fallback_hands_free_spec, fallback_push_spec, is_fn_key, is_shortcut_active,
    key_token_from_keycode, load_shortcuts, vkey_to_key_token, HotkeyMachine, KeyEvent, KeyState,
};
use openwispr::shortcuts::parse_shortcut;
use openwispr::store::AppStore;

#[test]
fn fallback_shortcuts_are_fn_and_fn_space() {
    let push = fallback_push_spec();
    assert!(push.fn_key && push.key.is_none());
    let hands_free = fallback_hands_free_spec();
    assert!(hands_free.fn_key);
    assert_eq!(hands_free.key.as_deref(), Some("space"));
}

#[test]
fn stored_shortcuts_load_with_fallbacks() {
    let mut store = AppStore::default();
    let (push, hands_free) = load_shortcuts(&store);
    assert!(push.fn_key && push.key.is_none());
    assert_eq!(hands_free.key.as_deref(), Some("space"));

    store.settings.shortcuts.push_to_talk = "not ++ valid ++".to_string();
    store.settings.shortcuts.push_to_talk = "ctrl+k+m".to_string();
    let (push, _) = load_shortcuts(&store);
    // An unparsable stored string falls back to the bare fn modifier.
    assert!(push.fn_key && push.key.is_none());
}

fn keys(fn_down: bool, ctrl: bool, pressed: &[&str]) -> KeyState {
    KeyState {
        fn_down,
        ctrl_down: ctrl,
        shift_down: false,
        alt_down: false,
        meta_down: false,
        pressed_keys: pressed.iter().map(|s| s.to_string()).collect(),
    }
}

#[test]
fn a_shortcut_is_active_with_its_modifiers_and_exactly_its_key() {
    let spec = parse_shortcut("fn+space").unwrap();
    assert!(is_shortcut_active(&spec, &keys(true, false, &["space"])));
    // The modifier alone is not enough.
    assert!(!is_shortcut_active(&spec, &keys(true, false, &[])));
    // A second pressed key deactivates the shortcut.
    assert!(!is_shortcut_active(&spec, &keys(true, false, &["space", "x"])));
    // The wrong key does not count.
    assert!(!is_shortcut_active(&spec, &keys(true, false, &["enter"])));
    // The modifier must be down.
    assert!(!is_shortcut_active(&spec, &keys(false, false, &["space"])));

    let bare = parse_shortcut("ctrl").unwrap();
    assert!(is_shortcut_active(&bare, &keys(false, true, &[])));
}

#[test]
fn push_to_talk_follows_the_key() {
    let push = parse_shortcut("fn").unwrap();
    let hands_free = parse_shortcut("fn+space").unwrap();
    let mut machine = HotkeyMachine::new(push, hands_free);

    let out = machine.on_event(&KeyEvent::Flags {
        fn_down: true,
        ctrl_down: false,
        shift_down: false,
        alt_down: false,
        meta_down: false,
    });
    assert!(machine.is_push_active);
    assert!(machine.is_recording_active);
    assert_eq!(out.hold_signal, Some(true));

    let out = machine.on_event(&KeyEvent::Flags {
        fn_down: false,
        ctrl_down: false,
        shift_down: false,
        alt_down: false,
        meta_down: false,
    });
    assert!(!machine.is_push_active);
    assert!(!machine.is_recording_active);
    assert_eq!(out.hold_signal, Some(false));
}

#[test]
fn keycodes_map_to_their_tokens() {
    assert_eq!(key_token_from_keycode(49).as_deref(), Some("space"));
    assert_eq!(key_token_from_keycode(36).as_deref(), Some("enter"));
    assert_eq!(key_token_from_keycode(53).as_deref(), Some("escape"));
    assert_eq!(key_token_from_keycode(122).as_deref(), Some("f1"));
    assert_eq!(key_token_from_keycode(111).as_deref(), Some("f12"));
    assert_eq!(key_token_from_keycode(1), None);
}

#[test]
fn virtual_keys_map_to_their_tokens() {
    assert_eq!(vkey_to_key_token(0x41).as_deref(), Some("a"));
    assert_eq!(vkey_to_key_token(0x5A).as_deref(), Some("z"));
    assert_eq!(vkey_to_key_token(0x30).as_deref(), Some("0"));
    assert_eq!(vkey_to_key_token(0x39).as_deref(), Some("9"));
    assert_eq!(vkey_to_key_token(0x70).as_deref(), Some("f1"));
    assert_eq!(vkey_to_key_token(0x7B).as_deref(), Some("f12"));
    assert_eq!(vkey_to_key_token(0x20).as_deref(), Some("space"));
    assert_eq!(vkey_to_key_token(0xBE).as_deref(), Some("."));
    assert_eq!(vkey_to_key_token(0x01), None);
}

#[test]
fn fn_key_overrides_take_precedence() {
    assert!(is_fn_key(0x42, 0, Some(0x42), Some(0x99)));
    assert!(!is_fn_key(0x41, 0x99, Some(0x42), Some(0x99)));
    assert!(is_fn_key(0, 0x99, None, Some(0x99)));
    // Without overrides, the best-effort defaults are the high F keys.
    assert!(is_fn_key(135, 0, None, None));
    assert!(is_fn_key(133, 0, None, None));
    assert!(!is_fn_key(0x41, 0, None, None));
}
