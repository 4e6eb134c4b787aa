use openwispr::shortcuts::{format_shortcut, normalize_shortcut, parse_shortcut, ShortcutSpec};

#[test]
fn normalize_shortcut_compacts_and_lowercases() {
    assert_eq!(normalize_shortcut(" Fn +  Space "), "fn+space");
    assert_eq!(normalize_shortcut("FN+ENTER"), "fn+enter");
}

#[test]
fn parse_shortcut_canonicalizes_modifiers() {
    let parsed = parse_shortcut("shift+ctrl+space+fn").unwrap();
    assert_eq!(format_shortcut(&parsed), "fn+ctrl+shift+space");
}

#[test]
fn parse_shortcut_supports_free_form_combo() {
    let parsed = parse_shortcut(" Ctrl + Shift + K ").unwrap();
    assert!(parsed.ctrl);
    assert!(parsed.shift);
    assert_eq!(parsed.key.as_deref(), Some("k"));
}

#[test]
fn parse_shortcut_rejects_multiple_non_modifier_keys() {
    assert!(parse_shortcut("ctrl+k+m").is_err());
}

#[test]
fn parse_shortcut_rejects_blank_specs() {
    assert!(parse_shortcut("").is_err());
    assert!(parse_shortcut("  +  + ").is_err());
    assert_eq!(parse_shortcut("").unwrap_err(), "Shortcut cannot be empty");
}

#[test]
fn parse_shortcut_reads_modifier_aliases() {
    let parsed = parse_shortcut("control+option+command").unwrap();
    assert!(parsed.ctrl && parsed.alt && parsed.meta && !parsed.fn_key && !parsed.shift);
    assert!(parsed.key.is_none());
    let win = parse_shortcut("win").unwrap();
    assert!(win.meta);
    let sup = parse_shortcut("super").unwrap();
    assert!(sup.meta);
}

#[test]
fn format_of_parse_is_normalized_for_canonical_input() {
    // A string already in canonical token order round-trips through
    // parse and format to its own normalised form.
    let raw = " FN + Ctrl + Shift + K ";
    let parsed = parse_shortcut(raw).unwrap();
    assert_eq!(format_shortcut(&parsed), normalize_shortcut(raw));
}

#[test]
fn parse_format_parse_is_parse() {
    for raw in ["shift+ctrl+space+fn", "meta+a", "fn", "Option+Cmd+F5"] {
        let first = parse_shortcut(raw).unwrap();
        let again = parse_shortcut(&format_shortcut(&first)).unwrap();
        assert_eq!(first, again);
    }
}

#[test]
fn default_shortcut_spec_is_empty() {
    let d = ShortcutSpec::default();
    assert!(!d.fn_key && !d.ctrl && !d.shift && !d.alt && !d.meta && d.key.is_none());
}
