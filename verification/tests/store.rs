use openwispr::store::{
    active_model_value, apply_session, get_input_device_id, hands_free_toggle_shortcut,
    push_to_talk_shortcut, set_input_device_id, set_shortcuts, transcript_word_count, Analytics,
    AppStore, Settings, ShortcutSettings,
};

#[test]
fn defaults_fill_the_settings() {
    let s = Settings::default();
    assert_eq!(s.language.as_deref(), Some("en"));
    assert!(s.local_transcription_enabled);
    assert_eq!(s.llm_provider.as_deref(), Some("ollama"));
    assert_eq!(s.ollama_base_url.as_deref(), Some("http://localhost:11434"));
    assert_eq!(s.shortcuts.push_to_talk, "fn");
    assert_eq!(s.shortcuts.hands_free_toggle, "fn+space");
    assert_eq!(s.shortcuts.command_mode, "fn+ctrl");
    assert_eq!(s.active_transcription_model, "base");
    assert!(s.snippets.is_empty());
    let sh = ShortcutSettings::default();
    assert_eq!(sh.push_to_talk, "fn");
    let a = Analytics::default();
    assert_eq!(a.sessions_count, 0);
    assert!(a.last_session_date.is_none());
}

#[test]
fn store_getters_read_the_settings() {
    let mut store = AppStore::default();
    assert!(get_input_device_id(&store).is_none());
    set_input_device_id(&mut store, "USB Mic".to_string());
    assert_eq!(get_input_device_id(&store).as_deref(), Some("USB Mic"));
    assert_eq!(push_to_talk_shortcut(&store), "fn");
    assert_eq!(hands_free_toggle_shortcut(&store), "fn+space");
    assert_eq!(active_model_value(&store), "base");
}

#[test]
fn shortcuts_are_canonicalised_and_must_differ() {
    let mut store = AppStore::default();
    let sh = set_shortcuts(&mut store, "Fn", " fn + Space ", "SHIFT+CTRL+FN").unwrap();
    assert_eq!(sh.push_to_talk, "fn");
    assert_eq!(sh.hands_free_toggle, "fn+space");
    assert_eq!(sh.command_mode, "fn+ctrl+shift");
    assert_eq!(store.settings.shortcuts.command_mode, "fn+ctrl+shift");

    let err = set_shortcuts(&mut store, "fn", "FN", "fn+ctrl").unwrap_err();
    assert_eq!(err, "Push-to-talk and hands-free shortcuts must be different");
    // A failure leaves the stored shortcuts alone.
    assert_eq!(store.settings.shortcuts.push_to_talk, "fn");

    assert!(set_shortcuts(&mut store, "", "fn+space", "fn+ctrl").is_err());
    assert!(set_shortcuts(&mut store, "ctrl+k+m", "fn+space", "fn+ctrl").is_err());
}

#[test]
fn words_are_counted_by_whitespace() {
    assert_eq!(transcript_word_count(""), 0);
    assert_eq!(transcript_word_count("   \n\t "), 0);
    assert_eq!(transcript_word_count("hello world"), 2);
    assert_eq!(transcript_word_count("  one   two\tthree\nfour "), 4);
}

fn fresh(last: Option<&str>, streak: u64) -> Analytics {
    Analytics {
        lifetime_removed_sec: 0,
        sessions_count: 0,
        day_streak: streak,
        last_session_date: last.map(|s| s.to_string()),
        total_words: 10,
        total_seconds: 100,
    }
}

#[test]
fn a_session_folds_into_the_totals() {
    let mut a = fresh(None, 0);
    apply_session(&mut a, 5, 12, 3, "2024-03-02".to_string(), None);
    assert_eq!(a.total_words, 22);
    assert_eq!(a.total_seconds, 105);
    assert_eq!(a.lifetime_removed_sec, 15);
    assert_eq!(a.sessions_count, 1);
    assert_eq!(a.day_streak, 1);
    assert_eq!(a.last_session_date.as_deref(), Some("2024-03-02"));
}

#[test]
fn consecutive_days_extend_the_streak() {
    let mut a = fresh(Some("2024-03-01"), 4);
    apply_session(&mut a, 1, 1, 3, "2024-03-02".to_string(), Some(1));
    assert_eq!(a.day_streak, 5);
}

#[test]
fn a_gap_resets_the_streak() {
    let mut a = fresh(Some("2024-02-20"), 9);
    apply_session(&mut a, 1, 1, 3, "2024-03-02".to_string(), Some(11));
    assert_eq!(a.day_streak, 1);
}

#[test]
fn a_second_session_the_same_day_keeps_the_streak() {
    let mut a = fresh(Some("2024-03-02"), 7);
    apply_session(&mut a, 1, 1, 3, "2024-03-02".to_string(), Some(0));
    assert_eq!(a.day_streak, 7);
}

#[test]
fn an_unreadable_previous_date_restarts_the_streak() {
    let mut a = fresh(Some("not a date"), 7);
    apply_session(&mut a, 1, 1, 3, "2024-03-02".to_string(), None);
    assert_eq!(a.day_streak, 1);
}
