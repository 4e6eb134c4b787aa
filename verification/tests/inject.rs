use openwispr::inject::{
    capture_content, paste_plan, remember_active_paste_target, restore_content,
    snapshot_from_reads, staging_failed_plan, ClipboardContent, ClipboardSnapshot,
    ForegroundTarget, InjectStep,
};

#[test]
fn clipboard_round_trips_for_every_representable_format() {
    let cases = vec![
        ClipboardContent::Text("hello".to_string()),
        ClipboardContent::Html {
            html: "<b>x</b>".to_string(),
            alt_text: "x".to_string(),
        },
        ClipboardContent::Image { width: 2, height: 2, bytes: vec![255, 0, 0, 255].repeat(4) },
        ClipboardContent::FileList(vec!["/tmp/a".to_string(), "/tmp/b".to_string()]),
        ClipboardContent::Empty,
    ];
    for content in cases {
        let restored = restore_content(capture_content(content.clone()));
        assert_eq!(restored, content);
    }
    // An unrepresentable format degrades to empty.
    let restored = restore_content(capture_content(ClipboardContent::Unrepresentable));
    assert_eq!(restored, ClipboardContent::Empty);
}

#[test]
fn a_two_by_two_red_image_survives_the_round_trip() {
    // Four RGBA pixels, all red.
    let red = vec![255u8, 0, 0, 255].repeat(4);
    let content = ClipboardContent::Image { width: 2, height: 2, bytes: red.clone() };
    let snapshot = capture_content(content);
    assert_eq!(
        snapshot,
        ClipboardSnapshot::Image { width: 2, height: 2, bytes: red.clone() }
    );
    let after_paste = restore_content(snapshot);
    assert_eq!(
        after_paste,
        ClipboardContent::Image { width: 2, height: 2, bytes: red }
    );
}

#[test]
fn snapshot_takes_the_first_format_that_read() {
    let got = snapshot_from_reads(
        Some(("<i>h</i>".to_string(), "h".to_string())),
        Some("ignored".to_string()),
        None,
        None,
    );
    assert_eq!(
        got,
        ClipboardSnapshot::Html { html: "<i>h</i>".to_string(), alt_text: "h".to_string() }
    );
    let got = snapshot_from_reads(None, Some("plain".to_string()), None, None);
    assert_eq!(got, ClipboardSnapshot::Text("plain".to_string()));
    let got = snapshot_from_reads(None, None, None, None);
    assert_eq!(got, ClipboardSnapshot::Clear);
}

#[test]
fn the_injector_refuses_its_own_process_and_window() {
    let mut slot: Option<ForegroundTarget> = None;
    let own_pid = 4242;
    let accepted = remember_active_paste_target(
        &mut slot,
        Some(ForegroundTarget::Pid { pid: own_pid, name: "openwispr".to_string() }),
        own_pid,
        0,
    );
    assert!(!accepted);
    assert!(slot.is_none());

    let accepted = remember_active_paste_target(
        &mut slot,
        Some(ForegroundTarget::Window { handle: 77 }),
        own_pid,
        77,
    );
    assert!(!accepted);
    assert!(slot.is_none());

    let accepted = remember_active_paste_target(
        &mut slot,
        Some(ForegroundTarget::Pid { pid: 1234, name: "editor".to_string() }),
        own_pid,
        0,
    );
    assert!(accepted);
    assert_eq!(
        slot,
        Some(ForegroundTarget::Pid { pid: 1234, name: "editor".to_string() })
    );
}

#[test]
fn blank_text_injects_nothing() {
    assert!(paste_plan("", true, false).is_empty());
    assert!(paste_plan("   \n\t ", true, true).is_empty());
}

#[test]
fn the_paste_sequence_preserves_order() {
    let plan = paste_plan("Hello world.", true, false);
    assert_eq!(
        plan,
        vec![
            InjectStep::SnapshotClipboard,
            InjectStep::StageText,
            InjectStep::RestoreFocus,
            InjectStep::SleepMs(50),
            InjectStep::PasteChord,
            InjectStep::SleepMs(120),
            InjectStep::RestoreClipboardRetries { attempts: 10, interval_ms: 80 },
        ]
    );
    let scripted = paste_plan("Hello world.", true, true);
    assert_eq!(scripted[2], InjectStep::ScriptedPaste);
    let no_clipboard = paste_plan("Hello world.", false, false);
    assert_eq!(no_clipboard, vec![InjectStep::RestoreFocus, InjectStep::TypeText]);
    assert_eq!(
        staging_failed_plan(),
        vec![InjectStep::RestoreFocus, InjectStep::TypeText]
    );
}
