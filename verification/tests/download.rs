use openwispr::download::{
    mlx_setup_events, sherpa_file_event, to_user_facing_download_error,
    to_user_facing_llm_download_error, DownloadStage, DownloadTracker,
};

#[test]
fn progress_events_grow_and_end_once() {
    let (mut tracker, first) = DownloadTracker::begin("base", Some(1024 * 1024));
    assert_eq!(first.downloaded_bytes, 0);
    assert!(!first.done);
    assert_eq!(first.stage, DownloadStage::Download);
    assert_eq!(first.percent, Some(0));

    let mut emitted = vec![first];
    // Chunks below the 256 KiB threshold emit nothing.
    assert!(tracker.on_chunk(1000).is_none());
    // Crossing the threshold emits one growing event.
    if let Some(ev) = tracker.on_chunk(300 * 1024) {
        assert_eq!(ev.downloaded_bytes, 1000 + 300 * 1024);
        assert!(!ev.done);
        emitted.push(ev);
    } else {
        panic!("expected a progress event past the threshold");
    }
    // Reaching the total emits again, at one hundred percent.
    if let Some(ev) = tracker.on_chunk(1024 * 1024) {
        assert_eq!(ev.percent, Some(100));
        emitted.push(ev);
    } else {
        panic!("expected a progress event at the total");
    }
    let done = tracker.complete();
    assert!(done.done);
    assert_eq!(done.stage, DownloadStage::Ready);
    assert_eq!(done.percent, Some(100));
    emitted.push(done);

    // The emitted byte counts never decrease, and only the last event is
    // terminal.
    for w in emitted.windows(2) {
        assert!(w[0].downloaded_bytes <= w[1].downloaded_bytes);
    }
    for (i, ev) in emitted.iter().enumerate() {
        assert_eq!(ev.done, i == emitted.len() - 1);
    }
}

#[test]
fn download_failure_emits_one_terminal_error_event() {
    let raw = "GET returned 404: not found";
    let friendly = to_user_facing_download_error(raw);
    assert!(friendly.to_lowercase().contains("not found"));

    let (mut tracker, first) = DownloadTracker::begin("missing-model", None);
    assert!(!first.done);
    let ev = tracker.fail(friendly.clone(), Some("Download failed".to_string()));
    assert!(ev.done);
    assert_eq!(ev.stage, DownloadStage::Error);
    assert_eq!(ev.stage.label(), "error");
    assert_eq!(ev.error.as_deref(), Some(friendly.as_str()));
}

#[test]
fn cached_artifacts_report_ready_at_once() {
    let (tracker, ev) = DownloadTracker::ready_immediately("base");
    assert!(tracker.finished);
    assert!(ev.done);
    assert_eq!(ev.stage, DownloadStage::Ready);
    assert_eq!(ev.stage.label(), "ready");
    assert_eq!(ev.percent, Some(100));
}

#[test]
fn download_errors_map_to_friendly_messages() {
    assert_eq!(
        to_user_facing_download_error("connection timed out"),
        "Download timed out. Please check your connection and retry."
    );
    assert_eq!(
        to_user_facing_download_error("DNS failure"),
        "Network error while downloading model. Check internet access and retry."
    );
    assert_eq!(
        to_user_facing_download_error("Permission denied (os error 13)"),
        "OpenWispr cannot write model files. Check folder permissions."
    );
    assert_eq!(
        to_user_facing_download_error("No space left on device"),
        "Not enough disk space to download this model."
    );
    assert_eq!(
        to_user_facing_download_error("status 404"),
        "Model artifact not found on the remote host. Try again later."
    );
    assert_eq!(
        to_user_facing_download_error("weird failure"),
        "Model download failed: weird failure"
    );
}

#[test]
fn llm_download_errors_map_to_friendly_messages() {
    assert_eq!(
        to_user_facing_llm_download_error("request timeout"),
        "LLM model download timed out. Please retry."
    );
    assert_eq!(
        to_user_facing_llm_download_error("network unreachable"),
        "Network error while downloading LLM model."
    );
    assert_eq!(
        to_user_facing_llm_download_error("disk full"),
        "Not enough disk space for the selected LLM model."
    );
    assert_eq!(
        to_user_facing_llm_download_error("odd"),
        "LLM download failed: odd"
    );
}

#[test]
fn mlx_setup_walks_its_stages_in_order() {
    type S = DownloadStage;
    let events = mlx_setup_events("animaslabs/parakeet-tdt-0.6b-v3-mlx-8bit");
    let shape: Vec<(S, Option<u8>, bool)> =
        events.iter().map(|e| (e.stage, e.percent, e.done)).collect();
    assert_eq!(
        shape,
        vec![
            (S::Prepare, Some(0), false),
            (S::RuntimeCheck, Some(10), false),
            (S::RuntimeCheck, Some(25), false),
            (S::Download, Some(40), false),
            (S::Download, Some(90), false),
        ]
    );
    for e in &events {
        assert_eq!(e.model_name, "animaslabs/parakeet-tdt-0.6b-v3-mlx-8bit");
        assert!(e.error.is_none());
    }
}

#[test]
fn transducer_file_events_report_overall_progress() {
    let e = sherpa_file_event("sherpa-onnx/parakeet-tdt-0.6b-v3-int8", 0, 4);
    assert_eq!(e.percent, Some(0));
    assert!(!e.done);
    let e = sherpa_file_event("sherpa-onnx/parakeet-tdt-0.6b-v3-int8", 3, 4);
    assert_eq!(e.percent, Some(75));
}
