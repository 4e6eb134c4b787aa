use openwispr::decode::{DecodePlan, DecodeProfile, DecodeRequest};
use openwispr::hotkey::{HotkeyAction, HotkeyMachine, KeyEvent};
use openwispr::inject::{paste_plan, InjectStep};
use openwispr::llm::LlmError;
use openwispr::session::{mute_decision, unmute_decision, Orchestrator, SessionStatus, StopOutcome, UiEvent};
use openwispr::shortcuts::parse_shortcut;
use openwispr::stt::{AudioFormat, SttConfig, TranscriptionTask};
use openwispr::textproc::{FormattingMode, LlmAdapter, TextProcessor};

struct FixedAdapter(String);

impl LlmAdapter for FixedAdapter {
    fn load_model(&mut self, _model_path: &str) -> Result<(), LlmError> {
        Ok(())
    }

    fn generate_response(&self, _prompt: &str, _max_tokens: u32) -> Result<String, LlmError> {
        Ok(self.0.clone())
    }
}

fn stereo_48k() -> AudioFormat {
    AudioFormat { sample_rate: 48000, channels: 2, bits_per_sample: 16 }
}

#[test]
fn happy_path_orders_events_and_pastes_the_formatted_text() {
    // Two seconds of 48 kHz stereo audio; the decoder says "hello world";
    // the post-formatter turns it into "Hello world.".
    let mut orch = Orchestrator::new();
    let mut events: Vec<UiEvent> = Vec::new();

    let (accepted, started) = orch.request_start(false, false, stereo_48k());
    assert!(accepted);
    events.extend(started);

    for _ in 0..12 {
        events.push(orch.on_audio_level(40).unwrap());
    }

    events.extend(orch.begin_stop());

    // The decoder hands back "hello world"; formatting produces the final
    // transcript.
    let decoded = "hello world";
    let processor = TextProcessor::new(
        Box::new(FixedAdapter("Hello world.".to_string())),
        FormattingMode::Smart,
    )
    .with_min_words(1);
    let formatted = processor.process(decoded).unwrap().formatted_text;
    assert_eq!(formatted, "Hello world.");

    // The injector pastes exactly that string.
    let plan = paste_plan(&formatted, true, false);
    assert!(plan.contains(&InjectStep::StageText));
    assert!(plan.contains(&InjectStep::PasteChord));

    events.extend(orch.finish_stop(StopOutcome::Completed {
        text: formatted.clone(),
        language: Some("en".to_string()),
    }));

    // listening, then at least ten audio levels, then processing, then the
    // final result, then idle.
    assert_eq!(
        events[0],
        UiEvent::Status { status: SessionStatus::Listening, error: None }
    );
    let levels = events
        .iter()
        .filter(|e| matches!(e, UiEvent::AudioLevel(_)))
        .count();
    assert!(levels >= 10);
    let processing = events
        .iter()
        .position(|e| *e == UiEvent::Status { status: SessionStatus::Processing, error: None })
        .unwrap();
    let result = events
        .iter()
        .position(|e| {
            matches!(e, UiEvent::TranscriptionResult { text, is_final: true, .. } if text == "Hello world.")
        })
        .unwrap();
    let idle = events
        .iter()
        .position(|e| *e == UiEvent::Status { status: SessionStatus::Idle, error: None })
        .unwrap();
    assert!(processing < result && result < idle);
    assert!(events.iter().rposition(|e| matches!(e, UiEvent::AudioLevel(_))).unwrap() < processing);
}

#[test]
fn silence_goes_straight_back_to_idle() {
    // Three seconds of near-silent audio: the buffer is discarded and no
    // result or paste happens.
    let mut orch = Orchestrator::new();
    let mut events: Vec<UiEvent> = Vec::new();
    let (accepted, started) = orch.request_start(false, false, stereo_48k());
    assert!(accepted);
    events.extend(started);
    events.extend(orch.begin_stop());
    events.extend(orch.finish_stop(StopOutcome::Silent));

    let statuses: Vec<&UiEvent> = events.iter().collect();
    assert_eq!(
        statuses,
        vec![
            &UiEvent::Status { status: SessionStatus::Listening, error: None },
            &UiEvent::Status { status: SessionStatus::Processing, error: None },
            &UiEvent::Status { status: SessionStatus::Idle, error: None },
        ]
    );
    assert!(!events.iter().any(|e| matches!(e, UiEvent::TranscriptionResult { .. })));
}

#[test]
fn at_most_one_session_runs_at_a_time() {
    let mut orch = Orchestrator::new();
    let (first, _) = orch.request_start(false, false, AudioFormat::default());
    assert!(first);
    // A second start while the session lives is refused and changes
    // nothing.
    let (second, events) = orch.request_start(false, false, AudioFormat::default());
    assert!(!second);
    assert!(events.is_empty());
    assert_eq!(orch.status, SessionStatus::Listening);
    // After the session ends, the next start is accepted.
    orch.begin_stop();
    orch.finish_stop(StopOutcome::Silent);
    let (third, _) = orch.request_start(false, false, AudioFormat::default());
    assert!(third);
}

#[test]
fn failures_end_in_an_error_status() {
    let mut orch = Orchestrator::new();
    orch.request_start(false, false, AudioFormat::default());
    orch.begin_stop();
    let events = orch.finish_stop(StopOutcome::Failed {
        message: "Transcription failed: decoder context lost".to_string(),
    });
    assert_eq!(events.len(), 1);
    assert!(matches!(
        &events[0],
        UiEvent::Status { status: SessionStatus::Error, error: Some(m) }
            if m.contains("Transcription failed")
    ));
}

fn fn_space_machine() -> HotkeyMachine {
    let push = parse_shortcut("fn").unwrap();
    let hands_free = parse_shortcut("fn+space").unwrap();
    HotkeyMachine::new(push, hands_free)
}

fn flags(fn_down: bool) -> KeyEvent {
    KeyEvent::Flags {
        fn_down,
        ctrl_down: false,
        shift_down: false,
        alt_down: false,
        meta_down: false,
    }
}

#[test]
fn hands_free_toggle_spans_one_session() {
    let mut machine = fn_space_machine();
    let mut actions: Vec<HotkeyAction> = Vec::new();

    // Press fn, then space: the hands-free combo toggles dictation on.
    let out = machine.on_event(&flags(true));
    if let Some(a) = out.action {
        actions.push(a);
    }
    let out = machine.on_event(&KeyEvent::KeyDown { token: "space".to_string() });
    if let Some(a) = out.action {
        actions.push(a);
    }
    assert!(machine.is_hands_free);

    // Release both keys: hands-free keeps recording across the release.
    let out = machine.on_event(&KeyEvent::KeyUp { token: "space".to_string() });
    if let Some(a) = out.action {
        actions.push(a);
    }
    let out = machine.on_event(&flags(false));
    if let Some(a) = out.action {
        actions.push(a);
    }
    assert!(machine.is_recording_active);

    // Press fn+space again: the combo toggles dictation off.
    let out = machine.on_event(&flags(true));
    if let Some(a) = out.action {
        actions.push(a);
    }
    let out = machine.on_event(&KeyEvent::KeyDown { token: "space".to_string() });
    if let Some(a) = out.action {
        actions.push(a);
    }
    assert!(!machine.is_hands_free);
    // Push-to-talk keeps the session alive while fn is still held; the
    // session ends when the keys are finally released.
    let out = machine.on_event(&KeyEvent::KeyUp { token: "space".to_string() });
    if let Some(a) = out.action {
        actions.push(a);
    }
    let out = machine.on_event(&flags(false));
    if let Some(a) = out.action {
        actions.push(a);
    }

    // Exactly one start and one stop: one session spanning both presses,
    // hence exactly one final result.
    assert_eq!(actions.len(), 2);
    assert!(matches!(actions[0], HotkeyAction::StartRecording));
    assert!(matches!(actions[1], HotkeyAction::StopRecording));

    let mut orch = Orchestrator::new();
    let mut results = 0;
    for action in actions {
        match action {
            HotkeyAction::StartRecording => {
                let (accepted, _) = orch.request_start(true, false, AudioFormat::default());
                assert!(accepted);
            }
            HotkeyAction::StopRecording => {
                orch.begin_stop();
                let events = orch.finish_stop(StopOutcome::Completed {
                    text: "one final result".to_string(),
                    language: None,
                });
                results += events
                    .iter()
                    .filter(|e| matches!(e, UiEvent::TranscriptionResult { is_final: true, .. }))
                    .count();
            }
        }
    }
    assert_eq!(results, 1);
}

#[test]
fn releasing_fn_clears_lingering_companion_keys() {
    let mut machine = fn_space_machine();
    machine.on_event(&flags(true));
    machine.on_event(&KeyEvent::KeyDown { token: "space".to_string() });
    // Fn released while space is still held: the pressed set is cleared,
    // so dictation does not restart from the stale key.
    machine.on_event(&flags(false));
    assert!(machine.keys.pressed_keys.is_empty());
}

struct FakeDecoder {
    calls: Vec<DecodeRequest>,
    empty_until_permissive: bool,
}

impl FakeDecoder {
    fn decode(&mut self, request: DecodeRequest) -> String {
        let text = if self.empty_until_permissive
            && request.profile == DecodeProfile::Primary
        {
            "".to_string()
        } else {
            "permissive transcript".to_string()
        };
        self.calls.push(request);
        text
    }
}

#[test]
fn empty_primary_decode_falls_back_to_the_permissive_profile() {
    // The primary profile returns empty text, so the plan re-runs the
    // decoder with the permissive settings, whose result stands.
    let config = SttConfig {
        model_name: "base".to_string(),
        model_path: None,
        language: Some("en".to_string()),
        task: TranscriptionTask::Transcribe,
    };
    let mut plan = DecodePlan::new(&config);
    let mut decoder = FakeDecoder { calls: Vec::new(), empty_until_permissive: true };

    let mut last_text = String::new();
    let mut previous_empty = false;
    while let Some(request) = plan.next_request(previous_empty) {
        last_text = decoder.decode(request);
        previous_empty = last_text.trim().is_empty();
    }

    // The language was pinned, so the second call went straight to the
    // permissive profile.
    assert_eq!(decoder.calls.len(), 2);
    assert_eq!(decoder.calls[0].profile, DecodeProfile::Primary);
    assert_eq!(decoder.calls[0].language.as_deref(), Some("en"));
    assert_eq!(decoder.calls[1].profile, DecodeProfile::PermissiveFallback);
    assert_eq!(last_text, "permissive transcript");
}

#[test]
fn unpinned_language_retries_with_auto_detection_first() {
    let config = SttConfig {
        model_name: "base".to_string(),
        model_path: None,
        language: None,
        task: TranscriptionTask::Transcribe,
    };
    let mut plan = DecodePlan::new(&config);
    let mut decoder = FakeDecoder { calls: Vec::new(), empty_until_permissive: true };
    let mut previous_empty = false;
    while let Some(request) = plan.next_request(previous_empty) {
        let text = decoder.decode(request);
        previous_empty = text.trim().is_empty();
    }
    assert_eq!(decoder.calls.len(), 3);
    assert_eq!(decoder.calls[0].language.as_deref(), Some("en"));
    assert_eq!(decoder.calls[1].profile, DecodeProfile::Primary);
    assert_eq!(decoder.calls[1].language, None);
    assert_eq!(decoder.calls[2].profile, DecodeProfile::PermissiveFallback);
}

#[test]
fn nonempty_primary_decode_ends_the_plan() {
    let config = SttConfig {
        model_name: "base".to_string(),
        model_path: None,
        language: Some("de".to_string()),
        task: TranscriptionTask::Transcribe,
    };
    let mut plan = DecodePlan::new(&config);
    let first = plan.next_request(false).unwrap();
    assert_eq!(first.language.as_deref(), Some("de"));
    assert!(plan.next_request(false).is_none());
}

#[test]
fn system_mute_is_restored_only_when_recording_muted_it() {
    // Muting enabled on an unmuted system: mute now, unmute afterwards.
    let mut slot: Option<bool> = None;
    assert!(mute_decision(true, false, &mut slot));
    assert_eq!(slot, Some(false));
    assert!(unmute_decision(&mut slot));
    assert!(slot.is_none());
    // Already muted by the user: leave it muted afterwards.
    assert!(!mute_decision(true, true, &mut slot));
    assert!(!unmute_decision(&mut slot));
    // Muting disabled: nothing is remembered, nothing restored.
    assert!(!mute_decision(false, false, &mut slot));
    assert!(!unmute_decision(&mut slot));
}
