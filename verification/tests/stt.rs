use openwispr::decode::{context_attempts, optimal_threads, preferred_backend};
use openwispr::llm::{
    get_model_path, is_model_downloaded, list_models, llm_download_url, llm_model_cache_dir,
};
use openwispr::registry::validate_active_model;
use openwispr::stt::{
    assemble_transcription, AudioFormat, FallbackAdapter, RawSegment, SttConfig, SttError,
    TranscriptionTask,
};

#[test]
fn audio_format_defaults_to_decoder_shape() {
    let f = AudioFormat::default();
    assert_eq!(f.sample_rate, 16000);
    assert_eq!(f.channels, 1);
    assert_eq!(f.bits_per_sample, 16);
}

#[test]
fn stt_config_defaults_to_the_base_model() {
    let c = SttConfig::default();
    assert_eq!(c.model_name, "base");
    assert!(c.model_path.is_none());
    assert!(c.language.is_none());
    assert_eq!(c.task, TranscriptionTask::Transcribe);
}

#[test]
fn transcripts_are_assembled_from_raw_segments() {
    let raw = vec![
        RawSegment { text: " Hello".to_string(), start_cs: 0, end_cs: 120 },
        RawSegment { text: "   ".to_string(), start_cs: 120, end_cs: 150 },
        RawSegment { text: " world. ".to_string(), start_cs: 150, end_cs: 230 },
    ];
    let t = assemble_transcription(&raw, Some("en".to_string()));
    // The text is the concatenation of the raw texts, trimmed.
    assert_eq!(t.text, "Hello    world.");
    // Blank segments are dropped; kept segments carry trimmed text and
    // their raw centisecond times.
    assert_eq!(t.segments.len(), 2);
    assert_eq!(t.segments[0].text, "Hello");
    assert_eq!(t.segments[0].start_cs, 0);
    assert_eq!(t.segments[0].end_cs, 120);
    assert_eq!(t.segments[1].text, "world.");
    assert_eq!(t.segments[1].start_cs, 150);
    assert_eq!(t.language.as_deref(), Some("en"));
    assert!(t.confidence_milli.is_none());
    assert!(!t.is_empty_result());
}

#[test]
fn blank_decodes_count_as_empty_results() {
    let raw = vec![RawSegment { text: "  \n ".to_string(), start_cs: 0, end_cs: 50 }];
    let t = assemble_transcription(&raw, None);
    assert_eq!(t.text, "");
    assert!(t.segments.is_empty());
    assert!(t.is_empty_result());
}

#[test]
fn stt_errors_describe_themselves() {
    assert_eq!(
        SttError::ModelNotFound("base".to_string()).message(),
        "Model not found: base"
    );
    assert_eq!(
        SttError::TranscriptionFailed("x".to_string()).message(),
        "Transcription failed: x"
    );
    assert_eq!(SttError::AudioError("y".to_string()).message(), "Audio processing error: y");
    assert_eq!(SttError::ModelLoadError("z".to_string()).message(), "Model loading error: z");
    assert_eq!(SttError::UnsupportedPlatform.message(), "Unsupported platform");
}

#[test]
fn the_fallback_adapter_accepts_config_and_refuses_decodes() {
    let mut adapter = FallbackAdapter::new();
    assert!(adapter.initialize(SttConfig::default()).is_ok());
    let err = adapter.transcribe(&AudioFormat::default()).unwrap_err();
    assert!(matches!(err, SttError::TranscriptionFailed(_)));
    assert!(!adapter.is_model_available("base"));
    assert!(adapter.available_models().is_empty());
    assert!(adapter.current_model().is_none());
}

#[test]
fn gpu_preference_follows_platform_and_architecture() {
    assert_eq!(preferred_backend("macos", "aarch64"), (true, "metal".to_string()));
    assert_eq!(preferred_backend("macos", "x86_64"), (false, "cpu".to_string()));
    assert_eq!(preferred_backend("windows", "x86_64"), (true, "vulkan".to_string()));
    assert_eq!(preferred_backend("linux", "x86_64"), (false, "cpu".to_string()));
}

#[test]
fn decoder_threads_cap_at_eight_with_a_floor_of_four() {
    assert_eq!(optimal_threads(Some(2)), 4);
    assert_eq!(optimal_threads(Some(6)), 6);
    assert_eq!(optimal_threads(Some(8)), 8);
    assert_eq!(optimal_threads(Some(64)), 8);
    assert_eq!(optimal_threads(None), 4);
}

#[test]
fn llm_catalogue_paths_and_urls_are_fixed() {
    let p = get_model_path("SmolLM2-135M-Instruct-Q4_K_M", "/cache").unwrap();
    assert_eq!(p, "/cache/SmolLM2-135M-Instruct-Q4_K_M.gguf");
    assert!(get_model_path("unknown-model", "/cache").is_err());
    assert!(!is_model_downloaded("unknown-model", "/cache"));
    assert!(!is_model_downloaded(
        "SmolLM2-135M-Instruct-Q4_K_M",
        "/nonexistent-cache-dir-for-tests"
    ));
    let models = list_models("/nonexistent-cache-dir-for-tests");
    assert_eq!(models.len(), 3);
    assert_eq!(models[0].name, "SmolLM2-135M-Instruct-Q4_K_M");
    assert_eq!(models[0].size_mb, 80);
    assert_eq!(models[0].description, "SmolLM2 135M quantized model");
    assert!(!models[0].downloaded);
    assert_eq!(
        llm_download_url(&models[2].hf_repo, &models[2].filename),
        "https://huggingface.co/bartowski/SmolLM2-1.7B-Instruct-GGUF/resolve/main/SmolLM2-1.7B-Instruct-Q5_K_M.gguf"
    );
}

#[test]
fn prompts_wrap_the_transcript() {
    let p = openwispr::prompts::quick_format_prompt("hi there friend");
    assert!(p.contains("Input: \"hi there friend\""));
    assert!(p.starts_with("Clean up this transcribed speech:"));
    assert!(p.ends_with("Output (cleaned text only, no extra explanation):"));
    let c = openwispr::prompts::create_filler_removal_prompt("some text");
    assert!(c.ends_with("some text"));
}

#[test]
fn only_downloaded_and_supported_models_become_active() {
    assert!(validate_active_model(true, false, false).is_ok());
    assert!(validate_active_model(true, true, true).is_ok());
    assert_eq!(
        validate_active_model(false, false, true).unwrap_err(),
        "Model must be downloaded before selection"
    );
    assert_eq!(
        validate_active_model(true, true, false).unwrap_err(),
        "MLX models are only supported on macOS"
    );
}

#[test]
fn a_failed_gpu_load_falls_back_to_the_cpu() {
    assert_eq!(context_attempts(true), vec![true, false]);
    assert_eq!(context_attempts(false), vec![false]);
}

#[test]
fn llm_cache_dir_follows_override_then_platform_paths() {
    let r = llm_model_cache_dir(Some("/custom-llm".to_string()), None, None);
    assert_eq!(r.unwrap(), "/custom-llm");
    let r = llm_model_cache_dir(
        None,
        Some("C:/Users/u/AppData/Local".to_string()),
        Some("/home/u".to_string()),
    );
    assert_eq!(r.unwrap(), "C:/Users/u/AppData/Local/OpenWispr/llm-models");
    let r = llm_model_cache_dir(None, None, Some("/home/u".to_string()));
    assert_eq!(r.unwrap(), "/home/u/.cache/openwispr/llm-models");
    assert!(llm_model_cache_dir(None, None, None).is_err());
}
