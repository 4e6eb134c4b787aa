use openwispr::registry::{
    compact_python_error, converted_model_path, get_model_cache_dir, is_mlx_model_name,
    is_mlx_whisper_model_name, is_sherpa_model_name, last_nonempty_line, looks_like_model_dir,
    looks_like_model_path, marker_file_path, mlx_cache_dir, model_filename, resolve_model_path,
    resolve_model_ref, sanitize_model_ref, sherpa_cache_dir, sherpa_download_url, sherpa_files,
    sherpa_model_root_dir, venv_python_bin, available_models, delete_model_target,
    DeleteTarget, ModelResolution,
};
use openwispr::stt::SttConfig;

#[test]
fn model_filename_maps_named_models() {
    assert_eq!(model_filename("base"), "ggml-base.bin");
    assert_eq!(model_filename("base.en"), "ggml-base.en.bin");
    assert_eq!(model_filename("small"), "ggml-small.bin");
}

#[test]
fn model_filename_preserves_existing_bin_name() {
    assert_eq!(model_filename("ggml-custom.bin"), "ggml-custom.bin");
}

#[test]
fn model_name_predicates_match_the_registered_models() {
    assert!(is_sherpa_model_name("sherpa-onnx/parakeet-tdt-0.6b-v3-int8"));
    assert!(!is_sherpa_model_name("base"));
    assert!(is_mlx_model_name("animaslabs/parakeet-tdt-0.6b-v3-mlx-8bit"));
    assert!(is_mlx_whisper_model_name("Oriserve/Whisper-Hindi2Hinglish-Apex"));
    assert!(!is_mlx_model_name("Oriserve/Whisper-Hindi2Hinglish-Apex"));
}

#[test]
fn path_like_names_are_recognised() {
    assert!(looks_like_model_path("models/ggml-base.bin"));
    assert!(looks_like_model_path("model.gguf"));
    assert!(looks_like_model_path("c:\\models\\x"));
    assert!(!looks_like_model_path("base.en"));
    assert!(looks_like_model_dir("some/dir"));
    assert!(looks_like_model_dir("encoder.onnx"));
    assert!(looks_like_model_dir("tokens.txt"));
    assert!(!looks_like_model_dir("base"));
}

#[test]
fn cache_dir_prefers_the_override() {
    let r = get_model_cache_dir(Some("/custom".to_string()), None, Some("/home/u".to_string()));
    assert_eq!(r.unwrap(), "/custom");
    let r = get_model_cache_dir(Some("   ".to_string()), None, Some("/home/u".to_string()));
    assert_eq!(r.unwrap(), "/home/u/.cache/openwispr/models");
    // On Windows the per-user data directory wins over the home layout.
    let r = get_model_cache_dir(
        None,
        Some("C:/Users/u/AppData/Local".to_string()),
        Some("/home/u".to_string()),
    );
    assert_eq!(r.unwrap(), "C:/Users/u/AppData/Local/OpenWispr/models");
    let r = get_model_cache_dir(None, None, None);
    assert!(r.is_err());
}

#[test]
fn missing_model_becomes_a_download_order() {
    let config = SttConfig {
        model_name: "base".to_string(),
        model_path: None,
        language: None,
        task: openwispr::stt::TranscriptionTask::Transcribe,
    };
    let r = resolve_model_path(&config, "/nonexistent-cache-dir-for-tests").unwrap();
    match r {
        ModelResolution::NeedsDownload { url, dest, tmp } => {
            assert_eq!(
                url,
                "https://huggingface.co/ggerganov/whisper.cpp/resolve/main/ggml-base.bin"
            );
            assert_eq!(dest, "/nonexistent-cache-dir-for-tests/ggml-base.bin");
            assert_eq!(tmp, "/nonexistent-cache-dir-for-tests/ggml-base.bin.download");
        }
        other => panic!("expected a download order, got {:?}", other),
    }
}

#[test]
fn explicit_missing_path_is_refused() {
    let config = SttConfig {
        model_name: "base".to_string(),
        model_path: Some("/nonexistent-model-file.bin".to_string()),
        language: None,
        task: openwispr::stt::TranscriptionTask::Transcribe,
    };
    assert!(resolve_model_path(&config, "/tmp-unused").is_err());
}

#[test]
fn whisper_catalogue_lists_ten_models() {
    let names = available_models();
    assert_eq!(names.len(), 10);
    assert_eq!(names[0], "tiny");
    assert_eq!(names[2], "base");
    assert_eq!(names[9], "large-v3");
}

#[test]
fn sherpa_layout_is_fixed() {
    let files = sherpa_files();
    assert_eq!(files.len(), 4);
    assert_eq!(files[0].0, "encoder.int8.onnx");
    assert_eq!(files[0].1, "encoder-int8.onnx");
    assert_eq!(files[3].0, "tokens.txt");
    assert_eq!(files[3].1, "vocab.txt");
    assert_eq!(sherpa_cache_dir("/cache"), "/cache/sherpa-onnx");
    assert_eq!(
        sherpa_model_root_dir("/cache"),
        "/cache/sherpa-onnx/parakeet-tdt-0.6b-v3-onnx-int8"
    );
    assert_eq!(
        sherpa_download_url("vocab.txt"),
        "https://huggingface.co/nasedkinpv/parakeet-tdt-0.6b-v3-onnx-int8/resolve/main/vocab.txt"
    );
}

#[test]
fn mlx_reference_resolution_and_layout() {
    let config = SttConfig {
        model_name: "animaslabs/parakeet-tdt-0.6b-v3-mlx-8bit".to_string(),
        model_path: None,
        language: None,
        task: openwispr::stt::TranscriptionTask::Transcribe,
    };
    assert_eq!(
        resolve_model_ref(&config).unwrap(),
        "animaslabs/parakeet-tdt-0.6b-v3-mlx-8bit"
    );
    let plain = SttConfig {
        model_name: "base".to_string(),
        model_path: None,
        language: None,
        task: openwispr::stt::TranscriptionTask::Transcribe,
    };
    assert!(resolve_model_ref(&plain).is_err());
    assert_eq!(sanitize_model_ref("a/b c.d-e_f"), "a-b-c.d-e_f");
    assert_eq!(mlx_cache_dir("/cache"), "/cache/mlx");
    assert_eq!(venv_python_bin("/cache/mlx"), "/cache/mlx/.venv/bin/python3");
    assert_eq!(
        marker_file_path("animaslabs/parakeet-tdt-0.6b-v3-mlx-8bit", "/cache/mlx"),
        "/cache/mlx/.downloaded/animaslabs-parakeet-tdt-0.6b-v3-mlx-8bit/ready"
    );
    assert_eq!(
        converted_model_path("a/b", "/cache/mlx"),
        "/cache/mlx/converted/a-b"
    );
}

#[test]
fn python_errors_are_compacted_to_their_first_line() {
    assert_eq!(compact_python_error(b"  \n\nTraceback: boom\nmore"), "Traceback: boom");
    assert_eq!(compact_python_error(b""), "unknown Python error");
    assert_eq!(compact_python_error(b" \n  \n"), "unknown Python error");
    let long = "x".repeat(400);
    let compacted = compact_python_error(long.as_bytes());
    assert_eq!(compacted.chars().count(), 223);
    assert!(compacted.ends_with("..."));
}

#[test]
fn transcripts_are_read_from_the_last_meaningful_line() {
    assert_eq!(last_nonempty_line(b"loading model\nhello world\n\n"), "hello world");
    assert_eq!(last_nonempty_line(b"\n \n"), "");
    assert_eq!(last_nonempty_line(b"only line"), "only line");
}

#[test]
fn the_model_list_names_all_backends() {
    let models = openwispr::registry::list_models("/nonexistent-cache-dir-for-tests", true);
    assert_eq!(models.len(), 12);
    assert_eq!(models[0].name, "tiny");
    assert_eq!(models[0].runtime, "whisper.cpp");
    assert!(models[0].can_download);
    assert!(!models[0].downloaded);
    assert_eq!(models[10].name, "sherpa-onnx/parakeet-tdt-0.6b-v3-int8");
    assert_eq!(models[10].runtime, "sherpa-onnx");
    assert_eq!(models[10].note.as_deref(), Some("NVIDIA Parakeet TDT v3 int8"));
    assert_eq!(models[11].runtime, "mlx-parakeet");
    let without_mlx = openwispr::registry::list_models("/nonexistent-cache-dir-for-tests", false);
    assert_eq!(without_mlx.len(), 11);
}

#[test]
fn the_active_model_cannot_be_deleted() {
    let err = delete_model_target("base", "base", "/cache").unwrap_err();
    assert_eq!(
        err,
        "Cannot delete the currently active model. Please select a different model first."
    );
    assert_eq!(
        delete_model_target("small", "base", "/cache").unwrap(),
        DeleteTarget::File("/cache/ggml-small.bin".to_string())
    );
    assert_eq!(
        delete_model_target("sherpa-onnx/parakeet-tdt-0.6b-v3-int8", "base", "/cache").unwrap(),
        DeleteTarget::Directory("/cache/sherpa-onnx/parakeet-tdt-0.6b-v3-int8".to_string())
    );
}

#[test]
fn the_generic_platform_names_itself() {
    assert_eq!(openwispr::platform::platform_name(), "generic-platform");
}
