use openwispr::audio::{
    audio_devices_from_names, choose_input_device, downmix_len, ffmpeg_binary_candidates,
    ffmpeg_normalize_args, resampled_len, DeviceChoice,
};
use openwispr::inject::parse_frontmost_pid;

#[test]
fn ffmpeg_normalize_args_target_whisper_contract() {
    let args = ffmpeg_normalize_args("in.wav", "out.wav");
    assert!(args.iter().any(|arg| arg == "-ac"));
    assert!(args.iter().any(|arg| arg == "1"));
    assert!(args.iter().any(|arg| arg == "-ar"));
    assert!(args.iter().any(|arg| arg == "16000"));
    assert!(args.iter().any(|arg| arg == "-sample_fmt"));
    assert!(args.iter().any(|arg| arg == "s16"));
}

#[test]
fn parse_frontmost_pid_filters_invalid_values() {
    assert_eq!(parse_frontmost_pid(""), None);
    assert_eq!(parse_frontmost_pid("  \n"), None);
    assert_eq!(parse_frontmost_pid("-1"), None);
    assert_eq!(parse_frontmost_pid("0"), None);
    assert_eq!(parse_frontmost_pid("1234\n"), Some(1234));
}

#[test]
fn ffmpeg_candidates_per_platform_family() {
    let unix = ffmpeg_binary_candidates(false);
    assert_eq!(unix, vec!["ffmpeg", "ffmpeg-aarch64-apple-darwin"]);
    let win = ffmpeg_binary_candidates(true);
    assert_eq!(win.len(), 3);
    assert_eq!(win[0], "ffmpeg.exe");
}

#[test]
fn preprocessed_buffer_shape_is_fixed_by_the_rates() {
    // Three mono frames at 48 kHz resample to one sample at 16 kHz.
    assert_eq!(resampled_len(3, 48000, 16000), 1);
    // A second of 48 kHz audio lands at a third of the samples.
    assert_eq!(resampled_len(48000, 48000, 16000), 16000);
    // Equal rates pass through.
    assert_eq!(resampled_len(16000, 16000, 16000), 16000);
    // Never below one sample for nonempty input.
    assert_eq!(resampled_len(1, 48000, 16000), 1);
    // Rounded half up: 16000 input samples over the ratio 3 give 5333.
    assert_eq!(resampled_len(16000, 48000, 16000), 5333);
    assert_eq!(resampled_len(0, 48000, 16000), 0);
    // Stereo interleaved buffers downmix frame by frame.
    assert_eq!(downmix_len(6, 2), 3);
    assert_eq!(downmix_len(7, 2), 4);
    assert_eq!(downmix_len(0, 2), 0);
}

#[test]
fn input_device_choice_follows_preference_then_override_then_default() {
    let names = vec!["USB Mic".to_string(), "Built-in Audio".to_string()];
    let pref = Some("Built-in Audio".to_string());
    match choose_input_device(&pref, &None, &names, true) {
        DeviceChoice::Preferred(i) => assert_eq!(i, 1),
        other => panic!("expected the stored preference, got {:?}", other),
    }
    let env = Some(" usb ".to_string());
    match choose_input_device(&None, &env, &names, true) {
        DeviceChoice::EnvMatch(i) => assert_eq!(i, 0),
        other => panic!("expected the override match, got {:?}", other),
    }
    let env_bad = Some("webcam".to_string());
    assert!(matches!(
        choose_input_device(&None, &env_bad, &names, true),
        DeviceChoice::EnvNoMatch(_)
    ));
    match choose_input_device(&None, &None, &names, true) {
        DeviceChoice::SystemDefault { save_as_preference } => assert!(save_as_preference),
        other => panic!("expected the system default, got {:?}", other),
    }
    assert!(matches!(
        choose_input_device(&None, &None, &names, false),
        DeviceChoice::NoDevice
    ));
}

#[test]
fn devices_are_listed_under_their_names() {
    let names = vec!["A".to_string(), "B".to_string()];
    let devices = audio_devices_from_names(&names);
    assert_eq!(devices.len(), 2);
    assert_eq!(devices[0].id, "A");
    assert_eq!(devices[0].name, "A");
    assert_eq!(devices[1].name, "B");
}
