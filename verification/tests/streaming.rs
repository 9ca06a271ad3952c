//! Streams: flags, encoders, settings that are kept, and the health of the machine.
use atem_ip_patchbay::ffmpeg_path::available_encoders;
use atem_ip_patchbay::shell::parse_extra_flags;
use atem_ip_patchbay::state::EncoderState;
use atem_ip_patchbay::state_persist::{PersistedTileState, PERSIST_VERSION};
use atem_ip_patchbay::system_monitor::{compute_status, HealthStatus, Percent};

/// A load in whole percent.
fn load(n: u32) -> Percent {
    Percent { whole: n, shown: n }
}

#[test]
fn parses_typical_encoders_output() {
    let sample = "\
Encoders:
 V..... = Video
 A..... = Audio
 S..... = Subtitle
 ------
 V..... libx264              libx264 H.264 / AVC / MPEG-4 AVC ...
 V....D h264_nvenc           NVIDIA NVENC H.264 encoder
 V....D hevc_videotoolbox    VideoToolbox H.265 Encoder
 A..... aac                  AAC (Advanced Audio Coding)
";
    assert_eq!(
        available_encoders(sample),
        vec!["libx264", "h264_nvenc", "hevc_videotoolbox"]
    );
}

#[test]
fn round_trip_preserves_fields() {
    let p = PersistedTileState {
        version: PERSIST_VERSION,
        source_id: Some("ndi".into()),
        ndi_source_name: Some("Camera 1".into()),
        destination_type: Some("decklink".into()),
        decklink_device_name: Some("DeckLink Studio 4K".into()),
        decklink_format_code: Some("Hp29".into()),
        audio_mode: Some("auto".into()),
        auto_reconnect: Some(true),
        ..Default::default()
    };
    let mut encoder = EncoderState::new();
    assert!(p.restore(&mut encoder));
    let back = PersistedTileState::from_encoder(&encoder);
    assert_eq!(back.source_id.as_deref(), Some("ndi"));
    assert_eq!(back.ndi_source_name.as_deref(), Some("Camera 1"));
    assert_eq!(back.decklink_device_name.as_deref(), Some("DeckLink Studio 4K"));
    assert_eq!(back.decklink_format_code.as_deref(), Some("Hp29"));
    assert_eq!(back.audio_mode.as_deref(), Some("auto"));
    assert_eq!(back.auto_reconnect, Some(true));
}

#[test]
fn version_mismatch_ignored_via_load() {
    let p = PersistedTileState {
        version: 999,
        ..Default::default()
    };
    assert_ne!(p.version, PERSIST_VERSION);
    let mut encoder = EncoderState::new();
    assert!(!p.restore(&mut encoder));
}

#[test]
fn parses_simple_flags() {
    assert_eq!(
        parse_extra_flags("-tune zerolatency -profile:v high"),
        vec!["-tune", "zerolatency", "-profile:v", "high"]
    );
}

#[test]
fn parses_quoted_strings() {
    assert_eq!(
        parse_extra_flags(r#"-x264-params "rc-lookahead=20:aq-mode=2""#),
        vec!["-x264-params", "rc-lookahead=20:aq-mode=2"]
    );
}

#[test]
fn parses_escapes() {
    assert_eq!(
        parse_extra_flags(r#"foo bar\ baz qux"#),
        vec!["foo", "bar baz", "qux"]
    );
}

#[test]
fn empty_returns_empty() {
    assert!(parse_extra_flags("").is_empty());
    assert!(parse_extra_flags("   \t\n").is_empty());
}

#[test]
fn green_at_low_load() {
    let mut streak = 0;
    let (s, w) = compute_status(load(20), load(30), &mut streak);
    assert_eq!(s, HealthStatus::Green);
    assert!(w.is_none());
}

#[test]
fn yellow_at_moderate_cpu() {
    let mut streak = 0;
    let (s, _) = compute_status(load(75), load(30), &mut streak);
    assert_eq!(s, HealthStatus::Yellow);
}

#[test]
fn yellow_at_brief_cpu_spike() {
    let mut streak = 0;
    let (s, _) = compute_status(load(95), load(30), &mut streak);
    assert_eq!(s, HealthStatus::Yellow);
    assert_eq!(streak, 1);
}

#[test]
fn red_after_sustained_cpu() {
    let mut streak = 0;
    for _ in 0..3 {
        let _ = compute_status(load(95), load(30), &mut streak);
    }
    let (s, _) = compute_status(load(95), load(30), &mut streak);
    assert_eq!(s, HealthStatus::Red);
}

#[test]
fn red_immediately_at_high_memory() {
    let mut streak = 0;
    let (s, _) = compute_status(load(50), load(90), &mut streak);
    assert_eq!(s, HealthStatus::Red);
}

#[test]
fn cpu_streak_resets_after_drop() {
    let mut streak = 0;
    let _ = compute_status(load(95), load(30), &mut streak);
    let _ = compute_status(load(95), load(30), &mut streak);
    assert_eq!(streak, 2);
    let _ = compute_status(load(40), load(30), &mut streak);
    assert_eq!(streak, 0);
}
