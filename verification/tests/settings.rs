//! The settings of an encoder, what a client sees of them, and what is kept.
use atem_ip_patchbay::settings::available_video_modes;
use atem_ip_patchbay::snapshot::{default_bitrate, video_dimensions};
use atem_ip_patchbay::state::{
    EncoderState, OverlaySettingsUpdate, RelaySettingsUpdate, SettingsUpdate, StreamStats,
};
use atem_ip_patchbay::state_persist::{tile_path, PersistedTileState};

const SERVICE: &str = r#"<service>
  <name>S</name><key>k1</key>
  <servers>
    <server><name>R</name><url>rtmp://r/live</url></server>
    <server><name>T</name><url>srt://t:1935</url></server>
  </servers>
  <profiles default="P">
    <profile><name>P</name>
      <config resolution="720p" fps="30" codec="H264">
        <bitrate>100</bitrate><audio-bitrate>1</audio-bitrate><keyframe-interval>1</keyframe-interval>
      </config>
      <config resolution="720p" fps="60" codec="H264">
        <bitrate>100</bitrate><audio-bitrate>2</audio-bitrate><keyframe-interval>1</keyframe-interval>
      </config>
    </profile>
    <profile><name>Empty</name></profile>
  </profiles>
</service>"#;

fn text(s: &str) -> Option<String> {
    Some(s.to_string())
}

#[test]
fn a_new_encoder_has_its_defaults() {
    let e = EncoderState::new();
    assert_eq!(e.video_mode, "1080p29.97");
    assert_eq!(e.srt_latency_us, 200_000);
    assert_eq!(e.relay_srt_latency_us, 200_000);
    assert_eq!(e.auto_reconnect_max_attempts, 12);
    assert_eq!(e.unique_id.len(), 32);
    assert_eq!(e.unique_id, e.unique_id.to_uppercase());
    assert_eq!(e.device_uuid.len(), 36);
    assert_ne!(EncoderState::new().device_uuid, e.device_uuid);
    let f = EncoderState::with_identity("ab-cd", "dev");
    assert_eq!(f.unique_id, "ABCD");
    assert_eq!(f.device_uuid, "dev");
}

#[test]
fn unknown_settings_are_ignored() {
    let mut e = EncoderState::new();
    e.apply_settings(&SettingsUpdate {
        video_mode: text("4320p60"),
        srt_mode: text("sender"),
        video_codec: text("av1"),
        audio_mode: text("loud"),
        destination_type: text("file"),
        video_encoder: text("libvpx"),
        audio_codec: text("mp3"),
        audio_sample_rate: Some(96_000),
        audio_channels: Some(6),
        current_service_name: text("none such"),
        omt_output_name: text("  "),
        decklink_pixel_format: text(" "),
        ..Default::default()
    });
    assert_eq!(e.video_mode, "1080p29.97");
    assert_eq!(e.srt_mode, "caller");
    assert_eq!(e.video_codec, "h265");
    assert_eq!(e.audio_mode, "auto");
    assert_eq!(e.destination_type, "atem");
    assert_eq!(e.video_encoder, "auto");
    assert_eq!(e.audio_codec, "aac");
    assert_eq!(e.audio_sample_rate, 48_000);
    assert_eq!(e.audio_channels, 2);
    assert_eq!(e.current_service_name, "");
    assert_eq!(e.omt_output_name, "ATEM Patchbay");
    assert_eq!(e.decklink_pixel_format, "uyvy422");
}

#[test]
fn known_settings_are_taken() {
    let mut e = EncoderState::new();
    e.apply_settings(&SettingsUpdate {
        video_mode: text("720p60"),
        srt_mode: text("rendezvous"),
        video_codec: text("h264"),
        video_encoder: text("hevc_nvenc"),
        audio_codec: text("aac_he_v2"),
        audio_sample_rate: Some(44_100),
        audio_channels: Some(1),
        audio_bitrate_kbps: Some(1000),
        audio_pan_l: Some(0),
        auto_reconnect_max_attempts: Some(500),
        encoder_extra_flags: text("  -tune film \n"),
        relay: Some(RelaySettingsUpdate { srt_port: Some(7), ..Default::default() }),
        overlay: Some(OverlaySettingsUpdate { title: text("Hi"), ..Default::default() }),
        ..Default::default()
    });
    assert_eq!(e.video_mode, "720p60");
    assert_eq!(e.srt_mode, "rendezvous");
    assert_eq!(e.video_codec, "h264");
    assert_eq!(e.video_encoder, "hevc_nvenc");
    assert_eq!(e.audio_codec, "aac_he_v2");
    assert_eq!(e.audio_sample_rate, 44_100);
    assert_eq!(e.audio_channels, 1);
    assert!(e.audio_output_mono);
    assert_eq!(e.audio_bitrate_kbps, 320);
    assert_eq!(e.audio_pan_l, 1);
    assert_eq!(e.auto_reconnect_max_attempts, 100);
    assert_eq!(e.encoder_extra_flags, "-tune film");
    assert_eq!(e.relay_srt_port, 7);
    assert_eq!(e.relay_rtmp_port, 1935);
    assert_eq!(e.overlay_title, "Hi");
    e.apply_settings(&SettingsUpdate { audio_bitrate_kbps: Some(0), ..Default::default() });
    assert_eq!(e.audio_bitrate_kbps, 0);
    e.apply_settings(&SettingsUpdate { audio_bitrate_kbps: Some(8), ..Default::default() });
    assert_eq!(e.audio_bitrate_kbps, 32);
}

#[test]
fn a_picked_service_brings_its_key() {
    let mut e = EncoderState::new();
    e.add_service_from_xml_text(SERVICE, false).unwrap();
    assert_eq!(e.stream_key, "");
    e.apply_settings(&SettingsUpdate {
        stream_key: text("mine"),
        current_service_name: text("S"),
        ..Default::default()
    });
    assert_eq!(e.current_service_name, "S");
    assert_eq!(e.stream_key, "mine");
    e.apply_settings(&SettingsUpdate { current_service_name: text("S"), ..Default::default() });
    assert_eq!(e.stream_key, "k1");
}

#[test]
fn modes_have_dimensions() {
    assert_eq!(video_dimensions("1080p59.94"), (1920, 1080, 60));
    assert_eq!(video_dimensions("1080p23.98"), (1920, 1080, 24));
    assert_eq!(video_dimensions("2160p25"), (3840, 2160, 25));
    assert_eq!(video_dimensions("720p50"), (1280, 720, 50));
    assert_eq!(video_dimensions("Auto"), (1920, 1080, 30));
    assert_eq!(video_dimensions("480p30"), (1920, 1080, 30));
    assert_eq!(available_video_modes().len(), 21);
}

#[test]
fn quality_levels_have_bitrates() {
    assert_eq!(default_bitrate("Streaming High", "1080p", 60), Some(9_000_000));
    assert_eq!(default_bitrate("Streaming Medium", "1080p", 60), Some(7_600_000));
    assert_eq!(default_bitrate("Streaming Low", "720p", 60), Some(2_250_000));
    assert_eq!(default_bitrate("Streaming Low", "720p", 25), Some(1_500_000));
    assert_eq!(default_bitrate("Streaming High", "1080p", 50), Some(9_000_000));
    assert_eq!(default_bitrate("Streaming Medium", "1080p", 24), Some(4_500_000));
    assert_eq!(default_bitrate("Streaming High", "2160p", 30), None);
    assert_eq!(default_bitrate("Streaming Low", "720p", 26), None);
    assert_eq!(default_bitrate("Streaming Low", "480p", 30), None);
    assert_eq!(default_bitrate("Other", "720p", 30), None);
}

#[test]
fn the_active_configuration_is_found() {
    let mut e = EncoderState::new();
    let c = e.resolve_active_config().unwrap();
    assert_eq!((c.resolution.as_str(), c.fps, c.bitrate), ("1080p", 30, 6_000_000));
    assert_eq!((c.codec.as_str(), c.audio_bitrate, c.keyframe_interval), ("H265", 128_000, 2));
    // An unknown quality level counts as the highest.
    e.quality_level = "Mine".to_string();
    assert_eq!(e.resolve_active_config().unwrap().bitrate, 6_000_000);
    e.video_mode = "2160p50".to_string();
    let c = e.resolve_active_config().unwrap();
    assert_eq!((c.resolution.as_str(), c.fps, c.bitrate), ("720p", 50, 6_000_000));
    e.video_mode = "2160p30".to_string();
    assert_eq!(e.resolve_active_config().unwrap().bitrate, 4_000_000);
    e.video_mode = "1080p25".to_string();
    assert_eq!(e.resolve_active_config().unwrap().bitrate, 6_000_000);
    e.add_service_from_xml_text(SERVICE, true).unwrap();
    // No configuration fits, so the one with the highest bitrate is taken: of two, the
    // last.
    assert_eq!(e.resolve_active_config().unwrap().audio_bitrate, 2);
    e.video_mode = "720p30".to_string();
    assert_eq!(e.resolve_active_config().unwrap().audio_bitrate, 1);
}

#[test]
fn the_active_destination_is_found() {
    let mut e = EncoderState::new();
    assert!(e.current_active_server().is_none());
    e.add_service_from_xml_text(SERVICE, true).unwrap();
    assert_eq!(e.current_active_server().unwrap().name, "T");
    e.current_server_name = "R".to_string();
    let d = e.current_active_server().unwrap();
    assert_eq!((d.url.as_str(), d.protocol.as_str()), ("rtmp://r/live", "rtmp"));
    e.current_server_name = "gone".to_string();
    assert_eq!(e.current_active_server().unwrap().name, "T");
    e.custom_url = "RTMPS://c/live".to_string();
    let d = e.current_active_server().unwrap();
    assert_eq!((d.name.as_str(), d.protocol.as_str()), ("Custom", "rtmps"));
    e.custom_url = "http://c".to_string();
    assert_eq!(e.current_active_server().unwrap().name, "T");
}

#[test]
fn durations_are_shown() {
    let mut s = StreamStats::default();
    assert_eq!(s.duration_string(99), "00:00:00:00");
    s.started_at = Some(10);
    assert_eq!(s.duration_string(10 + 86_400 * 3 + 3_600 * 4 + 60 * 5 + 6), "03:04:05:06");
    s.started_at = Some(0);
    assert_eq!(s.duration_string(86_400 * 100), "100:00:00:00");
}

#[test]
fn a_snapshot_shows_everything() {
    let mut e = EncoderState::new();
    let n = e.snapshot(0);
    assert_eq!(
        n.available_quality_levels,
        vec!["Streaming High", "Streaming Medium", "Streaming Low"]
    );
    assert_eq!(n.quality_options[1].bitrate, 4_500_000);
    assert_eq!(n.current_url, "");
    assert!(n.available_servers.is_empty());
    assert_eq!(n.stats.status, "Idle");
    assert!(!n.is_decklink());
    e.add_service_from_xml_text(SERVICE, true).unwrap();
    e.destination_type = "decklink".to_string();
    let n = e.snapshot(0);
    assert_eq!(n.available_services, vec!["S"]);
    assert_eq!(n.available_servers.len(), 2);
    assert_eq!(n.available_quality_levels, vec!["P", "Empty"]);
    assert_eq!(n.quality_options[0].bitrate, 100);
    assert_eq!(n.quality_options[1].bitrate, 0);
    assert_eq!(n.current_url, "srt://t:1935");
    assert_eq!(n.current_protocol, "srt");
    assert_eq!(n.active_config.as_ref().unwrap().bitrate, 100);
    assert!(n.is_decklink());
}

#[test]
fn kept_settings_come_back() {
    let mut a = EncoderState::new();
    a.apply_settings(&SettingsUpdate {
        video_mode: text("2160p60"),
        custom_url: text("srt://x:1"),
        label: text("Studio"),
        audio_channels: Some(1),
        auto_reconnect: Some(false),
        meters_enabled: Some(false),
        auto_reconnect_max_attempts: Some(0),
        srt_latency_us: Some(0),
        av_video_index: Some(-1),
        omt_source_name: text(""),
        ..Default::default()
    });
    let kept = PersistedTileState::from_encoder(&a);
    assert_eq!(kept.video_mode.as_deref(), Some("2160p60"));
    assert_eq!(kept.pipe_path.as_deref(), Some(""));
    assert_eq!(kept.auto_reconnect_max_attempts, Some(0));
    let mut b = EncoderState::new();
    b.omt_source_name = "Cam".to_string();
    b.av_video_index = 3;
    assert!(kept.restore(&mut b));
    assert_eq!(b.video_mode, "2160p60");
    assert_eq!(b.custom_url, "srt://x:1");
    assert_eq!(b.label, "Studio");
    assert_eq!(b.audio_channels, 1);
    assert!(!b.auto_reconnect);
    assert!(!b.meters_enabled);
    assert_eq!((b.auto_reconnect_max_attempts, b.srt_latency_us, b.av_video_index), (0, 0, -1));
    assert_eq!(b.omt_source_name, "");
    a.apply_settings(&SettingsUpdate {
        audio_output_mono: Some(true),
        audio_channels: Some(2),
        ..Default::default()
    });
    assert!(a.audio_output_mono);
    assert!(PersistedTileState::from_encoder(&a).restore(&mut b));
    assert_eq!((b.audio_output_mono, b.audio_channels), (true, 2));
    assert_eq!(tile_path(3), "multiview-tile-3.json");
}

#[test]
fn default_devices_are_taken() {
    let mut e = EncoderState::new();
    e.apply_default_devices(2, "Cam", -1, "");
    assert_eq!((e.av_video_index, e.av_video_name.as_str()), (2, "Cam"));
    assert_eq!((e.av_audio_index, e.av_audio_name.as_str()), (-1, ""));
    e.set_label("New");
    assert_eq!(e.label, "New");
}

#[test]
fn every_mode_can_be_streamed() {
    let mut e = EncoderState::new();
    let modes = e.snapshot(0).available_video_modes;
    assert_eq!(modes.len(), 21);
    for mode in modes {
        e.apply_settings(&SettingsUpdate { video_mode: Some(mode.clone()), ..Default::default() });
        let n = e.snapshot(0);
        assert_eq!(n.video_mode, mode);
        assert!(n.active_config.is_some());
        let names: Vec<&str> = n.quality_options.iter().map(|q| q.name.as_str()).collect();
        assert_eq!(names, ["Streaming High", "Streaming Medium", "Streaming Low"]);
        assert!(n.quality_options.iter().all(|q| q.bitrate > 0));
    }
}

#[test]
fn unknown_values_are_passed_over() {
    let mut a = EncoderState::with_identity("u", "d");
    let mut b = EncoderState::with_identity("u", "d");
    a.apply_settings(&SettingsUpdate {
        video_mode: text("480p30"),
        srt_mode: text("other"),
        video_codec: text("av1"),
        audio_mode: text("loud"),
        destination_type: text("tape"),
        video_encoder: text("mine"),
        audio_codec: text("mp3"),
        audio_sample_rate: Some(96_000),
        audio_channels: Some(6),
        label: text("New"),
        ..Default::default()
    });
    b.apply_settings(&SettingsUpdate { label: text("New"), ..Default::default() });
    assert_eq!(a.label, "New");
    assert_eq!(format!("{a:?}"), format!("{b:?}"));
}
