//! Plans: what is streamed where, and the command that FFmpeg is run with.
use atem_ip_patchbay::attempt::{
    launch, ndi_not_found, omt_not_found, omt_output, plan_feed, source_fault, wants_audio,
    wants_audio_bridge, Feed, RawFormat,
};
use atem_ip_patchbay::audio_bridge::AudioBridge;
use atem_ip_patchbay::command::{
    build_decklink_output_cmd, build_ffmpeg_cmd, build_ffmpeg_cmd_for_ndi,
    build_ffmpeg_cmd_for_omt, omt_video_tee_cmd, tee_frame_bytes, unix_watchdog_script,
    windows_watchdog_script,
};
use atem_ip_patchbay::decklink::DecklinkMode;
use atem_ip_patchbay::device_scanner::DeviceList;
use atem_ip_patchbay::encoder::{
    auto_select_encoder, build_audio_section, build_encoder_section, select_encoder, Encoders,
};
use atem_ip_patchbay::plan::{
    build_audio_filter, build_rtmp_url, build_video_filter, Machine, StreamPlan,
};
use atem_ip_patchbay::raw_video::{NdiVideoFormat, OmtVideoFormat};
use atem_ip_patchbay::shell::{parse_extra_flags, shlex_join};
use atem_ip_patchbay::sources::Platform;
use atem_ip_patchbay::state::EncoderState;

const SILENCE: &str = "anullsrc=channel_layout=stereo:sample_rate=48000";

fn machine(platform: Platform) -> Machine {
    Machine {
        platform,
        devices: DeviceList::default(),
        camera_modes: Vec::new(),
        card_output: true,
        card_modes: vec![DecklinkMode {
            format_code: "Hp59".to_string(),
            description: "1080p59.94".to_string(),
            width: 1920,
            height: 1080,
            fps_num: 60_000,
            fps_den: 1_001,
            interlaced: false,
        }],
    }
}

fn linux() -> Machine {
    machine(Platform::Other)
}

/// An encoder that is ready to stream a test picture.
fn ready(url: &str) -> EncoderState {
    let mut e = EncoderState::with_identity("id", "dev");
    e.custom_url = url.to_string();
    e.stream_key = "key".to_string();
    e.source_id = "test_pattern".to_string();
    e.meters_enabled = false;
    e
}

fn planned(url: &str) -> StreamPlan {
    ready(url).build_plan(&linux()).unwrap()
}

fn encoders(names: &[&str], platform: Platform) -> Encoders {
    Encoders {
        available: names.iter().map(|n| n.to_string()).collect(),
        platform,
        skip_videotoolbox: false,
    }
}

/// Whether `part` stands in `all`, in one piece.
fn has(all: &[String], part: &[&str]) -> bool {
    all.windows(part.len()).any(|w| w == part)
}

fn fault(e: &EncoderState, m: &Machine) -> String {
    match e.build_plan(m) {
        Ok(_) => "none".to_string(),
        Err(f) => f.message(),
    }
}

#[test]
fn faults_are_told_in_order() {
    let m = linux();
    let mut e = ready("");
    e.stream_key = String::new();
    assert_eq!(fault(&e, &m), "No server selected. Pick an RTMP or SRT server in the UI.");
    e.custom_url = "srt://h:1".to_string();
    assert_eq!(fault(&e, &m), "Stream key is empty.");
    e.stream_key = "k".to_string();
    e.source_id = "moon".to_string();
    assert_eq!(fault(&e, &m), "Source resolve failed: Unknown source id: \"moon\"");
    e.source_id = "test_pattern".to_string();
    e.audio_codec = "aac_he".to_string();
    assert_eq!(
        fault(&e, &m),
        "AAC-HE not supported by the ATEM SRT decoder. Use AAC-LC or switch destination."
    );
    e.audio_codec = "aac_he_v2".to_string();
    assert_eq!(
        fault(&e, &m),
        "AAC-HEv2 not supported by the ATEM SRT decoder. Use AAC-LC or switch destination."
    );
    e.audio_codec = "aac".to_string();
    assert_eq!(fault(&e, &m), "none");
}

#[test]
fn unsupported_protocols_are_told() {
    let xml = "<service><name>S</name><key>k</key><servers><server><name>F</name>\
               <url>ftp://x</url></server></servers></service>";
    let mut e = ready("");
    e.add_service_from_xml_text(xml, true).unwrap();
    assert_eq!(fault(&e, &linux()), "Unsupported protocol: \"ftp\"");
}

#[test]
fn card_faults_are_told_in_order() {
    let mut m = linux();
    let mut e = ready("");
    e.destination_type = "decklink".to_string();
    m.card_output = false;
    assert_eq!(
        fault(&e, &m),
        "This FFmpeg build does not include DeckLink output (--enable-decklink missing). \
         Reinstall ATEM IP Patchbay."
    );
    m.card_output = true;
    e.decklink_device_name = "  ".to_string();
    assert_eq!(fault(&e, &m), "No DeckLink device selected. Pick one in the Destination card.");
    e.decklink_device_name = "Card".to_string();
    assert_eq!(fault(&e, &m), "No DeckLink output mode selected. Pick one for the chosen device.");
    e.decklink_format_code = "Hp24".to_string();
    assert_eq!(
        fault(&e, &m),
        "DeckLink mode 'Hp24' not supported by device 'Card'. Re-pick a mode from the dropdown."
    );
    e.decklink_format_code = "Hp59".to_string();
    assert_eq!(fault(&e, &m), "none");
    e.source_id = "moon".to_string();
    assert_eq!(fault(&e, &m), "Source resolve failed: Unknown source id: \"moon\"");
}

#[test]
fn a_network_plan_holds_the_settings() {
    let p = planned("srt://h:2000");
    assert_eq!((p.width, p.height, p.fps), (1920, 1080, 30));
    assert_eq!((p.video_bitrate, p.audio_bitrate, p.keyframe_seconds), (6_000_000, 128_000, 2));
    assert_eq!(p.protocol, "srt");
    assert_eq!(p.video_codec, "h265");
    assert_eq!(p.gop(), 60);
    assert_eq!(p.video_filter, None);
    assert_eq!(p.audio_filter, None);
    assert!(!p.audio_output_mono);
    assert!(p.output_url.starts_with("srt://h:2000?"));
    assert!(p.decklink_device_name.is_empty());
    let mut e = ready("rtmp://h/app/");
    e.audio_bitrate_kbps = 96;
    e.audio_channels = 1;
    let p = e.build_plan(&linux()).unwrap();
    assert_eq!(p.audio_bitrate, 96_000);
    assert_eq!(p.output_url, "rtmp://h/app/key");
    assert!(p.audio_output_mono);
}

#[test]
fn a_card_plan_holds_the_mode() {
    let mut e = ready("");
    e.destination_type = "decklink".to_string();
    e.decklink_device_name = "Card".to_string();
    e.decklink_format_code = "Hp59".to_string();
    e.encoder_extra_flags = "-x".to_string();
    let p = e.build_plan(&linux()).unwrap();
    assert_eq!((p.width, p.height, p.fps), (1920, 1080, 60));
    assert_eq!((p.video_bitrate, p.audio_bitrate, p.keyframe_seconds), (0, 0, 0));
    assert_eq!(p.protocol, "decklink");
    assert_eq!(p.video_filter.as_deref(), Some("scale=1920:1080,format=uyvy422"));
    assert_eq!(p.audio_filter.as_deref(), Some("aresample=async=1000:first_pts=0"));
    assert_eq!(p.encoder_extra_flags, "");
    assert_eq!(p.gop(), 1);
    let cmd = build_decklink_output_cmd("ff", &p);
    assert_eq!(cmd[..4], ["ff", "-hide_banner", "-loglevel", "info"]);
    assert_eq!(
        cmd[cmd.len() - 19..],
        [
            "-vf", "scale=1920:1080,format=uyvy422", "-af", "aresample=async=1000:first_pts=0",
            "-c:v", "wrapped_avframe", "-pix_fmt", "uyvy422", "-c:a", "pcm_s16le", "-ar", "48000",
            "-ac", "2", "-f", "decklink", "-format_code", "Hp59", "Card",
        ]
    );
    let none = encoders(&[], Platform::Other);
    assert_eq!(build_ffmpeg_cmd("ff", &p, &none), cmd);
}

#[test]
fn rtmp_urls_get_their_key_once() {
    assert_eq!(build_rtmp_url("rtmp://h/app//", "k"), "rtmp://h/app/k");
    assert_eq!(build_rtmp_url("rtmp://h/app/k", "k"), "rtmp://h/app/k");
    assert_eq!(build_rtmp_url("rtmp://h/app/", ""), "rtmp://h/app");
    let once = build_rtmp_url("rtmp://h/app", "k");
    assert_eq!(build_rtmp_url(&once, "k"), once);
}

#[test]
fn screens_are_fitted() {
    let mut e = ready("srt://h:1");
    assert_eq!(build_video_filter(&e, 1280, 720, 30), None);
    e.source_id = "avfoundation".to_string();
    e.av_video_name = "FaceTime".to_string();
    assert_eq!(build_video_filter(&e, 1280, 720, 30), None);
    for name in ["Capture Screen 0", "My Desk View Camera"] {
        e.av_video_name = name.to_string();
        assert_eq!(
            build_video_filter(&e, 1280, 720, 30).as_deref(),
            Some(
                "scale=1280:720:force_original_aspect_ratio=decrease:flags=lanczos,\
                 pad=1280:720:(ow-iw)/2:(oh-ih)/2:color=black,fps=30,setsar=1"
            )
        );
    }
}

#[test]
fn audio_is_filtered() {
    let mut e = ready("srt://h:1");
    e.audio_mode = "custom".to_string();
    e.av_audio_name = "Microphone".to_string();
    assert_eq!(build_audio_filter(&e), None);
    e.av_audio_name = "DANTE VSC".to_string();
    e.audio_pan_l = 3;
    e.audio_pan_r = 0;
    assert_eq!(build_audio_filter(&e).as_deref(), Some("pan=stereo|c0=c2|c1=c0"));
    e.audio_mode = "silent".to_string();
    e.destination_type = "decklink".to_string();
    e.meters_enabled = true;
    assert_eq!(
        build_audio_filter(&e).as_deref(),
        Some(
            "volume=0,aresample=async=1000:first_pts=0,\
             astats=metadata=1:reset=1:length=0.25,ametadata=mode=print:direct=1"
        )
    );
}

#[test]
fn encoders_are_picked() {
    let all = ["libx264", "libx265", "hevc_qsv", "h264_amf", "hevc_videotoolbox"];
    let other = encoders(&all, Platform::Other);
    let mut mac = encoders(&all, Platform::MacOs);
    assert_eq!(auto_select_encoder("h265", &other), "hevc_qsv");
    assert_eq!(auto_select_encoder("h264", &other), "h264_amf");
    assert_eq!(auto_select_encoder("h265", &mac), "hevc_videotoolbox");
    mac.skip_videotoolbox = true;
    assert_eq!(auto_select_encoder("h265", &mac), "hevc_qsv");
    let none = encoders(&[], Platform::MacOs);
    assert_eq!(auto_select_encoder("h265", &none), "libx265");
    assert_eq!(auto_select_encoder("h264", &none), "libx264");
    let mut p = planned("srt://h:1");
    p.video_encoder = "libx264".to_string();
    assert_eq!(select_encoder(&p, &other)[..2], ["-c:v", "libx264"]);
    p.video_encoder = "hevc_nvenc".to_string();
    assert_eq!(select_encoder(&p, &other)[..2], ["-c:v", "hevc_qsv"]);
    p.video_encoder = String::new();
    assert_eq!(select_encoder(&p, &none)[..2], ["-c:v", "libx265"]);
}

#[test]
fn every_encoder_is_set_up() {
    let mut p = planned("srt://h:1");
    p.video_bitrate = 6_000_999;
    assert_eq!(
        build_encoder_section(&p, "hevc_videotoolbox"),
        [
            "-c:v", "hevc_videotoolbox", "-profile:v", "main", "-pix_fmt", "yuv420p", "-realtime",
            "1", "-allow_sw", "1", "-constant_bit_rate", "1", "-b:v", "6000999", "-bf", "0", "-g",
            "60", "-keyint_min", "60", "-sc_threshold", "0", "-r", "30",
        ]
    );
    assert_eq!(
        build_encoder_section(&p, "h264_nvenc"),
        [
            "-c:v", "h264_nvenc", "-preset", "p4", "-tune", "ll", "-rc", "cbr", "-profile:v",
            "main", "-pix_fmt", "yuv420p", "-b:v", "6000999", "-maxrate", "6000999", "-bufsize",
            "6000999", "-bf", "0", "-g", "60", "-keyint_min", "60", "-r", "30",
        ]
    );
    assert_eq!(
        build_encoder_section(&p, "hevc_qsv"),
        [
            "-c:v", "hevc_qsv", "-preset", "veryfast", "-look_ahead", "0", "-profile:v", "main",
            "-pix_fmt", "yuv420p", "-b:v", "6000999", "-maxrate", "6000999", "-bf", "0", "-g", "60",
            "-r", "30",
        ]
    );
    assert_eq!(
        build_encoder_section(&p, "h264_amf"),
        [
            "-c:v", "h264_amf", "-quality", "speed", "-rc", "cbr", "-profile", "main", "-pix_fmt",
            "yuv420p", "-b:v", "6000999", "-maxrate", "6000999", "-bf", "0", "-g", "60", "-r", "30",
        ]
    );
    assert_eq!(
        build_encoder_section(&p, "libx265"),
        [
            "-c:v", "libx265", "-profile:v", "main", "-preset", "veryfast", "-tune", "zerolatency",
            "-pix_fmt", "yuv420p", "-x265-params",
            "bframes=0:no-scenecut=1:keyint=60:min-keyint=60:vbv-maxrate=6000:vbv-bufsize=6000:\
             repeat-headers=1:hrd=1:log-level=warning",
            "-b:v", "6000999", "-g", "60", "-keyint_min", "60", "-sc_threshold", "0", "-r", "30",
        ]
    );
    p.encoder_extra_flags = "-a 'b c'".to_string();
    assert_eq!(
        build_encoder_section(&p, "anything"),
        [
            "-c:v", "libx264", "-profile:v", "main", "-preset", "veryfast", "-tune", "zerolatency",
            "-pix_fmt", "yuv420p", "-x264-params",
            "bframes=0:scenecut=0:keyint=60:min-keyint=60:nal-hrd=cbr",
            "-b:v", "6000999", "-maxrate", "6000999", "-minrate", "6000999", "-bufsize", "6000999",
            "-g", "60", "-keyint_min", "60", "-sc_threshold", "0", "-r", "30", "-a", "b c",
        ]
    );
}

#[test]
fn audio_is_set_up() {
    let mut p = planned("srt://h:1");
    assert_eq!(
        build_audio_section(&p),
        ["-c:a", "aac", "-b:a", "128000", "-ar", "48000", "-ac", "2"]
    );
    p.audio_codec = "aac_he_v2".to_string();
    p.audio_channels = 1;
    assert_eq!(
        build_audio_section(&p),
        ["-c:a", "aac", "-profile:a", "aac_he_v2", "-b:a", "128000", "-ar", "48000", "-ac", "1"]
    );
    p.audio_codec = "aac_he".to_string();
    assert!(has(&build_audio_section(&p), &["-profile:a", "aac_he"]));
}

#[test]
fn commands_are_put_together() {
    let none = encoders(&[], Platform::Other);
    let mut p = planned("srt://h:1");
    p.source.ffmpeg_input_args = vec!["-i".to_string(), "x".to_string()];
    p.source.combined_av = true;
    p.video_filter = Some("vf".to_string());
    p.audio_filter = Some("af".to_string());
    let cmd = build_ffmpeg_cmd("ff", &p, &none);
    assert_eq!(
        cmd[..13],
        [
            "ff", "-hide_banner", "-loglevel", "info", "-i", "x", "-map", "0:v:0", "-map",
            "0:a:0", "-vf", "vf", "-c:v",
        ]
    );
    assert!(has(&cmd, &["-r", "30", "-af", "af", "-c:a", "aac"]));
    assert_eq!(
        cmd[cmd.len() - 7..],
        [
            "-f", "mpegts", "-mpegts_flags", "+resend_headers", "-flush_packets", "1",
            p.output_url.as_str(),
        ]
    );
    p.source.combined_av = false;
    p.protocol = "rtmp".to_string();
    p.output_url = "rtmp://h/a".to_string();
    let cmd = build_ffmpeg_cmd("ff", &p, &none);
    assert!(has(&cmd, &["-map", "1:a:0"]));
    assert_eq!(
        cmd[cmd.len() - 5..],
        ["-flvflags", "no_duration_filesize", "-f", "flv", "rtmp://h/a"]
    );
}

fn hd() -> NdiVideoFormat {
    NdiVideoFormat {
        width: 1280,
        height: 720,
        fps_num: 30_000,
        fps_den: 1_001,
        ffmpeg_pix_fmt: "uyvy422",
    }
}

#[test]
fn captured_pictures_are_piped() {
    let enc = encoders(&[], Platform::Other);
    let mut e = ready("srt://h:1");
    let p = planned("srt://h:1");
    let cmd = build_ffmpeg_cmd_for_ndi("ff", &p, &hd(), &e, &enc, None);
    assert_eq!(
        cmd[4..18],
        [
            "-f", "rawvideo", "-pix_fmt", "uyvy422", "-s", "1280x720", "-r", "30", "-i", "pipe:0",
            "-f", "lavfi", "-i", SILENCE,
        ]
    );
    assert!(has(&cmd, &["-map", "1:a:0", "-vf", "scale=1920:1080:flags=lanczos"]));
    let bridged = build_ffmpeg_cmd_for_ndi("ff", &p, &hd(), &e, &enc, Some(AudioBridge { port: 7 }));
    assert!(!bridged.iter().any(|a| a == SILENCE));
    assert!(bridged.iter().any(|a| a.contains("127.0.0.1:7")));
    let o = OmtVideoFormat {
        width: 1280,
        height: 720,
        fps_num: 30_000,
        fps_den: 1_001,
        ffmpeg_pix_fmt: "uyvy422",
    };
    assert_eq!(build_ffmpeg_cmd_for_omt("ff", &p, &o, &e, &enc), cmd);
    e.audio_mode = "custom".to_string();
    e.av_audio_name = "Mic".to_string();
    let bridge = Some(AudioBridge { port: 7 });
    let mac = encoders(&[], Platform::MacOs);
    let win = encoders(&[], Platform::Windows);
    let cmd = build_ffmpeg_cmd_for_ndi("ff", &p, &hd(), &e, &mac, bridge);
    assert_eq!(cmd[14..18], ["-f", "avfoundation", "-i", ":Mic"]);
    let cmd = build_ffmpeg_cmd_for_ndi("ff", &p, &hd(), &e, &win, bridge);
    assert_eq!(cmd[14..18], ["-f", "dshow", "-i", "audio=Mic"]);
    let cmd = build_ffmpeg_cmd_for_ndi("ff", &p, &hd(), &e, &enc, bridge);
    assert_eq!(cmd[14..18], ["-f", "lavfi", "-i", SILENCE]);
}

#[test]
fn rescaling_keeps_the_format() {
    let mut e = ready("");
    e.destination_type = "decklink".to_string();
    e.decklink_device_name = "Card".to_string();
    e.decklink_format_code = "Hp59".to_string();
    let p = e.build_plan(&linux()).unwrap();
    let enc = encoders(&[], Platform::Other);
    let cmd = build_ffmpeg_cmd_for_ndi("ff", &p, &hd(), &e, &enc, None);
    assert!(has(&cmd, &["-vf", "scale=1920:1080:flags=lanczos,format=uyvy422"]));
    let mut q = p;
    q.video_filter = Some("hflip".to_string());
    let cmd = build_ffmpeg_cmd_for_ndi("ff", &q, &hd(), &e, &enc, None);
    assert!(has(&cmd, &["-vf", "scale=1920:1080:flags=lanczos,hflip"]));
    q.width = 1280;
    q.height = 720;
    let cmd = build_ffmpeg_cmd_for_ndi("ff", &q, &hd(), &e, &enc, None);
    assert!(has(&cmd, &["-vf", "hflip"]));
}

#[test]
fn the_second_reader_gives_raw_pictures() {
    let input = vec!["-i".to_string(), "x".to_string()];
    assert_eq!(
        omt_video_tee_cmd("ff", &input, 1280, 720, 25),
        [
            "ff", "-hide_banner", "-loglevel", "warning", "-i", "x", "-map", "0:v:0", "-vf",
            "scale=1280:720:force_original_aspect_ratio=decrease,\
             pad=1280:720:(ow-iw)/2:(oh-ih)/2,format=bgra,fps=25,setsar=1",
            "-pix_fmt", "bgra", "-f", "rawvideo", "pipe:1",
        ]
    );
    assert_eq!(tee_frame_bytes(1280, 720), 3_686_400);
}

#[test]
fn watchdogs_are_scripted() {
    assert_eq!(
        unix_watchdog_script(10, 20),
        "while kill -0 10 2>/dev/null && kill -0 20 2>/dev/null; do sleep 1; done; \
         if kill -0 10 2>/dev/null; then exit 0; fi; \
         kill -TERM -20 2>/dev/null; sleep 1; \
         kill -KILL -20 2>/dev/null"
    );
    assert_eq!(
        windows_watchdog_script(10, 20),
        "while ((Get-Process -Id 10 -EA SilentlyContinue) -and \
         (Get-Process -Id 20 -EA SilentlyContinue)) { Start-Sleep -Seconds 1 }; \
         if (-not (Get-Process -Id 10 -EA SilentlyContinue)) \
         { Stop-Process -Id 20 -Force -EA SilentlyContinue }"
    );
}

#[test]
fn commands_read_back() {
    let tokens: Vec<String> =
        ["ff", "", "it's", "a b", "x\\y", "q\"q", "$v", "é"].iter().map(|t| t.to_string()).collect();
    let line = shlex_join(&tokens);
    assert_eq!(line, "ff '' 'it'\\''s' 'a b' 'x\\y' 'q\"q' '$v' é");
    // An empty word is lost on the way back.
    let full: Vec<String> = tokens.iter().filter(|t| !t.is_empty()).cloned().collect();
    assert_eq!(parse_extra_flags(&shlex_join(&full)), full);
    assert_eq!(shlex_join(&Vec::new()), "");
    assert_eq!(parse_extra_flags("'a\\' \"b\\\"c\" d\\"), ["a\\", "b\"c", "d"]);
}

#[test]
fn attempts_are_prepared() {
    let mut e = ready("srt://h:1");
    let mut p = planned("srt://h:1");
    assert_eq!(source_fault(&p), None);
    assert_eq!(plan_feed(&p), Feed::Direct);
    assert!(!wants_audio_bridge(&p, &e));
    p.source.available = false;
    p.source.label = "L".to_string();
    p.source.notes = "N".to_string();
    assert_eq!(source_fault(&p).as_deref(), Some("Source 'L' is not available. N"));
    p.source.id = "omt".to_string();
    assert_eq!(plan_feed(&p), Feed::Omt);
    p.source.id = "ndi".to_string();
    assert_eq!(plan_feed(&p), Feed::Ndi);
    assert!(wants_audio_bridge(&p, &e));
    e.audio_mode = "silent".to_string();
    assert!(!wants_audio_bridge(&p, &e));
    e.audio_mode = "custom".to_string();
    assert!(!wants_audio_bridge(&p, &e));
    assert!(!wants_audio(&e, &None));
    assert!(wants_audio(&e, &Some(AudioBridge { port: 1 })));
    assert!(omt_output(&e, &p, None).is_none());
    e.omt_output_enabled = true;
    assert!(wants_audio(&e, &None));
    let o = omt_output(&e, &p, None).unwrap();
    assert_eq!((o.width, o.height, o.pix_fmt, o.tee), (1920, 1080, "bgra", true));
    let o = omt_output(&e, &p, Some((64, 32, "uyvy422"))).unwrap();
    assert_eq!((o.width, o.height, o.pix_fmt, o.tee), (64, 32, "uyvy422", false));
    assert_eq!(
        ndi_not_found("a\"b"),
        "NDI source not found: \"a\\\"b\". Refresh the discovery list."
    );
    assert_eq!(
        omt_not_found("c"),
        "OMT source not found: \"c\". Refresh the discovery list, \
         or rebuild with --features omt if support isn't compiled in."
    );
}

#[test]
fn attempts_are_planned() {
    let mut e = ready("srt://h:1");
    assert_eq!(e.plan_attempt(&linux()).unwrap().protocol, "srt");
    e.source_id = "pipe".to_string();
    e.pipe_path = String::new();
    let fault = e.plan_attempt(&linux()).unwrap_err();
    assert!(fault.starts_with("Source '"));
    assert!(fault.contains("' is not available. "));
    e.stream_key = String::new();
    assert_eq!(e.plan_attempt(&linux()).unwrap_err(), "Stream key is empty.");
}

#[test]
fn attempts_are_launched() {
    let enc = encoders(&[], Platform::Other);
    let mut e = ready("srt://h:1");
    e.omt_output_enabled = true;
    let p = planned("srt://h:1");
    let l = launch("ff", &p, None, &e, &enc, None);
    assert_eq!(l.command, build_ffmpeg_cmd("ff", &p, &enc));
    assert!(!l.piped);
    assert!(l.output.unwrap().tee);
    let bridge = Some(AudioBridge { port: 7 });
    let l = launch("ff", &p, Some(RawFormat::Ndi(hd())), &e, &enc, bridge);
    assert_eq!(l.command, build_ffmpeg_cmd_for_ndi("ff", &p, &hd(), &e, &enc, bridge));
    assert!(l.piped);
    let o = l.output.unwrap();
    assert_eq!((o.width, o.height, o.pix_fmt, o.tee), (1280, 720, "uyvy422", false));
    assert_eq!(l.command[l.command.len() - 1], p.output_url);
    let f = OmtVideoFormat { width: 8, height: 4, fps_num: 30, fps_den: 1, ffmpeg_pix_fmt: "bgra" };
    e.omt_output_enabled = false;
    let l = launch("ff", &p, Some(RawFormat::Omt(f)), &e, &enc, bridge);
    assert_eq!(l.command, build_ffmpeg_cmd_for_omt("ff", &p, &f, &e, &enc));
    assert!(l.piped && l.output.is_none());
    assert!(has(&l.command, &["-vf", "scale=1920:1080:flags=lanczos"]));
}

#[test]
fn encoders_suit_the_switcher() {
    let p = planned("srt://h:1");
    for name in ["h264_videotoolbox", "hevc_nvenc", "h264_qsv", "hevc_amf", "libx264", "libx265", "other"] {
        let a = build_encoder_section(&p, name);
        assert!(has(&a, &["-profile:v", "main"]) || has(&a, &["-profile", "main"]));
        assert!(has(&a, &["-pix_fmt", "yuv420p"]));
        assert!(has(&a, &["-bf", "0"]) || a[11].starts_with("bframes=0:"));
    }
}

#[test]
fn overlays_are_not_drawn() {
    let enc = encoders(&[], Platform::Other);
    let plain = build_ffmpeg_cmd("ff", &planned("srt://h:1"), &enc);
    let mut e = ready("srt://h:1");
    e.overlay_title = "Title".to_string();
    e.overlay_subtitle = "Below".to_string();
    e.overlay_logo_path = "/logo.png".to_string();
    e.overlay_clock = true;
    assert_eq!(build_ffmpeg_cmd("ff", &e.build_plan(&linux()).unwrap(), &enc), plain);
}

#[test]
fn rtmps_goes_as_rtmp() {
    let enc = encoders(&[], Platform::Other);
    let mut p = planned("rtmps://h/live");
    assert_eq!(p.protocol, "rtmps");
    let secure = build_ffmpeg_cmd("ff", &p, &enc);
    assert_eq!(
        secure[secure.len() - 5..],
        ["-flvflags", "no_duration_filesize", "-f", "flv", "rtmps://h/live/key"]
    );
    p.protocol = "rtmp".to_string();
    assert_eq!(build_ffmpeg_cmd("ff", &p, &enc), secure);
}

#[test]
fn extra_flags_come_last() {
    let mut p = planned("srt://h:1");
    let known = ["libx264", "libx265", "h264_qsv", "hevc_amf"];
    for name in known {
        p.encoder_extra_flags = String::new();
        let mut expected = build_encoder_section(&p, name);
        p.encoder_extra_flags = "-tune film -x \"a b\"".to_string();
        expected.extend(["-tune", "film", "-x", "a b"].map(str::to_string));
        assert_eq!(build_encoder_section(&p, name), expected);
    }
    assert_eq!(build_encoder_section(&p, "mine"), build_encoder_section(&p, "libx264"));
}
