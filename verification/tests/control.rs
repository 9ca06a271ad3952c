//! The control protocol, captured pictures, discovery and the instances.
use atem_ip_patchbay::device_scanner::{Device, DeviceKind, DeviceList};
use atem_ip_patchbay::discovery::{
    discover, find_address_by_name, find_source_by_name, omt_source_at, NdiSource, PreviewStatus,
};
use atem_ip_patchbay::ffmpeg_path::{
    available_encoders, bundled_names, ffmpeg_has_decklink, ffmpeg_path, net_diag_path,
    set_resource_root,
};
use atem_ip_patchbay::fleet::{
    apply_default_devices_at_boot, tile_ports, EncoderFleet, TILE_COUNT,
};
use atem_ip_patchbay::instance::{
    bind_fault_text, check_name, instance_args, is_service_file, load_order, ports_to_try,
    window_title, Cli, ServiceFile,
};
use atem_ip_patchbay::protocol::{
    answer, broadcast_after, preamble, read_stream_actions, read_stream_settings, refusal_text,
    render_all, start_refused, stream_settings_kvs, stream_state_kvs, take_block, Block,
    BlockReader, StreamAction, Todo,
};
use atem_ip_patchbay::raw_video::{
    after_try, audio_layout, bytes_per_pixel, has_audio, is_previewed, omt_stride,
    pix_fmt_for_ffmpeg, probe_omt_frame, use_of_omt_frame, AudioError, FrameUse, NdiFrame,
    NdiVideoFormat, OmtVideoFormat, PixelFormat, SendOutcome, SendResult,
};
use atem_ip_patchbay::state::{EncoderState, StreamStats};

fn kvs(pairs: &[(&str, &str)]) -> Vec<(String, String)> {
    pairs.iter().map(|(k, v)| (k.to_string(), v.to_string())).collect()
}

fn block(header: &str, pairs: &[(&str, &str)]) -> Block {
    Block { header: header.to_string(), kvs: kvs(pairs) }
}

/// The blocks that a text holds.
fn read(text: &str) -> Vec<Block> {
    let mut reader = BlockReader::new();
    text.split_terminator('\n').filter_map(|line| reader.feed(line)).collect()
}

fn named<'a>(kvs: &'a [(String, String)], key: &str) -> &'a str {
    &kvs.iter().find(|(k, _)| k == key).unwrap().1
}

#[test]
fn blocks_are_written() {
    assert_eq!(block("ACK", &[]).render(), "ACK:\n\n");
    assert_eq!(block("A", &[("k", "v"), ("l", "")]).render(), "A:\nk: v\nl: \n\n");
    let both = vec![block("ACK", &[]), block("B", &[("k", "v")])];
    assert_eq!(render_all(&both), "ACK:\n\nB:\nk: v\n\n");
}

#[test]
fn blocks_are_read() {
    let found = read("stray\r\n\n  IDENTITY :\r\nLabel:  a:b \r\nno value\n \nX:\n\nY:\nk:v\n");
    assert_eq!(found.len(), 2);
    assert_eq!(found[0].header, "IDENTITY");
    assert_eq!(found[0].kvs, kvs(&[("Label", "a:b")]));
    assert_eq!(found[1].header, "X");
    assert!(found[1].kvs.is_empty());
}

#[test]
fn blocks_read_back() {
    let sent = block("STREAM STATE", &[("Action", "Start"), ("Other", "a: b")]);
    let found = read(&sent.render());
    assert_eq!(found.len(), 1);
    assert_eq!(found[0].header, sent.header);
    assert_eq!(found[0].kvs, sent.kvs);
}

#[test]
fn a_client_is_greeted() {
    let mut e = EncoderState::with_identity("1-2", "d");
    e.set_label("Studio");
    let text = render_all(&preamble(&e.snapshot(0)));
    assert!(text.starts_with(
        "PROTOCOL PREAMBLE:\nVersion: 1.2\n\nIDENTITY:\nModel: "
    ));
    assert!(text.contains("Label: Studio\nUnique ID: 12\n\n"));
    assert!(text.contains(
        "VERSION:\nProduct ID: BE73\nHardware Version: 0100\nSoftware Version: 01000000\n\
         Software Release: 0.2\n\nNETWORK:\nInterface Count: 1\nDefault Interface: 0\n\n\
         NETWORK INTERFACE 0:\nName: Ethernet\nPriority: 1\nMAC Address: 00:11:22:33:44:55\n\
         Dynamic IP: true\nCurrent Addresses: 0.0.0.0/255.255.255.0\nCurrent Gateway: 0.0.0.0\n\
         Current DNS Servers: \nStatic Addresses: 0.0.0.0/255.255.255.0\nStatic Gateway: 0.0.0.0\n\
         Static DNS Servers: 8.8.8.8, 8.8.4.4\n\nUI SETTINGS:\nAvailable Locales: en_US.UTF-8\n\
         Current Locale: en_US.UTF-8\n\
         Available Audio Meters: PPM -18dB, PPM -20dB, VU -18dB, VU -20dB\n\
         Current Audio Meter: PPM -20dB\n\nSTREAM SETTINGS:\nAvailable Video Modes: Auto, "
    ));
    assert!(text.ends_with(
        "STREAM XML:\nFiles: \n\nSTREAM STATE:\nStatus: Idle\nBitrate: 0\nDuration: 00:00:00:00\n\
         Cache Used: 0\n\nAUDIO SETTINGS:\nCurrent Monitor Out Audio Source: Auto\n\
         Available Monitor Out Audio Sources: Auto, SDI In, Remote Source\n\nEND PRELUDE:\n\n"
    ));
}

#[test]
fn settings_are_told() {
    let mut e = EncoderState::new();
    let v = stream_settings_kvs(&e.snapshot(0));
    assert_eq!(v.len(), 13);
    assert_eq!(named(&v, "Current Platform"), "My Platform");
    assert_eq!(named(&v, "Available Servers"), "SRT");
    assert_eq!(named(&v, "Customizable URL"), "true");
    assert_eq!(
        named(&v, "Available Quality Levels"),
        "Streaming High, Streaming Medium, Streaming Low"
    );
    let xml = "<service><name>S</name><key>k</key><servers>\
               <server><name>A</name><url>srt://a:1</url></server>\
               <server><name>B</name><url>rtmp://b</url></server></servers></service>";
    e.add_service_from_xml_text(xml, true).unwrap();
    let v = stream_settings_kvs(&e.snapshot(0));
    assert_eq!(named(&v, "Current Platform"), "S");
    assert_eq!(named(&v, "Available Servers"), "A, B");
    assert_eq!(named(&v, "Current URL"), "srt://a:1");
    assert_eq!(named(&v, "Available Custom Platforms"), "S");
    e.stats.bitrate = 99;
    e.stats.status = "Streaming".to_string();
    let v = stream_state_kvs(&e.snapshot(0));
    assert_eq!((named(&v, "Status"), named(&v, "Bitrate")), ("Streaming", "99"));
}

#[test]
fn settings_are_taken_from_blocks() {
    let u = read_stream_settings(&kvs(&[
        ("Video Mode", "720p60"),
        ("Video Mode", "9000p1"),
        ("Current Platform", "P"),
        ("Current Quality Level", "Q"),
        ("Stream Key", "K"),
        ("Password", "W"),
        ("Current Server", "X"),
        ("Current Server", "Y"),
        ("Nonsense", "Z"),
    ]));
    assert_eq!(u.video_mode.as_deref(), Some("720p60"));
    assert_eq!(u.current_service_name.as_deref(), Some("P"));
    assert_eq!(u.quality_level.as_deref(), Some("Q"));
    assert_eq!(u.stream_key.as_deref(), Some("K"));
    assert_eq!(u.passphrase.as_deref(), Some("W"));
    assert_eq!(u.current_server_name.as_deref(), Some("Y"));
    assert_eq!(u.custom_url, None);
    assert_eq!(
        read_stream_actions(&kvs(&[("Action", " START "), ("x", "stop"), ("Action", "Stop"), ("Action", "go")])),
        [StreamAction::Start, StreamAction::Stop]
    );
}

#[test]
fn blocks_are_taken() {
    let mut e = EncoderState::new();
    let b = block("IDENTITY", &[("Label", "One"), ("Label", "Two")]);
    assert!(matches!(take_block(&mut e, &b), Todo::Done));
    assert_eq!(e.label, "Two");
    let b = block("STREAM SETTINGS", &[("Stream Key", "K")]);
    assert!(matches!(take_block(&mut e, &b), Todo::Done));
    assert_eq!(e.stream_key, "K");
    match take_block(&mut e, &block("STREAM STATE", &[("Action", "stop")])) {
        Todo::Stream(a) => assert_eq!(a, [StreamAction::Stop]),
        other => panic!("{other:?}"),
    }
    for h in ["STREAM XML", "NETWORK INTERFACE 0", "UI SETTINGS", "AUDIO SETTINGS"] {
        assert!(matches!(take_block(&mut e, &block(h, &[])), Todo::Done));
    }
    let b = block("SHUTDOWN", &[("Action", "Factory Reset")]);
    assert!(matches!(take_block(&mut e, &b), Todo::Reset));
    assert!(matches!(take_block(&mut e, &block("SHUTDOWN", &[("Action", "x")])), Todo::Done));
    assert!(matches!(take_block(&mut e, &block("VERSION", &[])), Todo::Refused));
}

#[test]
fn blocks_are_answered() {
    let e = EncoderState::new();
    let snap = e.snapshot(0);
    let a = answer("IDENTITY", &None, &snap);
    assert_eq!(render_all(&a.blocks), "ACK:\n\n");
    assert_eq!(a.news.unwrap().header, "IDENTITY");
    let a = answer("UI SETTINGS", &None, &snap);
    assert!(a.news.is_none());
    let a = answer("VERSION", &Some(refusal_text()), &snap);
    assert_eq!(render_all(&a.blocks), "NACK:\n\nERROR:\nMessage: unknown block header\n\n");
    assert!(a.news.is_none());
    for h in ["STREAM SETTINGS", "STREAM STATE", "AUDIO SETTINGS"] {
        assert_eq!(broadcast_after(h, &snap).unwrap().header, h);
    }
    let mut s = StreamStats::default();
    start_refused(&mut s, "no");
    assert_eq!((s.status.as_str(), s.error.as_deref()), ("Interrupted", Some("no")));
}

#[test]
fn pictures_have_a_layout() {
    for (pf, name, bytes) in [
        (PixelFormat::Bgra, "bgra", 4),
        (PixelFormat::Bgrx, "bgra", 4),
        (PixelFormat::Rgba, "rgba", 4),
        (PixelFormat::Rgbx, "rgba", 4),
        (PixelFormat::Uyvy, "uyvy422", 2),
        (PixelFormat::Uyva, "uyvy422", 2),
        (PixelFormat::Other, "bgra", 4),
    ] {
        assert_eq!(pix_fmt_for_ffmpeg(pf), name);
        assert_eq!(bytes_per_pixel(pf), bytes);
    }
}

fn rate(num: u32, den: u32) -> u32 {
    NdiVideoFormat { width: 1, height: 1, fps_num: num, fps_den: den, ffmpeg_pix_fmt: "bgra" }.fps()
}

#[test]
fn rates_are_rounded() {
    assert_eq!(rate(30_000, 1_001), 30);
    assert_eq!(rate(24_000, 1_001), 24);
    assert_eq!(rate(60, 0), 30);
    assert_eq!(rate(5, 2), 3);
    assert_eq!(rate(12, 5), 2);
}

#[test]
fn frames_are_packed() {
    let mut f = NdiFrame {
        width: 1,
        height: 2,
        frame_rate_n: 0,
        frame_rate_d: -1,
        pixel_format: PixelFormat::Uyvy,
        line_stride: Some(3),
        data: vec![1, 2, 9, 3, 4, 9],
    };
    assert!(f.shows_format());
    let fmt = f.format();
    assert_eq!((fmt.width, fmt.height, fmt.fps_num, fmt.fps_den), (1, 2, 1, 1));
    assert_eq!(fmt.ffmpeg_pix_fmt, "uyvy422");
    assert_eq!(f.pack(), [1, 2, 3, 4]);
    f.line_stride = None;
    assert_eq!(f.pack(), [1, 2, 9, 3, 4, 9]);
    f.line_stride = Some(-3);
    assert_eq!(f.pack(), [1, 2, 9, 3, 4, 9]);
    f.data = Vec::new();
    assert!(!f.shows_format());
    f.data = vec![0];
    f.width = -1;
    assert!(!f.shows_format());
}

#[test]
fn captures_never_hang() {
    assert_eq!(after_try(SendResult::Taken, true), SendOutcome::Sent);
    assert_eq!(after_try(SendResult::Closed, false), SendOutcome::Stopped);
    assert_eq!(after_try(SendResult::Full, false), SendOutcome::Retry);
    assert_eq!(after_try(SendResult::Full, true), SendOutcome::Stopped);
    let shown: Vec<u64> = (0..40).filter(|n| is_previewed(*n)).collect();
    assert_eq!(shown, [0, 15, 30]);
}

#[test]
fn omt_frames_are_probed() {
    let f = probe_omt_frame(4, 2, 32).unwrap();
    assert_eq!((f.width, f.height, f.fps(), f.ffmpeg_pix_fmt), (4, 2, 30, "bgra"));
    assert_eq!(probe_omt_frame(4, 2, 31).unwrap().ffmpeg_pix_fmt, "uyvy422");
    assert_eq!(probe_omt_frame(4, 2, 15).unwrap().ffmpeg_pix_fmt, "bgra");
    assert!(probe_omt_frame(4, 2, 0).is_none());
    assert!(probe_omt_frame(0, 2, 8).is_none());
    assert!(probe_omt_frame(4, -2, 8).is_none());
    let fmt = OmtVideoFormat { width: 4, height: 2, fps_num: 30, fps_den: 1, ffmpeg_pix_fmt: "bgra" };
    assert_eq!(use_of_omt_frame(&fmt, 4, 2, 32), FrameUse::Send);
    assert_eq!(use_of_omt_frame(&fmt, 4, 3, 32), FrameUse::Resized);
    assert_eq!(use_of_omt_frame(&fmt, 5, 2, 0), FrameUse::Empty);
    assert_eq!(fmt.as_ndi().fps(), 30);
}

#[test]
fn omt_frames_are_sent() {
    assert_eq!(omt_stride("bgra", 10), Some(40));
    assert_eq!(omt_stride("uyvy422", 10), Some(20));
    assert_eq!(omt_stride("rgba", 10), None);
    assert!(has_audio(2, 1));
    assert!(!has_audio(0, 1));
    assert!(!has_audio(2, -1));
    assert!(matches!(audio_layout(10, 2), Ok(5)));
    assert!(matches!(audio_layout(10, 0), Err(AudioError::NoChannels)));
    assert!(matches!(audio_layout(9, 2), Err(AudioError::Uneven)));
    assert!(matches!(audio_layout(0, 2), Err(AudioError::Empty)));
}

#[test]
fn omt_sources_are_named() {
    let s = omt_source_at("HOST (Cam (1))");
    assert_eq!((s.name.as_str(), s.host.as_deref()), ("Cam (1", Some("HOST")));
    assert_eq!(s.address, "HOST (Cam (1))");
    let s = omt_source_at("plain");
    assert_eq!((s.name.as_str(), s.host), ("plain", None));
    let all = vec!["A (x)".to_string(), "B (y)".to_string(), "y".to_string()];
    assert_eq!(discover(&all).len(), 3);
    assert_eq!(find_address_by_name(&all, "y").as_deref(), Some("B (y)"));
    assert_eq!(find_address_by_name(&all, "z"), None);
    let ndi: Vec<NdiSource> = ["a", "b", "b"]
        .iter()
        .map(|n| NdiSource { name: n.to_string(), host: None, address: String::new() })
        .collect();
    assert_eq!(find_source_by_name(&ndi, "b"), Some(1));
    assert_eq!(find_source_by_name(&ndi, "c"), None);
    let p = PreviewStatus::showing(Some("a".to_string()));
    assert!(p.active);
    assert_eq!((p.backend.as_deref(), p.source_name.as_deref()), (Some("ndi"), Some("a")));
    let p = PreviewStatus::showing(None);
    assert!(!p.active && p.backend.is_none() && p.source_name.is_none());
}

#[test]
fn programs_are_found() {
    let t = |s: &str| Some(s.to_string());
    assert_eq!(ffmpeg_path(t("n"), true, t("b"), t("f")), "n");
    assert_eq!(ffmpeg_path(t("n"), false, t("b"), t("f")), "b");
    assert_eq!(ffmpeg_path(t(""), true, None, t("f")), "f");
    assert_eq!(ffmpeg_path(None, false, None, None), "ffmpeg");
    assert_eq!(net_diag_path(t("n"), true, None, None).as_deref(), Some("n"));
    assert_eq!(net_diag_path(t("n"), false, None, t("f")).as_deref(), Some("f"));
    assert_eq!(net_diag_path(None, false, None, None), None);
    assert_eq!(bundled_names("ffmpeg", true), ["sidecar/ffmpeg.exe", "ffmpeg.exe"]);
    assert_eq!(bundled_names("atem-net-diag", false), ["sidecar/atem-net-diag", "atem-net-diag"]);
    let mut slot = None;
    set_resource_root(&mut slot, "a".to_string());
    set_resource_root(&mut slot, "b".to_string());
    assert_eq!(slot.as_deref(), Some("a"));
    assert!(ffmpeg_has_decklink(" E asf x\n E decklink  Blackmagic DeckLink output\n"));
    assert!(!ffmpeg_has_decklink(" E asf x\n"));
    assert_eq!(available_encoders("V..... = Video\n V..... a\nV....x b-c\nVx d\n A..... e"), ["a", "b-c"]);
}

#[test]
fn instances_are_told_apart() {
    assert_eq!(window_title("default", 1, 2), "ATEM IP Patchbay  ·  http :1  ·  bmd :2");
    assert_eq!(window_title("x", 1, 2), "ATEM IP Patchbay [x]  ·  http :1  ·  bmd :2");
    assert_eq!(check_name(" a b ").unwrap(), "a b");
    assert_eq!(check_name(" ").unwrap_err().message(), "instance name cannot be empty");
    for bad in ["a/b", "a\\b", "a:b"] {
        assert_eq!(
            check_name(bad).unwrap_err().message(),
            format!("instance name contains invalid characters: {bad:?}")
        );
    }
    assert!(check_name("a\0b").is_err());
    assert_eq!(instance_args("x"), ["--instance-name", "x"]);
    let c = Cli::default();
    assert_eq!((c.instance_name.as_str(), c.http_start(), c.bmd_start()), ("default", 8090, 9977));
    let c = Cli { http_port: Some(1), bmd_port: Some(2), ..c };
    assert_eq!((c.http_start(), c.bmd_start()), (1, 2));
}

#[test]
fn ports_are_tried_in_turn() {
    assert_eq!(ports_to_try(9977), (9977..=9986).collect::<Vec<u16>>());
    assert_eq!(
        bind_fault_text("HTTP API", 8090, &Some("in use".to_string())),
        "could not bind HTTP API on TCP 8090-8099: in use"
    );
    assert_eq!(
        bind_fault_text("BMD protocol", 1, &None),
        "could not bind BMD protocol on TCP 1-10: no error"
    );
}

#[test]
fn services_load_newest_first() {
    assert!(is_service_file("a.b.xml"));
    assert!(!is_service_file("a.XML"));
    assert!(!is_service_file(".xml"));
    assert!(!is_service_file("xml"));
    let f = |path: &str, modified| ServiceFile { path: path.to_string(), modified };
    let order = load_order(vec![f("a", Some(1)), f("b", None), f("c", Some(5)), f("d", Some(1))]);
    let names: Vec<&str> = order.iter().map(|f| f.path.as_str()).collect();
    assert_eq!(names, ["c", "a", "d", "b"]);
}

#[test]
fn every_tile_has_an_encoder() {
    let ports = tile_ports(9977);
    assert_eq!(ports, [9977, 9981, 9985, 9989, 9993, 9997]);
    assert_eq!(tile_ports(65_530)[3], 65_535);
    let mut fleet = EncoderFleet::new(&ports);
    assert_eq!(fleet.tiles().len(), TILE_COUNT);
    assert_eq!(fleet.tile(5).unwrap().bmd_port, 9997);
    assert_eq!(fleet.tile(5).unwrap().idx, 5);
    assert!(fleet.tile(6).is_none());
    fleet.shutdown_all();
    assert!(fleet.tiles().iter().all(|t| t.session.stop_requested));
}

#[test]
fn devices_are_picked_at_boot() {
    let mut e = EncoderState::new();
    e.apply_default_devices(7, "Kept", 8, "Too");
    apply_default_devices_at_boot(&mut e, &DeviceList::default());
    assert_eq!((e.av_video_index, e.av_video_name.as_str()), (7, "Kept"));
    let devs = DeviceList {
        video: vec![Device {
            index: 3,
            name: "FaceTime HD Camera".to_string(),
            kind: DeviceKind::Video,
            category: "camera".to_string(),
        }],
        audio: Vec::new(),
        scanned_at: None,
    };
    apply_default_devices_at_boot(&mut e, &devs);
    assert_eq!((e.av_video_index, e.av_video_name.as_str()), (3, "FaceTime HD Camera"));
    assert_eq!((e.av_audio_index, e.av_audio_name.as_str()), (-1, ""));
}
