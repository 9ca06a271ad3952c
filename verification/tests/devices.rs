//! Capture devices, their modes, and the sources made of them.
use atem_ip_patchbay::avf_modes::{
    format_fps, parse_avf_modes, parse_millionths, pick_best_avf_mode, AvfMode,
};
use atem_ip_patchbay::decklink::{
    list_decklink_outputs, parse_decklink_modes, probe_decklink_modes, DecklinkCache,
    DecklinkDevice,
};
use atem_ip_patchbay::device_scanner::{
    categorize_device, find_default_audio, find_default_video, is_forced, list_capture_devices,
    parse_avfoundation, parse_dshow, with_desktop, Device, DeviceKind, DeviceList,
};
use atem_ip_patchbay::resolve::{
    avf_device_name, resolve_avf_index_for_probe, resolve_capture_device, resolve_source,
};
use atem_ip_patchbay::sources::{
    avfoundation, dshow_capture, gdigrab_desktop, ndi, omt, pipe, rtmp_listen, srt_listen,
    test_pattern, Platform,
};
use atem_ip_patchbay::state::EncoderState;

fn device(index: i32, name: &str, kind: DeviceKind) -> Device {
    Device {
        index,
        name: name.to_string(),
        kind,
        category: categorize_device(name, kind),
    }
}

fn names(v: &[Device]) -> Vec<(i32, &str, &str)> {
    v.iter()
        .map(|d| (d.index, d.name.as_str(), d.category.as_str()))
        .collect()
}

#[test]
fn avfoundation_devices_are_listed() {
    let text = "\
[AVFoundation indev @ 0x7f] AVFoundation video devices:
[AVFoundation indev @ 0x7f] [0] FaceTime HD Camera
[AVFoundation indev @ 0x7f] [1] Capture screen 0
[AVFoundation indev @ 0x7f] AVFoundation audio devices:
[AVFoundation indev @ 0x7f] [0] MacBook Pro Microphone
[AVFoundation indev @ 0x7f] [1] BlackHole 2ch
";
    let (video, audio) = parse_avfoundation(text);
    assert_eq!(
        names(&video),
        vec![(0, "FaceTime HD Camera", "camera"), (1, "Capture screen 0", "screen")]
    );
    assert_eq!(
        names(&audio),
        vec![(0, "MacBook Pro Microphone", "microphone"), (1, "BlackHole 2ch", "virtual")]
    );
}

#[test]
fn lines_before_a_section_are_no_devices() {
    let (video, audio) = parse_avfoundation("[AVFoundation indev @ 0x7f] [0] Stray\n");
    assert!(video.is_empty() && audio.is_empty());
}

#[test]
fn directshow_devices_are_listed() {
    let text = "\
[in#0 @ 0000] \"Logi Webcam\" (video)
[in#0 @ 0000]   Alternative name \"@device_pnp\"
[in#0 @ 0000] \"Blackmagic WDM Capture\" (audio, video)
[in#0 @ 0000] \"OBS Virtual Camera\" (none)
[in#0 @ 0000] \"Microphone\" (audio)
";
    let (video, audio) = parse_dshow(text);
    assert_eq!(
        names(&video),
        vec![
            (0, "Logi Webcam", "camera"),
            (1, "Blackmagic WDM Capture", "capture_card"),
            (2, "OBS Virtual Camera", "virtual"),
        ]
    );
    assert_eq!(
        names(&audio),
        vec![(0, "Blackmagic WDM Capture", "microphone"), (1, "Microphone", "microphone")]
    );
    let video = with_desktop(video);
    assert_eq!(video[0].name, "Capture screen 0");
    assert_eq!(video[0].category, "screen");
    assert_eq!((video[1].index, video[3].index), (1, 3));
}

#[test]
fn directshow_sections_tell_the_kind_too() {
    let text = "\
[dshow @ 0000] DirectShow video devices (some may be both video and audio devices)
[dshow @ 0000]  \"Cam\"
[dshow @ 0000] DirectShow audio devices
[dshow @ 0000]  \"Mic\"
";
    let (video, audio) = parse_dshow(text);
    assert_eq!(names(&video), vec![(0, "Cam", "camera")]);
    assert_eq!(names(&audio), vec![(0, "Mic", "microphone")]);
}

#[test]
fn devices_fall_into_categories() {
    let v = |n: &str| categorize_device(n, DeviceKind::Video);
    assert_eq!(v("UltraStudio 4K"), "capture_card");
    assert_eq!(v("NDI Video"), "ndi");
    assert_eq!(v("My iPhone"), "iphone");
    assert_eq!(v("vMix Video"), "virtual");
    assert_eq!(v("Anything"), "camera");
    let a = |n: &str| categorize_device(n, DeviceKind::Audio);
    assert_eq!(a("NDI Audio"), "ndi");
    assert_eq!(a("Stereo Mix"), "virtual");
    assert_eq!(a("Anything"), "microphone");
}

#[test]
fn default_devices_are_chosen() {
    let devs = DeviceList {
        video: vec![
            device(0, "OBS Virtual Camera", DeviceKind::Video),
            device(1, "USB Cam", DeviceKind::Video),
            device(2, "FaceTime HD", DeviceKind::Video),
        ],
        audio: vec![
            device(0, "ZoomAudio", DeviceKind::Audio),
            device(1, "USB Mic", DeviceKind::Audio),
            device(2, "MacBook Air Microphone", DeviceKind::Audio),
        ],
        scanned_at: None,
    };
    assert_eq!(find_default_video(&devs).unwrap().index, 2);
    assert_eq!(find_default_audio(&devs).unwrap().index, 2);
    let few = DeviceList {
        video: vec![
            device(0, "OBS Virtual Camera", DeviceKind::Video),
            device(1, "USB Cam", DeviceKind::Video),
        ],
        audio: vec![device(0, "ZoomAudio", DeviceKind::Audio)],
        scanned_at: None,
    };
    assert_eq!(find_default_video(&few).unwrap().index, 1);
    // Where all are to be skipped, the first is taken after all.
    assert_eq!(find_default_audio(&few).unwrap().index, 0);
    assert!(find_default_video(&DeviceList::default()).is_none());
}

#[test]
fn scans_are_kept_for_a_minute() {
    let cache = DeviceList {
        video: vec![device(0, "Cam", DeviceKind::Video)],
        audio: Vec::new(),
        scanned_at: Some(100),
    };
    assert!(list_capture_devices(&cache, false, 159).is_some());
    assert!(list_capture_devices(&cache, false, 160).is_none());
    assert!(list_capture_devices(&cache, true, 101).is_none());
    assert!(list_capture_devices(&DeviceList::default(), false, 0).is_none());
    assert!(is_forced(Some("1")) && is_forced(Some("true")));
    assert!(!is_forced(Some("yes")) && !is_forced(None));
}

#[test]
fn card_modes_are_remembered() {
    let mut cache = DecklinkCache::default();
    assert!(list_decklink_outputs(&cache, false, 0).is_none());
    cache.remember_outputs(vec![DecklinkDevice { name: "Card".to_string() }], 5);
    let found = list_decklink_outputs(&cache, false, 6).unwrap();
    assert_eq!(found[0].name, "Card");
    assert!(list_decklink_outputs(&cache, false, 65).is_none());
    assert!(probe_decklink_modes(&cache, "Card").is_none());
    let modes = parse_decklink_modes("\tHp25\t\t1920x1080 at 25000/1000 fps\n");
    cache.remember_modes("Card", modes);
    let modes = probe_decklink_modes(&cache, "Card").unwrap();
    assert_eq!(modes.len(), 1);
    assert_eq!(modes[0].format_code, "Hp25");
}

fn mode(width: u32, height: u32, lo: u64, hi: u64) -> AvfMode {
    AvfMode { width, height, fps_lo: lo * 1_000_000, fps_hi: hi * 1_000_000 }
}

#[test]
fn modes_are_read() {
    let text = "\
[avfoundation @ 0x7f] Supported modes:
[avfoundation @ 0x7f]   1280x720@[1.000000 30.000030]fps
[avfoundation @ 0x7f]   640x480@[15.000000 15.000000]fps
";
    let modes = parse_avf_modes(text);
    assert_eq!(modes.len(), 2);
    assert_eq!((modes[0].width, modes[0].height), (1280, 720));
    assert_eq!((modes[0].fps_lo, modes[0].fps_hi), (1_000_000, 30_000_030));
    assert_eq!(parse_millionths("29.97"), 29_970_000);
    assert_eq!(parse_millionths("1.2.3"), 0);
}

#[test]
fn the_closest_mode_is_picked() {
    let modes = vec![mode(1280, 720, 1, 30), mode(1920, 1080, 1, 24), mode(1920, 1080, 50, 60)];
    assert_eq!(
        pick_best_avf_mode(&modes, 1280, 720, 25_000_000),
        (1280, 720, 25_000_000)
    );
    // 30 is nearer to 24 than to 50; the most that mode can do is taken.
    assert_eq!(
        pick_best_avf_mode(&modes, 1920, 1080, 30_000_000),
        (1920, 1080, 24_000_000)
    );
    // No mode has this size, so all of them compete.
    assert_eq!(
        pick_best_avf_mode(&modes, 640, 480, 55_000_000),
        (1920, 1080, 55_000_000)
    );
    assert_eq!(
        pick_best_avf_mode(&Vec::new(), 640, 480, 55_000_000),
        (640, 480, 55_000_000)
    );
}

#[test]
fn frame_rates_are_shown() {
    assert_eq!(format_fps(30_000_000), "30");
    assert_eq!(format_fps(29_970_000), "29.970");
    assert_eq!(format_fps(30_000_030), "30");
    // Close to a whole number, the fraction is cut off.
    assert_eq!(format_fps(29_999_600), "29");
}

#[test]
fn test_pattern_source() {
    let s = test_pattern(1280, 720, 30);
    assert_eq!(s.id, "test_pattern");
    assert!(s.available);
    let text = s.ffmpeg_input_args.join(" ");
    assert!(text.contains("1280x720"));
    assert!(text.contains("rate=30"));
}

#[test]
fn avfoundation_source() {
    let modes = vec![mode(1280, 720, 30, 30)];
    let s = avfoundation(1920, 1080, 30, 0, -1, "Cam", "", "", "", &modes);
    assert_eq!(
        s.ffmpeg_input_args,
        vec![
            "-f", "avfoundation", "-framerate", "30", "-video_size", "1280x720",
            "-capture_cursor", "1", "-i", "Cam", "-f", "lavfi", "-i",
            "anullsrc=channel_layout=stereo:sample_rate=48000",
        ]
    );
    assert_eq!(s.label, "AVFoundation");
    assert_eq!(s.description, "AVFoundation 1280x720@30fps -> 1920x1080@30fps");
    assert_eq!(
        s.notes,
        "Capturing at 1280x720@30fps (device's native mode); encoder will scale to 1920x1080@30fps for the destination."
    );
    assert!(!s.combined_av);
    let s = avfoundation(1280, 720, 25, 2, 3, "", "", "L", "D", &modes);
    assert_eq!(s.ffmpeg_input_args[9], "2:3");
    assert_eq!(
        s.notes,
        "Capturing at 30fps (device-supported); encoder will retime to 25fps for the destination."
    );
    let s = avfoundation(1280, 720, 30, 2, 3, "Cam", "Mic", "L", "D", &modes);
    assert_eq!(s.ffmpeg_input_args.last().unwrap(), "Cam:Mic");
    assert!(s.combined_av);
    assert_eq!((s.label.as_str(), s.description.as_str(), s.notes.as_str()), ("L", "D", ""));
}

#[test]
fn windows_sources() {
    let s = dshow_capture(1280, 720, 30, "Cam", "Mic", "", "");
    assert_eq!(
        s.ffmpeg_input_args,
        vec!["-f", "dshow", "-rtbufsize", "256M", "-i", "video=Cam:audio=Mic"]
    );
    assert!(s.combined_av);
    assert_eq!(s.description, "DirectShow capture (native rate) -> 1280x720 @ 30fps");
    let s = dshow_capture(1280, 720, 30, "Cam", "", "", "");
    assert_eq!(s.ffmpeg_input_args[5], "video=Cam");
    assert!(!s.combined_av);
    let s = gdigrab_desktop(1280, 720, 30, "Mic", "", "");
    assert_eq!(
        s.ffmpeg_input_args,
        vec![
            "-f", "gdigrab", "-framerate", "30", "-video_size", "1280x720", "-i", "desktop",
            "-f", "dshow", "-rtbufsize", "256M", "-i", "audio=Mic",
        ]
    );
    assert_eq!(s.label, "Screen capture");
}

#[test]
fn network_sources() {
    let s = srt_listen("0.0.0.0", 9710, 200_000, "secret");
    assert_eq!(
        s.ffmpeg_input_args,
        vec![
            "-f", "mpegts", "-i",
            "srt://0.0.0.0:9710?mode=listener&latency=200000&passphrase=secret",
        ]
    );
    assert_eq!(s.label, "SRT in :9710");
    let s = rtmp_listen("0.0.0.0", 1935, "live", "stream");
    assert_eq!(
        s.ffmpeg_input_args,
        vec!["-listen", "1", "-f", "flv", "-i", "rtmp://0.0.0.0:1935/live/stream"]
    );
    let s = pipe("");
    assert!(!s.available && s.ffmpeg_input_args.is_empty());
    assert_eq!(s.description, "Read from <unset>");
    assert_eq!(pipe("/x").ffmpeg_input_args, vec!["-re", "-i", "/x"]);
    assert!(!ndi("").available && ndi("A").available);
    assert_eq!(omt("").notes, "Pick an OMT sender from the discovery list.");
}

#[test]
fn the_selected_source_is_resolved() {
    let mut e = EncoderState::new();
    let none = DeviceList::default();
    let get = |e: &EncoderState| {
        resolve_source(&e.source_selection(), Platform::MacOs, &none, &Vec::new())
    };
    assert_eq!(get(&e).unwrap().id, "test_pattern");
    e.source_id = "pipe".to_string();
    e.pipe_path = "/tmp/fifo".to_string();
    assert_eq!(get(&e).unwrap().ffmpeg_input_args[2], "/tmp/fifo");
    e.source_id = "ndi".to_string();
    assert_eq!(get(&e).unwrap().id, "ndi");
    e.source_id = "omt".to_string();
    assert_eq!(get(&e).unwrap().id, "omt");
    e.source_id = "srt_listen".to_string();
    assert_eq!(get(&e).unwrap().id, "srt_listen");
    e.source_id = "rtmp_listen".to_string();
    assert_eq!(get(&e).unwrap().id, "rtmp_listen");
    e.source_id = "nonsense".to_string();
    assert!(get(&e).is_none());
}

#[test]
fn capture_devices_are_resolved_for_each_system() {
    let devs = DeviceList {
        video: vec![
            device(0, "Capture screen 0", DeviceKind::Video),
            device(1, "Cam", DeviceKind::Video),
        ],
        audio: vec![device(0, "Mic", DeviceKind::Audio)],
        scanned_at: None,
    };
    let mut e = EncoderState::new();
    e.source_id = "avfoundation".to_string();
    e.av_video_index = 1;
    e.av_audio_index = 0;
    let get = |e: &EncoderState, p: Platform| {
        resolve_capture_device(&e.source_selection(), 1920, 1080, 30, p, &devs, &Vec::new())
    };
    let s = get(&e, Platform::MacOs);
    assert_eq!(s.label, "Cam");
    assert_eq!(s.description, "Cam + no audio @ 1920x1080/30");
    e.audio_mode = "custom".to_string();
    let s = get(&e, Platform::MacOs);
    assert_eq!(s.ffmpeg_input_args.last().unwrap(), "Cam:Mic");
    assert_eq!(s.description, "Cam + Mic @ 1920x1080/30");
    let s = get(&e, Platform::Windows);
    assert_eq!(s.ffmpeg_input_args.last().unwrap(), "video=Cam:audio=Mic");
    e.av_video_index = 0;
    assert_eq!(get(&e, Platform::Windows).ffmpeg_input_args[1], "gdigrab");
    assert_eq!(get(&e, Platform::Other).id, "test_pattern");
    // A device that is not there goes by its number.
    e.av_video_index = 7;
    let s = get(&e, Platform::MacOs);
    assert_eq!(s.label, "video[7]");
    assert_eq!(s.ffmpeg_input_args[9], "7:0");
    assert_eq!(avf_device_name(&e.source_selection(), &devs), "");
    assert_eq!(resolve_avf_index_for_probe(&devs, "Cam", 9), 1);
    assert_eq!(resolve_avf_index_for_probe(&devs, "Other", 9), 9);
    assert_eq!(resolve_avf_index_for_probe(&devs, "", 9), 9);
}
