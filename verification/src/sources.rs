//! Sources: what FFmpeg is told to read from.
use vstd::prelude::*;
use vstd::string::*;

use crate::avf_modes::{capture_mode, format_fps, gap, pick_best_avf_mode, rate_text, AvfMode};
use crate::number::{decimal, decimal_int, show, show_signed};
use crate::text::{arg, arg_owned, args, cat2, cat3, cat4, cat5, cat6, cat7, cat8, str_texts, texts};

verus! {

/// A source.
#[derive(Debug)]
pub struct Source {
    pub id: String,
    pub label: String,
    pub description: String,
    /// The arguments before the output options. They give one video and one audio
    /// stream.
    pub ffmpeg_input_args: Vec<String>,
    pub available: bool,
    pub notes: String,
    /// Whether video and audio come from the same input.
    pub combined_av: bool,
}

/// What a `Source` holds.
pub struct SourceModel {
    pub id: Seq<char>,
    pub label: Seq<char>,
    pub description: Seq<char>,
    pub args: Seq<Seq<char>>,
    pub available: bool,
    pub notes: Seq<char>,
    pub combined_av: bool,
}

impl View for Source {
    type V = SourceModel;

    open spec fn view(&self) -> SourceModel {
        SourceModel {
            id: self.id@,
            label: self.label@,
            description: self.description@,
            args: texts(self.ffmpeg_input_args@),
            available: self.available,
            notes: self.notes@,
            combined_av: self.combined_av,
        }
    }
}

impl Default for Source {
    /// A source that has no name and reads nothing.
    fn default() -> (r: Self)
        ensures
            r@ == (SourceModel {
                id: Seq::empty(),
                label: Seq::empty(),
                description: Seq::empty(),
                args: Seq::empty(),
                available: true,
                notes: Seq::empty(),
                combined_av: false,
            }),
    {
        let r: Source = Source {
            id: String::new(),
            label: String::new(),
            description: String::new(),
            ffmpeg_input_args: Vec::new(),
            available: true,
            notes: String::new(),
            combined_av: false,
        };
        assert(r@.args =~= Seq::empty());
        r
    }
}

/// The operating system the encoder runs on, as far as capturing differs.
#[derive(Clone, Copy, Debug, PartialEq, Eq, Structural)]
pub enum Platform {
    MacOs,
    Windows,
    Other,
}

/// A silent audio track.
pub open spec fn silence() -> Seq<char> {
    "anullsrc=channel_layout=stereo:sample_rate=48000"@
}

/// The arguments that add a silent audio track.
pub open spec fn silent_input() -> Seq<Seq<char>> {
    seq!["-f"@, "lavfi"@, "-i"@, silence()]
}

/// Adds a silent audio track.
pub fn add_silent_input(v: &mut Vec<String>)
    ensures
        texts(final(v)@) == texts(old(v)@) + silent_input(),
{
    args(v, &["-f", "lavfi", "-i", "anullsrc=channel_layout=stereo:sample_rate=48000"]);
    assert(str_texts(
        ["-f", "lavfi", "-i", "anullsrc=channel_layout=stereo:sample_rate=48000"]@,
    ) =~= silent_input());
}

/// A size as FFmpeg takes it.
pub open spec fn size_text(w: u32, h: u32) -> Seq<char> {
    decimal(w as nat) + "x"@ + decimal(h as nat)
}

/// A size as FFmpeg takes it.
pub fn show_size(w: u32, h: u32) -> (r: String)
    ensures
        r@ == size_text(w, h),
{
    let a: String = show(w as u64);
    let b: String = show(h as u64);
    cat3(a.as_str(), "x", b.as_str())
}

/// `s`, or `default` if `s` is empty.
pub open spec fn or_default(s: Seq<char>, default: Seq<char>) -> Seq<char> {
    if s.len() == 0 {
        default
    } else {
        s
    }
}

fn pick_or(s: &str, default: &str) -> (r: String)
    ensures
        r@ == or_default(s@, default@),
{
    if s.is_empty() {
        default.to_owned()
    } else {
        s.to_owned()
    }
}

// ---------------------------------------------------------------------------
// Test pattern
// ---------------------------------------------------------------------------

/// Colour bars and a tone.
pub open spec fn test_pattern_model(w: u32, h: u32, fps: u32) -> SourceModel {
    let size = size_text(w, h);
    let rate = decimal(fps as nat);
    SourceModel {
        id: "test_pattern"@,
        label: "Test Pattern"@,
        description: "SMPTE bars "@ + size + " @ "@ + rate + "fps + 1 kHz tone"@,
        args: seq![
            "-re"@,
            "-f"@,
            "lavfi"@,
            "-i"@,
            "testsrc2=size="@ + size + ":rate="@ + rate + ",format=yuv420p"@,
            "-f"@,
            "lavfi"@,
            "-i"@,
            "sine=frequency=1000:sample_rate=48000"@,
        ],
        available: true,
        notes: Seq::empty(),
        combined_av: false,
    }
}

/// Colour bars and a tone.
pub fn test_pattern(width: u32, height: u32, fps: u32) -> (r: Source)
    ensures
        r@ == test_pattern_model(width, height, fps),
{
    let size: String = show_size(width, height);
    let rate: String = show(fps as u64);
    let description: String = cat5(
        "SMPTE bars ",
        size.as_str(),
        " @ ",
        rate.as_str(),
        "fps + 1 kHz tone",
    );
    let pattern: String = cat5(
        "testsrc2=size=",
        size.as_str(),
        ":rate=",
        rate.as_str(),
        ",format=yuv420p",
    );
    let mut list: Vec<String> = Vec::new();
    args(&mut list, &["-re", "-f", "lavfi", "-i"]);
    arg_owned(&mut list, pattern);
    args(&mut list, &["-f", "lavfi", "-i", "sine=frequency=1000:sample_rate=48000"]);
    assert(texts(list@) =~= test_pattern_model(width, height, fps).args);
    Source {
        id: "test_pattern".to_owned(),
        label: "Test Pattern".to_owned(),
        description,
        ffmpeg_input_args: list,
        available: true,
        notes: String::new(),
        combined_av: false,
    }
}

// ---------------------------------------------------------------------------
// Capture devices
// ---------------------------------------------------------------------------

/// What AVFoundation opens: the devices by name, or by index if the video device
/// has no name.
pub open spec fn avf_token(
    video_index: i32,
    audio_index: i32,
    video_name: Seq<char>,
    audio_name: Seq<char>,
) -> Seq<char> {
    if video_name.len() == 0 {
        decimal_int(video_index as int) + ":"@ + decimal_int(audio_index as int)
    } else if audio_name.len() == 0 {
        video_name
    } else {
        video_name + ":"@ + audio_name
    }
}

/// What the operator is told if the device cannot capture as wanted.
pub open spec fn avf_note(
    modes: Seq<AvfMode>,
    w: u32,
    h: u32,
    fps: u32,
) -> Seq<char> {
    let picked = capture_mode(modes, w, h, (fps as u64 * 1_000_000) as u64);
    if modes.len() > 0 && (picked.0 != w || picked.1 != h) {
        "Capturing at "@ + size_text(picked.0, picked.1) + "@"@ + rate_text(picked.2)
            + "fps (device's native mode); encoder will scale to "@ + size_text(w, h) + "@"@
            + decimal(fps as nat) + "fps for the destination."@
    } else if modes.len() > 0 && gap(picked.2, (fps as u64 * 1_000_000) as u64) > 1_000 {
        "Capturing at "@ + rate_text(picked.2)
            + "fps (device-supported); encoder will retime to "@ + decimal(fps as nat)
            + "fps for the destination."@
    } else {
        Seq::empty()
    }
}

/// A device captured through AVFoundation, in the mode that suits best. Without an
/// audio device a silent track is added.
pub open spec fn avfoundation_model(
    w: u32,
    h: u32,
    fps: u32,
    video_index: i32,
    audio_index: i32,
    video_name: Seq<char>,
    audio_name: Seq<char>,
    label: Seq<char>,
    description: Seq<char>,
    modes: Seq<AvfMode>,
) -> SourceModel {
    let picked = capture_mode(modes, w, h, (fps as u64 * 1_000_000) as u64);
    let size = size_text(picked.0, picked.1);
    let rate = rate_text(picked.2);
    let base = seq![
        "-f"@,
        "avfoundation"@,
        "-framerate"@,
        rate,
        "-video_size"@,
        size,
        "-capture_cursor"@,
        "1"@,
        "-i"@,
        avf_token(video_index, audio_index, video_name, audio_name),
    ];
    SourceModel {
        id: "avfoundation"@,
        label: or_default(label, "AVFoundation"@),
        description: or_default(
            description,
            "AVFoundation "@ + size + "@"@ + rate + "fps -> "@ + size_text(w, h) + "@"@ + decimal(
                fps as nat,
            ) + "fps"@,
        ),
        args: if audio_name.len() == 0 {
            base + silent_input()
        } else {
            base
        },
        available: true,
        notes: avf_note(modes, w, h, fps),
        combined_av: audio_name.len() > 0,
    }
}

fn note_for(modes: &Vec<AvfMode>, width: u32, height: u32, fps: u32) -> (r: String)
    ensures
        r@ == avf_note(modes@, width, height, fps),
{
    let want: u64 = fps as u64 * 1_000_000;
    let picked: (u32, u32, u64) = pick_best_avf_mode(modes, width, height, want);
    let rate: String = format_fps(picked.2);
    let target: String = show(fps as u64);
    if modes.len() > 0 && (picked.0 != width || picked.1 != height) {
        let size: String = show_size(picked.0, picked.1);
        let wanted: String = show_size(width, height);
        let head: String = cat5(
            "Capturing at ",
            size.as_str(),
            "@",
            rate.as_str(),
            "fps (device's native mode); encoder will scale to ",
        );
        cat5(head.as_str(), wanted.as_str(), "@", target.as_str(), "fps for the destination.")
    } else {
        let off: u64 = if picked.2 > want {
            picked.2 - want
        } else {
            want - picked.2
        };
        if modes.len() > 0 && off > 1_000 {
            cat5(
                "Capturing at ",
                rate.as_str(),
                "fps (device-supported); encoder will retime to ",
                target.as_str(),
                "fps for the destination.",
            )
        } else {
            String::new()
        }
    }
}

/// A device captured through AVFoundation, in the mode of `modes` that suits best.
pub fn avfoundation(
    width: u32,
    height: u32,
    fps: u32,
    video_index: i32,
    audio_index: i32,
    video_name: &str,
    audio_name: &str,
    label: &str,
    description: &str,
    modes: &Vec<AvfMode>,
) -> (r: Source)
    ensures
        r@ == avfoundation_model(
            width,
            height,
            fps,
            video_index,
            audio_index,
            video_name@,
            audio_name@,
            label@,
            description@,
            modes@,
        ),
{
    let want: u64 = fps as u64 * 1_000_000;
    let picked: (u32, u32, u64) = pick_best_avf_mode(modes, width, height, want);
    let size: String = show_size(picked.0, picked.1);
    let rate: String = format_fps(picked.2);
    let notes: String = note_for(modes, width, height, fps);
    let token: String = if video_name.is_empty() {
        let v: String = show_signed(video_index as i64);
        let a: String = show_signed(audio_index as i64);
        cat3(v.as_str(), ":", a.as_str())
    } else if audio_name.is_empty() {
        video_name.to_owned()
    } else {
        cat3(video_name, ":", audio_name)
    };
    let wanted: String = show_size(width, height);
    let target: String = show(fps as u64);
    let standard: String = cat8(
        "AVFoundation ",
        size.as_str(),
        "@",
        rate.as_str(),
        "fps -> ",
        wanted.as_str(),
        "@",
        target.as_str(),
    );
    let standard: String = cat2(standard.as_str(), "fps");
    let mut list: Vec<String> = Vec::new();
    args(&mut list, &["-f", "avfoundation", "-framerate"]);
    arg(&mut list, rate.as_str());
    arg(&mut list, "-video_size");
    arg(&mut list, size.as_str());
    args(&mut list, &["-capture_cursor", "1", "-i"]);
    arg_owned(&mut list, token);
    if audio_name.is_empty() {
        add_silent_input(&mut list);
    }
    let ghost m = avfoundation_model(
        width,
        height,
        fps,
        video_index,
        audio_index,
        video_name@,
        audio_name@,
        label@,
        description@,
        modes@,
    );
    assert(texts(list@) =~= m.args);
    let r: Source = Source {
        id: "avfoundation".to_owned(),
        label: pick_or(label, "AVFoundation"),
        description: pick_or(description, standard.as_str()),
        ffmpeg_input_args: list,
        available: true,
        notes,
        combined_av: !audio_name.is_empty(),
    };
    assert(r@.description == m.description);
    r
}

/// A device captured through DirectShow.
pub open spec fn dshow_model(
    w: u32,
    h: u32,
    fps: u32,
    video_name: Seq<char>,
    audio_name: Seq<char>,
    label: Seq<char>,
    description: Seq<char>,
) -> SourceModel {
    let wanted = size_text(w, h) + " @ "@ + decimal(fps as nat) + "fps"@;
    let base = seq!["-f"@, "dshow"@, "-rtbufsize"@, "256M"@, "-i"@];
    if audio_name.len() > 0 {
        SourceModel {
            id: "avfoundation"@,
            label: or_default(label, "DirectShow"@),
            description: or_default(
                description,
                "DirectShow capture (native rate) -> "@ + wanted,
            ),
            args: base.push("video="@ + video_name + ":audio="@ + audio_name),
            available: true,
            notes: Seq::empty(),
            combined_av: true,
        }
    } else {
        SourceModel {
            id: "avfoundation"@,
            label: or_default(label, "DirectShow"@),
            description: or_default(
                description,
                "DirectShow video (native rate, silent) -> "@ + wanted,
            ),
            args: base.push("video="@ + video_name) + silent_input(),
            available: true,
            notes: Seq::empty(),
            combined_av: false,
        }
    }
}

/// A device captured through DirectShow. Without an audio device a silent track is
/// added.
pub fn dshow_capture(
    width: u32,
    height: u32,
    fps: u32,
    video_name: &str,
    audio_name: &str,
    label: &str,
    description: &str,
) -> (r: Source)
    ensures
        r@ == dshow_model(width, height, fps, video_name@, audio_name@, label@, description@),
{
    let size: String = show_size(width, height);
    let rate: String = show(fps as u64);
    let wanted: String = cat4(size.as_str(), " @ ", rate.as_str(), "fps");
    let mut list: Vec<String> = Vec::new();
    args(&mut list, &["-f", "dshow", "-rtbufsize", "256M", "-i"]);
    let combined: bool = !audio_name.is_empty();
    let standard: String = if combined {
        arg_owned(&mut list, cat4("video=", video_name, ":audio=", audio_name));
        cat2("DirectShow capture (native rate) -> ", wanted.as_str())
    } else {
        arg_owned(&mut list, cat2("video=", video_name));
        add_silent_input(&mut list);
        cat2("DirectShow video (native rate, silent) -> ", wanted.as_str())
    };
    let ghost m = dshow_model(width, height, fps, video_name@, audio_name@, label@, description@);
    assert(texts(list@) =~= m.args);
    Source {
        id: "avfoundation".to_owned(),
        label: pick_or(label, "DirectShow"),
        description: pick_or(description, standard.as_str()),
        ffmpeg_input_args: list,
        available: true,
        notes: String::new(),
        combined_av: combined,
    }
}

/// The whole screen, captured on Windows.
pub open spec fn gdigrab_model(
    w: u32,
    h: u32,
    fps: u32,
    audio_name: Seq<char>,
    label: Seq<char>,
    description: Seq<char>,
) -> SourceModel {
    let size = size_text(w, h);
    let rate = decimal(fps as nat);
    let base = seq![
        "-f"@,
        "gdigrab"@,
        "-framerate"@,
        rate,
        "-video_size"@,
        size,
        "-i"@,
        "desktop"@,
    ];
    SourceModel {
        id: "avfoundation"@,
        label: or_default(label, "Screen capture"@),
        description: or_default(
            description,
            "Desktop capture "@ + size + " @ "@ + rate + "fps"@,
        ),
        args: if audio_name.len() > 0 {
            base + seq![
                "-f"@,
                "dshow"@,
                "-rtbufsize"@,
                "256M"@,
                "-i"@,
                "audio="@ + audio_name,
            ]
        } else {
            base + silent_input()
        },
        available: true,
        notes: Seq::empty(),
        combined_av: false,
    }
}

/// The whole screen, captured on Windows.
pub fn gdigrab_desktop(
    width: u32,
    height: u32,
    fps: u32,
    audio_name: &str,
    label: &str,
    description: &str,
) -> (r: Source)
    ensures
        r@ == gdigrab_model(width, height, fps, audio_name@, label@, description@),
{
    let size: String = show_size(width, height);
    let rate: String = show(fps as u64);
    let mut list: Vec<String> = Vec::new();
    args(&mut list, &["-f", "gdigrab", "-framerate"]);
    arg(&mut list, rate.as_str());
    arg(&mut list, "-video_size");
    arg(&mut list, size.as_str());
    args(&mut list, &["-i", "desktop"]);
    if !audio_name.is_empty() {
        args(&mut list, &["-f", "dshow", "-rtbufsize", "256M", "-i"]);
        arg_owned(&mut list, cat2("audio=", audio_name));
    } else {
        add_silent_input(&mut list);
    }
    let standard: String = cat5("Desktop capture ", size.as_str(), " @ ", rate.as_str(), "fps");
    let ghost m = gdigrab_model(width, height, fps, audio_name@, label@, description@);
    assert(texts(list@) =~= m.args);
    Source {
        id: "avfoundation".to_owned(),
        label: pick_or(label, "Screen capture"),
        description: pick_or(description, standard.as_str()),
        ffmpeg_input_args: list,
        available: true,
        notes: String::new(),
        combined_av: false,
    }
}

// ---------------------------------------------------------------------------
// Pipes, relays and network senders
// ---------------------------------------------------------------------------

/// What the operator is told about the pipe source.
pub open spec fn pipe_notes() -> Seq<char> {
    "Set the pipe path in the Source panel. Works with FIFOs, files, or any URL FFmpeg supports (rtsp://, http://, etc.)."@
}

/// A file, a FIFO or a URL.
pub open spec fn pipe_model(path: Seq<char>) -> SourceModel {
    SourceModel {
        id: "pipe"@,
        label: "Pipe / URL"@,
        description: "Read from "@ + or_default(path, "<unset>"@),
        args: if path.len() == 0 {
            Seq::empty()
        } else {
            seq!["-re"@, "-i"@, path]
        },
        available: path.len() > 0,
        notes: pipe_notes(),
        combined_av: true,
    }
}

/// A file, a FIFO or a URL.
pub fn pipe(path: &str) -> (r: Source)
    ensures
        r@ == pipe_model(path@),
{
    let shown: String = pick_or(path, "<unset>");
    let mut list: Vec<String> = Vec::new();
    if !path.is_empty() {
        args(&mut list, &["-re", "-i"]);
        arg(&mut list, path);
    }
    assert(texts(list@) =~= pipe_model(path@).args);
    Source {
        id: "pipe".to_owned(),
        label: "Pipe / URL".to_owned(),
        description: cat2("Read from ", shown.as_str()),
        ffmpeg_input_args: list,
        available: !path.is_empty(),
        notes: "Set the pipe path in the Source panel. Works with FIFOs, files, or any URL FFmpeg supports (rtsp://, http://, etc.).".to_owned(),
        combined_av: true,
    }
}

/// A listener for SRT.
pub open spec fn srt_listen_model(
    host: Seq<char>,
    port: u16,
    latency: u32,
    passphrase: Seq<char>,
) -> SourceModel {
    let p = decimal(port as nat);
    let url = "srt://"@ + host + ":"@ + p + "?mode=listener&latency="@ + decimal(latency as nat);
    SourceModel {
        id: "srt_listen"@,
        label: "SRT in :"@ + p,
        description: "SRT listener on "@ + host + ":"@ + p,
        args: seq![
            "-f"@,
            "mpegts"@,
            "-i"@,
            if passphrase.len() > 0 {
                url + "&passphrase="@ + passphrase
            } else {
                url
            },
        ],
        available: true,
        notes: "Point your encoder at srt://<this-machine-ip>:"@ + p
            + " in caller mode. MPEG-TS is auto-detected; H.264 / H.265 / AAC payloads all work — they get re-encoded into BMD's preferred profile on the way out."@,
        combined_av: true,
    }
}

/// A listener for SRT.
pub fn srt_listen(bind_host: &str, bind_port: u16, latency_us: u32, passphrase: &str) -> (r: Source)
    ensures
        r@ == srt_listen_model(bind_host@, bind_port, latency_us, passphrase@),
{
    let p: String = show(bind_port as u64);
    let latency: String = show(latency_us as u64);
    let mut url: String = cat6(
        "srt://",
        bind_host,
        ":",
        p.as_str(),
        "?mode=listener&latency=",
        latency.as_str(),
    );
    if !passphrase.is_empty() {
        url.push_str("&passphrase=");
        url.push_str(passphrase);
    }
    let mut list: Vec<String> = Vec::new();
    args(&mut list, &["-f", "mpegts", "-i"]);
    arg_owned(&mut list, url);
    assert(texts(list@) =~= srt_listen_model(bind_host@, bind_port, latency_us, passphrase@).args);
    Source {
        id: "srt_listen".to_owned(),
        label: cat2("SRT in :", p.as_str()),
        description: cat4("SRT listener on ", bind_host, ":", p.as_str()),
        ffmpeg_input_args: list,
        available: true,
        notes: cat3(
            "Point your encoder at srt://<this-machine-ip>:",
            p.as_str(),
            " in caller mode. MPEG-TS is auto-detected; H.264 / H.265 / AAC payloads all work — they get re-encoded into BMD's preferred profile on the way out.",
        ),
        combined_av: true,
    }
}

/// An NDI sender. Its arguments follow once its format is known.
pub open spec fn ndi_model(name: Seq<char>) -> SourceModel {
    SourceModel {
        id: "ndi"@,
        label: name,
        description: "NDI direct: "@ + name,
        args: Seq::empty(),
        available: name.len() > 0,
        notes: if name.len() == 0 {
            "Pick an NDI sender from the discovery list."@
        } else {
            Seq::empty()
        },
        combined_av: false,
    }
}

/// An NDI sender. Its arguments follow once its format is known.
pub fn ndi(source_name: &str) -> (r: Source)
    ensures
        r@ == ndi_model(source_name@),
{
    let list: Vec<String> = Vec::new();
    assert(texts(list@) =~= Seq::<Seq<char>>::empty());
    Source {
        id: "ndi".to_owned(),
        label: source_name.to_owned(),
        description: cat2("NDI direct: ", source_name),
        ffmpeg_input_args: list,
        available: !source_name.is_empty(),
        notes: if source_name.is_empty() {
            "Pick an NDI sender from the discovery list.".to_owned()
        } else {
            String::new()
        },
        combined_av: false,
    }
}

/// An OMT sender. Its arguments follow once its format is known.
pub open spec fn omt_model(name: Seq<char>) -> SourceModel {
    SourceModel {
        id: "omt"@,
        label: name,
        description: "OMT direct: "@ + name,
        args: Seq::empty(),
        available: name.len() > 0,
        notes: if name.len() == 0 {
            "Pick an OMT sender from the discovery list."@
        } else {
            Seq::empty()
        },
        combined_av: false,
    }
}

/// An OMT sender. Its arguments follow once its format is known.
pub fn omt(source_name: &str) -> (r: Source)
    ensures
        r@ == omt_model(source_name@),
{
    let list: Vec<String> = Vec::new();
    assert(texts(list@) =~= Seq::<Seq<char>>::empty());
    Source {
        id: "omt".to_owned(),
        label: source_name.to_owned(),
        description: cat2("OMT direct: ", source_name),
        ffmpeg_input_args: list,
        available: !source_name.is_empty(),
        notes: if source_name.is_empty() {
            "Pick an OMT sender from the discovery list.".to_owned()
        } else {
            String::new()
        },
        combined_av: false,
    }
}

/// A listener for RTMP.
pub open spec fn rtmp_listen_model(
    host: Seq<char>,
    port: u16,
    app: Seq<char>,
    name: Seq<char>,
) -> SourceModel {
    let p = decimal(port as nat);
    SourceModel {
        id: "rtmp_listen"@,
        label: "RTMP in :"@ + p,
        description: "RTMP listener on "@ + host + ":"@ + p + "/"@ + app,
        args: seq![
            "-listen"@,
            "1"@,
            "-f"@,
            "flv"@,
            "-i"@,
            "rtmp://"@ + host + ":"@ + p + "/"@ + app + "/"@ + name,
        ],
        available: true,
        notes: "In OBS: Settings -> Stream -> Custom, Server rtmp://<this-machine-ip>:"@ + p + "/"@
            + app + ", Key "@ + name
            + ". FLV/H.264/AAC. Re-encoded into BMD's preferred profile downstream."@,
        combined_av: true,
    }
}

/// A listener for RTMP.
pub fn rtmp_listen(bind_host: &str, bind_port: u16, app_path: &str, stream_name: &str) -> (r:
    Source)
    ensures
        r@ == rtmp_listen_model(bind_host@, bind_port, app_path@, stream_name@),
{
    let p: String = show(bind_port as u64);
    let url: String = cat8(
        "rtmp://",
        bind_host,
        ":",
        p.as_str(),
        "/",
        app_path,
        "/",
        stream_name,
    );
    let mut list: Vec<String> = Vec::new();
    args(&mut list, &["-listen", "1", "-f", "flv", "-i"]);
    arg_owned(&mut list, url);
    assert(texts(list@) =~= rtmp_listen_model(bind_host@, bind_port, app_path@, stream_name@).args);
    Source {
        id: "rtmp_listen".to_owned(),
        label: cat2("RTMP in :", p.as_str()),
        description: cat6("RTMP listener on ", bind_host, ":", p.as_str(), "/", app_path),
        ffmpeg_input_args: list,
        available: true,
        notes: cat7(
            "In OBS: Settings -> Stream -> Custom, Server rtmp://<this-machine-ip>:",
            p.as_str(),
            "/",
            app_path,
            ", Key ",
            stream_name,
            ". FLV/H.264/AAC. Re-encoded into BMD's preferred profile downstream.",
        ),
        combined_av: true,
    }
}

} // verus!
