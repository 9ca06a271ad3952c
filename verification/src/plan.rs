//! The plan of a stream: what is sent where, worked out from the settings before
//! anything is started.
use vstd::prelude::*;
use vstd::string::*;

use crate::avf_modes::AvfMode;
use crate::decklink::{mode_models, DecklinkMode, ModeModel};
use crate::device_scanner::{device_models, DeviceList};
use crate::number::{decimal, lowered, round_ratio, rounded_ratio, show, to_lower};
use crate::resolve::{picked_source, resolve_source};
use crate::scan::{
    blank, contains, cut_last, ends_with, finishes, holds, is_blank, without_last,
    without_last_ends,
};
use crate::services::in_name_order;
use crate::snapshot::{
    active_config, active_server, mode_dimensions, selection_of, video_dimensions, Destination,
    SourceSelection,
};
use crate::sources::{or_default, Platform, Source, SourceModel};
use crate::state::{EncoderModel, EncoderState};
use crate::streamid::{
    authority, build_srt_url, host_part, parse_srt_host_port, port_part, srt_url, SrtUrlModel,
    SrtUrlParams,
};
use crate::text::{
    arg, arg_owned, between_quotes, cat2, cat3, cat4, cat5, join, joined, opt_text, same,
    show_quoted, texts,
};
use crate::xml::{ConfigModel, StreamConfig};

verus! {

// ---------------------------------------------------------------------------
// Types
// ---------------------------------------------------------------------------

/// The plan of a stream.
#[derive(Debug)]
pub struct StreamPlan {
    pub width: u32,
    pub height: u32,
    pub fps: u32,
    pub video_bitrate: u64,
    pub audio_bitrate: u64,
    pub keyframe_seconds: u32,
    pub output_url: String,
    pub protocol: String,
    pub source: Source,
    pub video_codec: String,
    /// What the video goes through before the encoder.
    pub video_filter: Option<String>,
    /// What the audio goes through before the encoder.
    pub audio_filter: Option<String>,
    /// Whether there is one audio channel.
    pub audio_output_mono: bool,
    /// The card that is output to, and its mode; empty for a network destination.
    pub decklink_device_name: String,
    pub decklink_format_code: String,
    pub decklink_pixel_format: String,
    pub video_encoder: String,
    pub encoder_extra_flags: String,
    pub audio_codec: String,
    pub audio_bitrate_kbps: u32,
    pub audio_sample_rate: u32,
    pub audio_channels: u8,
}

/// What a `StreamPlan` holds.
pub struct PlanModel {
    pub width: u32,
    pub height: u32,
    pub fps: u32,
    pub video_bitrate: u64,
    pub audio_bitrate: u64,
    pub keyframe_seconds: u32,
    pub output_url: Seq<char>,
    pub protocol: Seq<char>,
    pub source: SourceModel,
    pub video_codec: Seq<char>,
    pub video_filter: Option<Seq<char>>,
    pub audio_filter: Option<Seq<char>>,
    pub audio_output_mono: bool,
    pub decklink_device_name: Seq<char>,
    pub decklink_format_code: Seq<char>,
    pub decklink_pixel_format: Seq<char>,
    pub video_encoder: Seq<char>,
    pub encoder_extra_flags: Seq<char>,
    pub audio_codec: Seq<char>,
    pub audio_bitrate_kbps: u32,
    pub audio_sample_rate: u32,
    pub audio_channels: u8,
}

impl View for StreamPlan {
    type V = PlanModel;

    open spec fn view(&self) -> PlanModel {
        PlanModel {
            width: self.width,
            height: self.height,
            fps: self.fps,
            video_bitrate: self.video_bitrate,
            audio_bitrate: self.audio_bitrate,
            keyframe_seconds: self.keyframe_seconds,
            output_url: self.output_url@,
            protocol: self.protocol@,
            source: self.source@,
            video_codec: self.video_codec@,
            video_filter: opt_text(self.video_filter),
            audio_filter: opt_text(self.audio_filter),
            audio_output_mono: self.audio_output_mono,
            decklink_device_name: self.decklink_device_name@,
            decklink_format_code: self.decklink_format_code@,
            decklink_pixel_format: self.decklink_pixel_format@,
            video_encoder: self.video_encoder@,
            encoder_extra_flags: self.encoder_extra_flags@,
            audio_codec: self.audio_codec@,
            audio_bitrate_kbps: self.audio_bitrate_kbps,
            audio_sample_rate: self.audio_sample_rate,
            audio_channels: self.audio_channels,
        }
    }
}

/// Frames from one key frame to the next.
pub open spec fn gop_length(keyframe_seconds: u32, fps: u32) -> int {
    if keyframe_seconds * fps < 1 {
        1
    } else {
        keyframe_seconds * fps
    }
}

impl StreamPlan {
    /// Frames from one key frame to the next; at least one.
    pub fn gop(&self) -> (r: u32)
        requires
            self.keyframe_seconds * self.fps <= u32::MAX,
        ensures
            r == gop_length(self.keyframe_seconds, self.fps),
    {
        let n: u32 = self.keyframe_seconds * self.fps;
        if n < 1 {
            1
        } else {
            n
        }
    }
}

/// Why there is no plan.
#[derive(Debug)]
pub enum PlanError {
    /// No encoding is active.
    NoProfile,
    /// No destination is active.
    NoServer,
    /// The stream key is empty.
    NoStreamKey,
    /// The destination speaks a protocol that cannot be streamed to.
    UnsupportedProtocol(String),
    /// The kind of source is not known.
    UnknownSource(String),
    /// High-efficiency audio, of the second version or the first, is not played by
    /// the switcher.
    HighEfficiencyAudio(bool),
    /// FFmpeg cannot output to cards.
    NoCardOutput,
    /// No card is picked.
    NoCard,
    /// No output mode is picked.
    NoCardMode,
    /// The picked card, named second, does not have the picked mode.
    NotACardMode(String, String),
}

/// What a `PlanError` holds.
pub enum PlanErrorModel {
    NoProfile,
    NoServer,
    NoStreamKey,
    UnsupportedProtocol(Seq<char>),
    UnknownSource(Seq<char>),
    HighEfficiencyAudio(bool),
    NoCardOutput,
    NoCard,
    NoCardMode,
    NotACardMode(Seq<char>, Seq<char>),
}

impl View for PlanError {
    type V = PlanErrorModel;

    open spec fn view(&self) -> PlanErrorModel {
        match *self {
            PlanError::NoProfile => PlanErrorModel::NoProfile,
            PlanError::NoServer => PlanErrorModel::NoServer,
            PlanError::NoStreamKey => PlanErrorModel::NoStreamKey,
            PlanError::UnsupportedProtocol(p) => PlanErrorModel::UnsupportedProtocol(p@),
            PlanError::UnknownSource(s) => PlanErrorModel::UnknownSource(s@),
            PlanError::HighEfficiencyAudio(b) => PlanErrorModel::HighEfficiencyAudio(b),
            PlanError::NoCardOutput => PlanErrorModel::NoCardOutput,
            PlanError::NoCard => PlanErrorModel::NoCard,
            PlanError::NoCardMode => PlanErrorModel::NoCardMode,
            PlanError::NotACardMode(m, d) => PlanErrorModel::NotACardMode(m@, d@),
        }
    }
}

/// What the operator is told.
pub open spec fn plan_error_text(e: PlanErrorModel) -> Seq<char> {
    match e {
        PlanErrorModel::NoProfile => "No streaming profile loaded. Add a service XML first."@,
        PlanErrorModel::NoServer => "No server selected. Pick an RTMP or SRT server in the UI."@,
        PlanErrorModel::NoStreamKey => "Stream key is empty."@,
        PlanErrorModel::UnsupportedProtocol(p) => "Unsupported protocol: "@ + between_quotes(p),
        PlanErrorModel::UnknownSource(s) => "Source resolve failed: Unknown source id: "@
            + between_quotes(s),
        PlanErrorModel::HighEfficiencyAudio(second) => "AAC-"@ + (if second {
            "HEv2"@
        } else {
            "HE"@
        })
            + " not supported by the ATEM SRT decoder. Use AAC-LC or switch destination."@,
        PlanErrorModel::NoCardOutput =>
            "This FFmpeg build does not include DeckLink output (--enable-decklink missing). Reinstall ATEM IP Patchbay."@,
        PlanErrorModel::NoCard => "No DeckLink device selected. Pick one in the Destination card."@,
        PlanErrorModel::NoCardMode =>
            "No DeckLink output mode selected. Pick one for the chosen device."@,
        PlanErrorModel::NotACardMode(m, d) => "DeckLink mode '"@ + m
            + "' not supported by device '"@ + d + "'. Re-pick a mode from the dropdown."@,
    }
}

impl PlanError {
    /// What the operator is told.
    pub fn message(&self) -> (r: String)
        ensures
            r@ == plan_error_text(self@),
    {
        match self {
            PlanError::NoProfile => {
                "No streaming profile loaded. Add a service XML first.".to_owned()
            },
            PlanError::NoServer => {
                "No server selected. Pick an RTMP or SRT server in the UI.".to_owned()
            },
            PlanError::NoStreamKey => "Stream key is empty.".to_owned(),
            PlanError::UnsupportedProtocol(p) => {
                let q: String = show_quoted(p.as_str());
                cat2("Unsupported protocol: ", q.as_str())
            },
            PlanError::UnknownSource(s) => {
                let q: String = show_quoted(s.as_str());
                cat2("Source resolve failed: Unknown source id: ", q.as_str())
            },
            PlanError::HighEfficiencyAudio(second) => {
                let kind: &str = if *second {
                    "HEv2"
                } else {
                    "HE"
                };
                cat3(
                    "AAC-",
                    kind,
                    " not supported by the ATEM SRT decoder. Use AAC-LC or switch destination.",
                )
            },
            PlanError::NoCardOutput => {
                "This FFmpeg build does not include DeckLink output (--enable-decklink missing). Reinstall ATEM IP Patchbay.".to_owned()
            },
            PlanError::NoCard => {
                "No DeckLink device selected. Pick one in the Destination card.".to_owned()
            },
            PlanError::NoCardMode => {
                "No DeckLink output mode selected. Pick one for the chosen device.".to_owned()
            },
            PlanError::NotACardMode(m, d) => {
                cat5(
                    "DeckLink mode '",
                    m.as_str(),
                    "' not supported by device '",
                    d.as_str(),
                    "'. Re-pick a mode from the dropdown.",
                )
            },
        }
    }
}

// ---------------------------------------------------------------------------
// RTMP URLs
// ---------------------------------------------------------------------------

/// The URL with the stream key as its last part, unless it is there already or is
/// empty.
pub open spec fn rtmp_url(base: Seq<char>, key: Seq<char>) -> Seq<char> {
    let b = without_last(base, '/');
    if key.len() > 0 && !finishes(b, "/"@ + key) {
        b + "/"@ + key
    } else {
        b
    }
}

/// The URL with the stream key as its last part, unless it is there already or is
/// empty.
pub fn build_rtmp_url(base_url: &str, stream_key: &str) -> (r: String)
    ensures
        r@ == rtmp_url(base_url@, stream_key@),
{
    let b: String = cut_last(base_url, '/');
    let tail: String = cat2("/", stream_key);
    if !stream_key.is_empty() && !ends_with(b.as_str(), tail.as_str()) {
        cat3(b.as_str(), "/", stream_key)
    } else {
        b
    }
}

/// Adding a stream key that does not end in a slash a second time changes nothing.
pub proof fn rtmp_url_twice(base: Seq<char>, key: Seq<char>)
    requires
        key.len() > 0 ==> key.last() != '/',
    ensures
        rtmp_url(rtmp_url(base, key), key) == rtmp_url(base, key),
{
    reveal_strlit("/");
    let b = without_last(base, '/');
    without_last_ends(base, '/');
    let u = rtmp_url(base, key);
    if key.len() > 0 {
        let tail = "/"@ + key;
        if !finishes(b, tail) {
            assert(u == b + "/"@ + key);
            assert(u.last() == key.last());
            assert(u.skip(u.len() - tail.len()) =~= tail);
            assert(finishes(u, tail));
        }
    }
}

// ---------------------------------------------------------------------------
// Filters
// ---------------------------------------------------------------------------

/// The picked capture device is a screen: it comes in its own size and at no
/// steady rate.
pub open spec fn captures_screen(s: EncoderModel) -> bool {
    s.source_id == "avfoundation"@ && (holds(lowered(s.av_video_name), "capture screen"@) || holds(
        lowered(s.av_video_name),
        "desk view"@,
    ))
}

/// What brings a screen to the output format: scaled with its shape kept, with
/// black bars around it, and at a steady rate.
pub open spec fn screen_filter(w: u32, h: u32, fps: u32) -> Seq<char> {
    "scale="@ + decimal(w as nat) + ":"@ + decimal(h as nat)
        + ":force_original_aspect_ratio=decrease:flags=lanczos,pad="@ + decimal(w as nat) + ":"@
        + decimal(h as nat) + ":(ow-iw)/2:(oh-ih)/2:color=black,fps="@ + decimal(fps as nat)
        + ",setsar=1"@
}

/// What the video goes through before the encoder.
pub open spec fn video_filter(s: EncoderModel, w: u32, h: u32, fps: u32) -> Option<Seq<char>> {
    if captures_screen(s) {
        Some(screen_filter(w, h, fps))
    } else {
        None
    }
}

/// What the video goes through before the encoder.
pub fn build_video_filter(snap: &EncoderState, width: u32, height: u32, fps: u32) -> (r: Option<
    String,
>)
    ensures
        opt_text(r) == video_filter(snap@, width, height, fps),
{
    if !same(snap.source_id.as_str(), "avfoundation") {
        return None;
    }
    let name: String = to_lower(snap.av_video_name.as_str());
    if !(contains(name.as_str(), "capture screen") || contains(name.as_str(), "desk view")) {
        return None;
    }
    let w: String = show(width as u64);
    let h: String = show(height as u64);
    let rate: String = show(fps as u64);
    let mut out: String = cat4("scale=", w.as_str(), ":", h.as_str());
    out.push_str(":force_original_aspect_ratio=decrease:flags=lanczos,pad=");
    out.push_str(w.as_str());
    out.push_str(":");
    out.push_str(h.as_str());
    out.push_str(":(ow-iw)/2:(oh-ih)/2:color=black,fps=");
    out.push_str(rate.as_str());
    out.push_str(",setsar=1");
    Some(out)
}

/// The audio comes from a device with many channels, of which two are picked.
pub open spec fn picks_channels(s: EncoderModel) -> bool {
    s.audio_mode == "custom"@ && (holds(lowered(s.av_audio_name), "dante"@) || holds(
        lowered(s.av_audio_name),
        "aggregate"@,
    ))
}

/// A channel, counted from one in the settings and from zero by FFmpeg.
pub open spec fn channel_number(n: u8) -> nat {
    if n < 1 {
        0
    } else {
        (n - 1) as nat
    }
}

/// The steps the audio goes through: the picked pair of channels, silence if
/// wanted, the pull towards a card's clock, and the measurement of levels.
pub open spec fn audio_steps(s: EncoderModel) -> Seq<Seq<char>> {
    let pan = if picks_channels(s) {
        seq![
            "pan=stereo|c0=c"@ + decimal(channel_number(s.audio_pan_l)) + "|c1=c"@ + decimal(
                channel_number(s.audio_pan_r),
            ),
        ]
    } else {
        Seq::empty()
    };
    let mute = if s.audio_mode == "silent"@ {
        seq!["volume=0"@]
    } else {
        Seq::empty()
    };
    let clock = if s.destination_type == "decklink"@ {
        seq!["aresample=async=1000:first_pts=0"@]
    } else {
        Seq::empty()
    };
    let levels = if s.meters_enabled {
        seq!["astats=metadata=1:reset=1:length=0.25"@, "ametadata=mode=print:direct=1"@]
    } else {
        Seq::empty()
    };
    pan + mute + clock + levels
}

/// What the audio goes through before the encoder.
pub open spec fn audio_filter(s: EncoderModel) -> Option<Seq<char>> {
    if audio_steps(s).len() == 0 {
        None
    } else {
        Some(joined(audio_steps(s), ","@))
    }
}

/// What the audio goes through before the encoder.
pub fn build_audio_filter(snap: &EncoderState) -> (r: Option<String>)
    ensures
        opt_text(r) == audio_filter(snap@),
{
    let mut chain: Vec<String> = Vec::new();
    if same(snap.audio_mode.as_str(), "custom") {
        let name: String = to_lower(snap.av_audio_name.as_str());
        if contains(name.as_str(), "dante") || contains(name.as_str(), "aggregate") {
            let l: u8 = if snap.audio_pan_l < 1 {
                0
            } else {
                snap.audio_pan_l - 1
            };
            let r: u8 = if snap.audio_pan_r < 1 {
                0
            } else {
                snap.audio_pan_r - 1
            };
            let lt: String = show(l as u64);
            let rt: String = show(r as u64);
            arg_owned(&mut chain, cat4("pan=stereo|c0=c", lt.as_str(), "|c1=c", rt.as_str()));
        }
    }
    if same(snap.audio_mode.as_str(), "silent") {
        arg(&mut chain, "volume=0");
    }
    if same(snap.destination_type.as_str(), "decklink") {
        arg(&mut chain, "aresample=async=1000:first_pts=0");
    }
    if snap.meters_enabled {
        arg(&mut chain, "astats=metadata=1:reset=1:length=0.25");
        arg(&mut chain, "ametadata=mode=print:direct=1");
    }
    assert(texts(chain@) =~= audio_steps(snap@));
    if chain.len() == 0 {
        None
    } else {
        Some(join(&chain, ","))
    }
}

// ---------------------------------------------------------------------------
// The plan
// ---------------------------------------------------------------------------

/// What is known of the machine when a plan is made: the devices it has, the modes
/// of the picked camera, whether FFmpeg can output to cards, and the modes of the
/// picked card.
pub struct Machine {
    pub platform: Platform,
    pub devices: DeviceList,
    pub camera_modes: Vec<AvfMode>,
    pub card_output: bool,
    pub card_modes: Vec<DecklinkMode>,
}

/// The source that the settings pick on a machine.
pub open spec fn machine_source(s: EncoderModel, m: Machine) -> Option<SourceModel> {
    picked_source(
        selection_of(s),
        m.platform,
        device_models(m.devices.video@),
        device_models(m.devices.audio@),
        m.camera_modes@,
    )
}

/// The SRT destination at `url`.
pub open spec fn srt_destination(s: EncoderModel, url: Seq<char>) -> Seq<char> {
    srt_url(
        SrtUrlModel {
            host: host_part(authority(url)),
            port: port_part(authority(url), 1935),
            stream_key: s.stream_key,
            device_name: s.label,
            device_uuid: s.device_uuid,
            latency_us: s.srt_latency_us,
            passphrase: if s.passphrase.len() == 0 {
                None
            } else {
                Some(s.passphrase)
            },
            mode: s.srt_mode,
            streamid_override: s.streamid_override,
            listen_port: s.srt_listen_port,
            legacy_streamid: s.streamid_legacy,
        },
    )
}

/// Where a stream over the protocol goes, if it is one that can be streamed to.
pub open spec fn destination(s: EncoderModel, url: Seq<char>, protocol: Seq<char>) -> Option<
    Seq<char>,
> {
    if protocol == "srt"@ {
        Some(srt_destination(s, url))
    } else if protocol == "rtmp"@ || protocol == "rtmps"@ {
        Some(rtmp_url(url, s.stream_key))
    } else {
        None
    }
}

/// The plan for a network destination, with everything it needs at hand.
pub open spec fn network_plan(
    s: EncoderModel,
    c: ConfigModel,
    protocol: Seq<char>,
    url: Seq<char>,
    source: SourceModel,
) -> PlanModel {
    let d = mode_dimensions(s.video_mode);
    PlanModel {
        width: d.0,
        height: d.1,
        fps: d.2,
        video_bitrate: c.bitrate,
        audio_bitrate: if s.audio_bitrate_kbps > 0 {
            (s.audio_bitrate_kbps * 1000) as u64
        } else {
            c.audio_bitrate
        },
        keyframe_seconds: c.keyframe_interval,
        output_url: url,
        protocol,
        source,
        video_codec: lowered(s.video_codec),
        video_filter: video_filter(s, d.0, d.1, d.2),
        audio_filter: audio_filter(s),
        audio_output_mono: s.audio_channels == 1,
        decklink_device_name: Seq::empty(),
        decklink_format_code: Seq::empty(),
        decklink_pixel_format: Seq::empty(),
        video_encoder: s.video_encoder,
        encoder_extra_flags: s.encoder_extra_flags,
        audio_codec: s.audio_codec,
        audio_bitrate_kbps: s.audio_bitrate_kbps,
        audio_sample_rate: s.audio_sample_rate,
        audio_channels: s.audio_channels,
    }
}

/// The plan for a network destination. The first thing that is wrong is told.
pub open spec fn planned_network(s: EncoderModel, m: Machine) -> Result<PlanModel, PlanErrorModel> {
    let (url, scheme) = match active_server(s) {
        Some(d) => (d.1, d.2),
        None => (Seq::empty(), Seq::empty()),
    };
    match active_config(s) {
        None => Err(PlanErrorModel::NoProfile),
        Some(c) => if url.len() == 0 || scheme.len() == 0 {
            Err(PlanErrorModel::NoServer)
        } else if s.stream_key.len() == 0 {
            Err(PlanErrorModel::NoStreamKey)
        } else {
            let protocol = lowered(scheme);
            match destination(s, url, protocol) {
                None => Err(PlanErrorModel::UnsupportedProtocol(protocol)),
                Some(output) => match machine_source(s, m) {
                    None => Err(PlanErrorModel::UnknownSource(s.source_id)),
                    Some(source) => if s.destination_type == "atem"@ && (s.audio_codec == "aac_he"@
                        || s.audio_codec == "aac_he_v2"@) {
                        Err(
                            PlanErrorModel::HighEfficiencyAudio(s.audio_codec != "aac_he"@),
                        )
                    } else {
                        Ok(network_plan(s, c, protocol, output, source))
                    },
                },
            }
        },
    }
}

/// The place of the first mode with a format code.
pub open spec fn mode_coded(modes: Seq<ModeModel>, code: Seq<char>) -> Option<int>
    decreases modes.len(),
{
    if modes.len() == 0 {
        None
    } else {
        match mode_coded(modes.drop_last(), code) {
            Some(i) => Some(i),
            None => if modes.last().format_code == code {
                Some(modes.len() - 1)
            } else {
                None
            },
        }
    }
}

/// A card's frame rate as a whole number. A rate without a denominator is taken as
/// large as can be, or as zero if it is zero.
pub open spec fn card_rate(num: u32, den: u32) -> u32 {
    if den > 0 {
        rounded_ratio(num as nat, den as nat) as u32
    } else if num > 0 {
        u32::MAX
    } else {
        0
    }
}

/// The plan for a card, with everything it needs at hand. The picture is brought to
/// the card's size and pixel format; nothing is encoded.
pub open spec fn card_plan(s: EncoderModel, mode: ModeModel, source: SourceModel) -> PlanModel {
    let format = or_default(s.decklink_pixel_format, "uyvy422"@);
    PlanModel {
        width: mode.width,
        height: mode.height,
        fps: card_rate(mode.fps_num, mode.fps_den),
        video_bitrate: 0,
        audio_bitrate: 0,
        keyframe_seconds: 0,
        output_url: Seq::empty(),
        protocol: "decklink"@,
        source,
        video_codec: Seq::empty(),
        video_filter: Some(
            "scale="@ + decimal(mode.width as nat) + ":"@ + decimal(mode.height as nat)
                + ",format="@ + format,
        ),
        audio_filter: audio_filter(s),
        audio_output_mono: s.audio_channels == 1,
        decklink_device_name: s.decklink_device_name,
        decklink_format_code: s.decklink_format_code,
        decklink_pixel_format: format,
        video_encoder: s.video_encoder,
        encoder_extra_flags: Seq::empty(),
        audio_codec: s.audio_codec,
        audio_bitrate_kbps: s.audio_bitrate_kbps,
        audio_sample_rate: s.audio_sample_rate,
        audio_channels: s.audio_channels,
    }
}

/// The plan for a card. The first thing that is wrong is told.
pub open spec fn planned_card(s: EncoderModel, m: Machine) -> Result<PlanModel, PlanErrorModel> {
    let modes = mode_models(m.card_modes@);
    if !m.card_output {
        Err(PlanErrorModel::NoCardOutput)
    } else if is_blank(s.decklink_device_name) {
        Err(PlanErrorModel::NoCard)
    } else if is_blank(s.decklink_format_code) {
        Err(PlanErrorModel::NoCardMode)
    } else {
        match mode_coded(modes, s.decklink_format_code) {
            None => Err(
                PlanErrorModel::NotACardMode(s.decklink_format_code, s.decklink_device_name),
            ),
            Some(i) => match machine_source(s, m) {
                None => Err(PlanErrorModel::UnknownSource(s.source_id)),
                Some(source) => Ok(card_plan(s, modes[i], source)),
            },
        }
    }
}

/// The plan of a stream.
pub open spec fn planned(s: EncoderModel, m: Machine) -> Result<PlanModel, PlanErrorModel> {
    if s.destination_type == "decklink"@ {
        planned_card(s, m)
    } else {
        planned_network(s, m)
    }
}

/// What the result of making a plan holds.
pub open spec fn plan_result(r: Result<StreamPlan, PlanError>) -> Result<
    PlanModel,
    PlanErrorModel,
> {
    match r {
        Ok(p) => Ok(p@),
        Err(e) => Err(e@),
    }
}

fn find_mode(modes: &Vec<DecklinkMode>, code: &str) -> (r: Option<usize>)
    ensures
        r is Some <==> mode_coded(mode_models(modes@), code@) is Some,
        r matches Some(i) ==> i < modes@.len() && mode_coded(mode_models(modes@), code@) == Some(
            i as int,
        ),
{
    let ghost m = mode_models(modes@);
    let mut found: Option<usize> = None;
    let mut i: usize = 0;
    assert(m.take(0).len() == 0);
    while i < modes.len()
        invariant
            i <= modes@.len(),
            m == mode_models(modes@),
            found is Some <==> mode_coded(m.take(i as int), code@) is Some,
            found matches Some(k) ==> k < i && mode_coded(m.take(i as int), code@) == Some(
                k as int,
            ),
        decreases modes@.len() - i,
    {
        assert(m.take(i + 1).drop_last() == m.take(i as int));
        if found.is_none() && same(modes[i].format_code.as_str(), code) {
            found = Some(i);
        }
        i += 1;
    }
    assert(m.take(i as int) == m);
    found
}

impl EncoderState {
    fn machine_source(&self, machine: &Machine) -> (r: Option<Source>)
        ensures
            r is Some <==> machine_source(self@, *machine) is Some,
            r matches Some(s) ==> machine_source(self@, *machine) == Some(s@),
    {
        let selection: SourceSelection = self.source_selection();
        resolve_source(&selection, machine.platform, &machine.devices, &machine.camera_modes)
    }

    fn srt_destination(&self, url: &str) -> (r: String)
        ensures
            r@ == srt_destination(self@, url@),
    {
        let (host, port): (String, u16) = parse_srt_host_port(url, 1935);
        let params: SrtUrlParams = SrtUrlParams {
            host: host.as_str(),
            port,
            stream_key: self.stream_key.as_str(),
            device_name: self.label.as_str(),
            device_uuid: self.device_uuid.as_str(),
            latency_us: self.srt_latency_us,
            passphrase: if self.passphrase.as_str().is_empty() {
                None
            } else {
                Some(self.passphrase.as_str())
            },
            mode: self.srt_mode.as_str(),
            streamid_override: self.streamid_override.as_str(),
            listen_port: self.srt_listen_port,
            legacy_streamid: self.streamid_legacy,
        };
        build_srt_url(&params)
    }

    fn network_plan(
        &self,
        c: &StreamConfig,
        protocol: String,
        output_url: String,
        source: Source,
    ) -> (r: StreamPlan)
        ensures
            r@ == network_plan(self@, c@, protocol@, output_url@, source@),
    {
        let (width, height, fps): (u32, u32, u32) = video_dimensions(self.video_mode.as_str());
        StreamPlan {
            width,
            height,
            fps,
            video_bitrate: c.bitrate,
            audio_bitrate: if self.audio_bitrate_kbps > 0 {
                (self.audio_bitrate_kbps as u64) * 1000
            } else {
                c.audio_bitrate
            },
            keyframe_seconds: c.keyframe_interval,
            output_url,
            protocol,
            source,
            video_codec: to_lower(self.video_codec.as_str()),
            video_filter: build_video_filter(self, width, height, fps),
            audio_filter: build_audio_filter(self),
            audio_output_mono: self.audio_channels == 1,
            decklink_device_name: String::new(),
            decklink_format_code: String::new(),
            decklink_pixel_format: String::new(),
            video_encoder: self.video_encoder.clone(),
            encoder_extra_flags: self.encoder_extra_flags.clone(),
            audio_codec: self.audio_codec.clone(),
            audio_bitrate_kbps: self.audio_bitrate_kbps,
            audio_sample_rate: self.audio_sample_rate,
            audio_channels: self.audio_channels,
        }
    }

    /// The plan of a stream to a network destination or a card.
    pub fn build_plan(&self, machine: &Machine) -> (r: Result<StreamPlan, PlanError>)
        requires
            in_name_order(self@.services),
        ensures
            plan_result(r) == planned(self@, *machine),
    {
        if same(self.destination_type.as_str(), "decklink") {
            return self.build_plan_decklink(machine);
        }
        let config: StreamConfig = match self.resolve_active_config() {
            Some(c) => c,
            None => return Err(PlanError::NoProfile),
        };
        let server: Destination = match self.current_active_server() {
            Some(d) => d,
            None => return Err(PlanError::NoServer),
        };
        if server.url.as_str().is_empty() || server.protocol.as_str().is_empty() {
            return Err(PlanError::NoServer);
        }
        if self.stream_key.as_str().is_empty() {
            return Err(PlanError::NoStreamKey);
        }
        let protocol: String = to_lower(server.protocol.as_str());
        let url: String = if same(protocol.as_str(), "srt") {
            self.srt_destination(server.url.as_str())
        } else if same(protocol.as_str(), "rtmp") || same(protocol.as_str(), "rtmps") {
            build_rtmp_url(server.url.as_str(), self.stream_key.as_str())
        } else {
            return Err(PlanError::UnsupportedProtocol(protocol));
        };
        let source: Source = match self.machine_source(machine) {
            Some(s) => s,
            None => return Err(PlanError::UnknownSource(self.source_id.clone())),
        };
        let first: bool = same(self.audio_codec.as_str(), "aac_he");
        if (first || same(self.audio_codec.as_str(), "aac_he_v2")) && same(
            self.destination_type.as_str(),
            "atem",
        ) {
            return Err(PlanError::HighEfficiencyAudio(!first));
        }
        Ok(self.network_plan(&config, protocol, url, source))
    }

    /// The plan of a stream to a card.
    pub fn build_plan_decklink(&self, machine: &Machine) -> (r: Result<StreamPlan, PlanError>)
        ensures
            plan_result(r) == planned_card(self@, *machine),
    {
        if !machine.card_output {
            return Err(PlanError::NoCardOutput);
        }
        if blank(self.decklink_device_name.as_str()) {
            return Err(PlanError::NoCard);
        }
        if blank(self.decklink_format_code.as_str()) {
            return Err(PlanError::NoCardMode);
        }
        let at: usize = match find_mode(&machine.card_modes, self.decklink_format_code.as_str()) {
            Some(i) => i,
            None => return Err(
                PlanError::NotACardMode(
                    self.decklink_format_code.clone(),
                    self.decklink_device_name.clone(),
                ),
            ),
        };
        let mode: &DecklinkMode = &machine.card_modes[at];
        let fps: u32 = if mode.fps_den > 0 {
            round_ratio(mode.fps_num, mode.fps_den)
        } else if mode.fps_num > 0 {
            u32::MAX
        } else {
            0
        };
        let source: Source = match self.machine_source(machine) {
            Some(s) => s,
            None => return Err(PlanError::UnknownSource(self.source_id.clone())),
        };
        let format: String = if self.decklink_pixel_format.as_str().is_empty() {
            "uyvy422".to_owned()
        } else {
            self.decklink_pixel_format.clone()
        };
        let w: String = show(mode.width as u64);
        let h: String = show(mode.height as u64);
        let mut filter: String = cat5("scale=", w.as_str(), ":", h.as_str(), ",format=");
        filter.push_str(format.as_str());
        Ok(
            StreamPlan {
                width: mode.width,
                height: mode.height,
                fps,
                video_bitrate: 0,
                audio_bitrate: 0,
                keyframe_seconds: 0,
                output_url: String::new(),
                protocol: "decklink".to_owned(),
                source,
                video_codec: String::new(),
                video_filter: Some(filter),
                audio_filter: build_audio_filter(self),
                audio_output_mono: self.audio_channels == 1,
                decklink_device_name: self.decklink_device_name.clone(),
                decklink_format_code: self.decklink_format_code.clone(),
                decklink_pixel_format: format,
                video_encoder: self.video_encoder.clone(),
                encoder_extra_flags: String::new(),
                audio_codec: self.audio_codec.clone(),
                audio_bitrate_kbps: self.audio_bitrate_kbps,
                audio_sample_rate: self.audio_sample_rate,
                audio_channels: self.audio_channels,
            },
        )
    }
}

/// The overlay is kept with the settings, but no stream shows it.
pub proof fn overlays_stay_out(
    s: EncoderModel,
    m: Machine,
    title: Seq<char>,
    subtitle: Seq<char>,
    logo: Seq<char>,
    clock: bool,
)
    ensures
        planned(
            EncoderModel {
                overlay_title: title,
                overlay_subtitle: subtitle,
                overlay_logo_path: logo,
                overlay_clock: clock,
                ..s
            },
            m,
        ) == planned(s, m),
{
}

} // verus!
