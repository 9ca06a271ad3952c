//! What clients see of an encoder, and what follows from its settings: the active
//! destination, the active encoding, the frame size.
use vstd::prelude::*;
use vstd::string::*;

use crate::number::{show_two, two_digits};
use crate::services::{find_service, in_name_order, lookup, service_names};
use crate::settings::{available_video_modes, video_modes};
use crate::state::{EncoderModel, EncoderState, StreamStats};
use crate::text::{opt_text, same, texts};
use crate::xml::{
    config_for, default_profile, profile_named, scheme_of, srt_places, url_scheme, ConfigModel,
    ProfileModel, ServerModel, ServiceModel, StreamConfig, StreamProfile, StreamServer,
    StreamService,
};

verus! {

// ---------------------------------------------------------------------------
// Frame sizes and bitrates
// ---------------------------------------------------------------------------

/// The width, height and frame rate of a video mode. `Auto` and modes that are
/// not known count as `1080p30`.
pub open spec fn mode_dimensions(mode: Seq<char>) -> (u32, u32, u32) {
    if mode == "2160p23.98"@ || mode == "2160p24"@ {
        (3840, 2160, 24)
    } else if mode == "2160p25"@ {
        (3840, 2160, 25)
    } else if mode == "2160p29.97"@ || mode == "2160p30"@ {
        (3840, 2160, 30)
    } else if mode == "2160p50"@ {
        (3840, 2160, 50)
    } else if mode == "2160p59.94"@ || mode == "2160p60"@ {
        (3840, 2160, 60)
    } else if mode == "1080p23.98"@ || mode == "1080p24"@ {
        (1920, 1080, 24)
    } else if mode == "1080p25"@ {
        (1920, 1080, 25)
    } else if mode == "1080p50"@ {
        (1920, 1080, 50)
    } else if mode == "1080p59.94"@ || mode == "1080p60"@ {
        (1920, 1080, 60)
    } else if mode == "720p25"@ {
        (1280, 720, 25)
    } else if mode == "720p30"@ {
        (1280, 720, 30)
    } else if mode == "720p50"@ {
        (1280, 720, 50)
    } else if mode == "720p60"@ {
        (1280, 720, 60)
    } else {
        (1920, 1080, 30)
    }
}

/// The width, height and frame rate of a video mode such as `1080p59.94`.
pub fn video_dimensions(mode: &str) -> (r: (u32, u32, u32))
    ensures
        r == mode_dimensions(mode@),
{
    if same(mode, "2160p23.98") || same(mode, "2160p24") {
        (3840, 2160, 24)
    } else if same(mode, "2160p25") {
        (3840, 2160, 25)
    } else if same(mode, "2160p29.97") || same(mode, "2160p30") {
        (3840, 2160, 30)
    } else if same(mode, "2160p50") {
        (3840, 2160, 50)
    } else if same(mode, "2160p59.94") || same(mode, "2160p60") {
        (3840, 2160, 60)
    } else if same(mode, "1080p23.98") || same(mode, "1080p24") {
        (1920, 1080, 24)
    } else if same(mode, "1080p25") {
        (1920, 1080, 25)
    } else if same(mode, "1080p50") {
        (1920, 1080, 50)
    } else if same(mode, "1080p59.94") || same(mode, "1080p60") {
        (1920, 1080, 60)
    } else if same(mode, "720p25") {
        (1280, 720, 25)
    } else if same(mode, "720p30") {
        (1280, 720, 30)
    } else if same(mode, "720p50") {
        (1280, 720, 50)
    } else if same(mode, "720p60") {
        (1280, 720, 60)
    } else {
        (1920, 1080, 30)
    }
}

/// What profiles call the frames of a height: they know two sizes.
pub open spec fn resolution_name(height: u32) -> Seq<char> {
    if height == 1080 {
        "1080p"@
    } else {
        "720p"@
    }
}

fn name_resolution(height: u32) -> (r: &'static str)
    ensures
        r@ == resolution_name(height),
{
    if height == 1080 {
        "1080p"
    } else {
        "720p"
    }
}

/// The resolution that profiles are looked up under.
pub open spec fn resolution_of(mode: Seq<char>) -> Seq<char> {
    resolution_name(mode_dimensions(mode).1)
}

/// The quality levels there are when no service is loaded.
pub open spec fn standard_levels() -> Seq<Seq<char>> {
    seq!["Streaming High"@, "Streaming Medium"@, "Streaming Low"@]
}

/// The video bitrate of a standard quality level, in bits per second. It is set for
/// 30 and 60 frames a second; slower rates have that of the next of the two.
pub open spec fn standard_bitrate(quality: Seq<char>, resolution: Seq<char>, fps: u32) -> Option<
    u64,
> {
    let large = resolution == "1080p"@;
    let fast = fps == 60 || fps == 50;
    let slow = fps == 30 || fps == 25 || fps == 24;
    if !(large || resolution == "720p"@) || !(fast || slow) {
        None
    } else if quality == "Streaming High"@ {
        Some(
            if large && fast {
                9_000_000u64
            } else if large || fast {
                6_000_000
            } else {
                4_000_000
            },
        )
    } else if quality == "Streaming Medium"@ {
        Some(
            if large && fast {
                7_600_000u64
            } else if large || fast {
                4_500_000
            } else {
                3_000_000
            },
        )
    } else if quality == "Streaming Low"@ {
        Some(
            if large && fast {
                4_500_000u64
            } else if large {
                3_000_000
            } else if fast {
                2_250_000
            } else {
                1_500_000
            },
        )
    } else {
        None
    }
}

/// The video bitrate of a standard quality level, in bits per second.
pub fn default_bitrate(quality: &str, resolution: &str, fps: u32) -> (r: Option<u64>)
    ensures
        r == standard_bitrate(quality@, resolution@, fps),
{
    let large: bool = same(resolution, "1080p");
    let fast: bool = fps == 60 || fps == 50;
    let slow: bool = fps == 30 || fps == 25 || fps == 24;
    if !(large || same(resolution, "720p")) || !(fast || slow) {
        None
    } else if same(quality, "Streaming High") {
        Some(
            if large && fast {
                9_000_000
            } else if large || fast {
                6_000_000
            } else {
                4_000_000
            },
        )
    } else if same(quality, "Streaming Medium") {
        Some(
            if large && fast {
                7_600_000
            } else if large || fast {
                4_500_000
            } else {
                3_000_000
            },
        )
    } else if same(quality, "Streaming Low") {
        Some(
            if large && fast {
                4_500_000
            } else if large {
                3_000_000
            } else if fast {
                2_250_000
            } else {
                1_500_000
            },
        )
    } else {
        None
    }
}

// ---------------------------------------------------------------------------
// The active encoding
// ---------------------------------------------------------------------------

/// The place of the configuration with the highest bitrate; of several, the last.
pub open spec fn highest(configs: Seq<ConfigModel>) -> int
    decreases configs.len(),
{
    if configs.len() <= 1 {
        0
    } else {
        let b = highest(configs.drop_last());
        if configs.last().bitrate >= configs[b].bitrate {
            configs.len() - 1
        } else {
            b
        }
    }
}

/// The configuration a profile has for a resolution and frame rate; if it has
/// none, the one with the highest bitrate.
pub open spec fn profile_config(p: ProfileModel, resolution: Seq<char>, fps: u32) -> Option<
    ConfigModel,
> {
    match config_for(p.configs, resolution, fps) {
        Some(i) => Some(p.configs[i]),
        None => if p.configs.len() > 0 {
            Some(p.configs[highest(p.configs)])
        } else {
            None
        },
    }
}

/// The profile that a quality level picks from a service; the default profile if
/// there is none of that name.
pub open spec fn picked_profile(s: ServiceModel, quality: Seq<char>) -> Option<ProfileModel> {
    match profile_named(s.profiles, quality) {
        Some(i) => Some(s.profiles[i]),
        None => match default_profile(s) {
            Some(i) => Some(s.profiles[i]),
            None => None,
        },
    }
}

/// The encoding the picked service asks for.
pub open spec fn service_config(s: EncoderModel) -> Option<ConfigModel> {
    match lookup(s.services, s.current_service_name) {
        Some(svc) => match picked_profile(svc, s.quality_level) {
            Some(p) => profile_config(p, resolution_of(s.video_mode), mode_dimensions(s.video_mode).2),
            None => None,
        },
        None => None,
    }
}

/// The standard encoding for the settings; that of the highest level if the
/// quality level is not a standard one.
pub open spec fn standard_config(s: EncoderModel) -> Option<ConfigModel> {
    let res = resolution_of(s.video_mode);
    let fps = mode_dimensions(s.video_mode).2;
    let bitrate = match standard_bitrate(s.quality_level, res, fps) {
        Some(b) => Some(b),
        None => standard_bitrate("Streaming High"@, res, fps),
    };
    match bitrate {
        Some(b) => Some(
            ConfigModel {
                resolution: res,
                fps,
                codec: if s.video_codec == "h264"@ {
                    "H264"@
                } else {
                    "H265"@
                },
                bitrate: b,
                audio_bitrate: 128_000,
                keyframe_interval: 2,
            },
        ),
        None => None,
    }
}

/// The encoding that is active: what the picked service asks for, or else the
/// standard one.
pub open spec fn active_config(s: EncoderModel) -> Option<ConfigModel> {
    match service_config(s) {
        Some(c) => Some(c),
        None => standard_config(s),
    }
}

/// Every video mode can be streamed: it has an encoding, whatever is loaded, and where no
/// service is picked each of the three quality levels has a bitrate.
pub proof fn every_mode_can_be_streamed(s: EncoderModel)
    ensures
        active_config(s) is Some,
        forall|i: int|
            0 <= i < 3 ==> (#[trigger] standard_bitrate(
                standard_levels()[i],
                resolution_of(s.video_mode),
                mode_dimensions(s.video_mode).2,
            ) matches Some(b) && b > 0),
        lookup(s.services, s.current_service_name) is None ==> quality_levels(s).len() == 3
            && forall|i: int|
            0 <= i < 3 ==> (#[trigger] quality_levels(s)[i]).0 == standard_levels()[i]
                && quality_levels(s)[i].1 > 0,
{
}

fn highest_config(configs: &Vec<StreamConfig>) -> (r: usize)
    requires
        configs@.len() > 0,
    ensures
        r < configs@.len(),
        r == highest(Seq::new(configs@.len(), |i: int| configs@[i]@)),
{
    let ghost m = Seq::new(configs@.len(), |i: int| configs@[i]@);
    let mut best: usize = 0;
    let mut i: usize = 1;
    while i < configs.len()
        invariant
            1 <= i <= configs@.len(),
            best < i,
            m == Seq::new(configs@.len(), |i: int| configs@[i]@),
            best == highest(m.take(i as int)),
        decreases configs@.len() - i,
    {
        assert(m.take(i + 1).drop_last() == m.take(i as int));
        if configs[i].bitrate >= configs[best].bitrate {
            best = i;
        }
        i += 1;
    }
    assert(m.take(i as int) == m);
    best
}

fn config_of_profile<'a>(p: &'a StreamProfile, resolution: &str, fps: u32) -> (r: Option<
    &'a StreamConfig,
>)
    ensures
        r is Some <==> profile_config(p@, resolution@, fps) is Some,
        r matches Some(c) ==> profile_config(p@, resolution@, fps) == Some(c@),
{
    match p.find_config(resolution, fps) {
        Some(c) => Some(c),
        None => if p.configs.len() > 0 {
            let i: usize = highest_config(&p.configs);
            assert(p@.configs =~= Seq::new(p.configs@.len(), |i: int| p.configs@[i]@));
            Some(&p.configs[i])
        } else {
            None
        },
    }
}

impl EncoderState {
    fn service_encoding(&self) -> (r: Option<StreamConfig>)
        requires
            in_name_order(self@.services),
        ensures
            r is Some <==> service_config(self@) is Some,
            r matches Some(c) ==> service_config(self@) == Some(c@),
    {
        let d: (u32, u32, u32) = video_dimensions(self.video_mode.as_str());
        let res: &str = name_resolution(d.1);
        match find_service(&self.services, self.current_service_name.as_str()) {
            Some(i) => {
                let svc: &StreamService = &self.services[i];
                let profile: Option<&StreamProfile> = match svc.find_profile(
                    self.quality_level.as_str(),
                ) {
                    Some(p) => Some(p),
                    None => svc.get_default_profile(),
                };
                match profile {
                    Some(p) => match config_of_profile(p, res, d.2) {
                        Some(c) => Some(c.duplicate()),
                        None => None,
                    },
                    None => None,
                }
            },
            None => None,
        }
    }

    /// The encoding that is active.
    pub fn resolve_active_config(&self) -> (r: Option<StreamConfig>)
        requires
            in_name_order(self@.services),
        ensures
            r is Some <==> active_config(self@) is Some,
            r matches Some(c) ==> active_config(self@) == Some(c@),
    {
        match self.service_encoding() {
            Some(c) => Some(c),
            None => {
                let d: (u32, u32, u32) = video_dimensions(self.video_mode.as_str());
                let res: &str = name_resolution(d.1);
                let codec: &str = if same(self.video_codec.as_str(), "h264") {
                    "H264"
                } else {
                    "H265"
                };
                let bitrate: Option<u64> = match default_bitrate(
                    self.quality_level.as_str(),
                    res,
                    d.2,
                ) {
                    Some(b) => Some(b),
                    None => default_bitrate("Streaming High", res, d.2),
                };
                match bitrate {
                    Some(b) => Some(
                        StreamConfig {
                            resolution: res.to_owned(),
                            fps: d.2,
                            codec: codec.to_owned(),
                            bitrate: b,
                            audio_bitrate: 128_000,
                            keyframe_interval: 2,
                        },
                    ),
                    None => None,
                }
            },
        }
    }
}

// ---------------------------------------------------------------------------
// The active destination
// ---------------------------------------------------------------------------

/// The place of the first server called `name`.
pub open spec fn server_named(servers: Seq<ServerModel>, name: Seq<char>) -> Option<int>
    decreases servers.len(),
{
    if servers.len() == 0 {
        None
    } else {
        match server_named(servers.drop_last(), name) {
            Some(i) => Some(i),
            None => if servers.last().name == name {
                Some(servers.len() - 1)
            } else {
                None
            },
        }
    }
}

proof fn server_named_is(servers: Seq<ServerModel>, name: Seq<char>, i: int)
    requires
        0 <= i <= servers.len(),
        forall|j: int| 0 <= j < i ==> (#[trigger] servers[j]).name != name,
        i < servers.len() ==> servers[i].name == name,
    ensures
        server_named(servers, name) == (if i < servers.len() {
            Some(i)
        } else {
            None
        }),
    decreases servers.len(),
{
    if servers.len() > 0 {
        let front = servers.drop_last();
        if i < servers.len() {
            server_named_is(front, name, i);
        } else {
            server_named_is(front, name, i - 1);
        }
    }
}

/// The place of the server that is used: the one with the picked name, or else
/// the first over SRT, or else the first.
pub open spec fn picked_server(servers: Seq<ServerModel>, name: Seq<char>) -> Option<int> {
    if servers.len() == 0 {
        None
    } else {
        match server_named(servers, name) {
            Some(i) => Some(i),
            None => if srt_places(servers).len() > 0 {
                Some(srt_places(servers)[0])
            } else {
                Some(0int)
            },
        }
    }
}

/// The custom URL is a destination: its scheme is one that can be streamed to.
pub open spec fn custom_destination(url: Seq<char>) -> bool {
    url.len() > 0 && (scheme_of(url) == "srt"@ || scheme_of(url) == "rtmp"@ || scheme_of(url)
        == "rtmps"@)
}

/// The name, URL and protocol of the active destination.
pub open spec fn active_server(s: EncoderModel) -> Option<(Seq<char>, Seq<char>, Seq<char>)> {
    if custom_destination(s.custom_url) {
        Some(("Custom"@, s.custom_url, scheme_of(s.custom_url)))
    } else {
        match lookup(s.services, s.current_service_name) {
            Some(svc) => match picked_server(svc.servers, s.current_server_name) {
                Some(i) => Some(
                    (svc.servers[i].name, svc.servers[i].url, scheme_of(svc.servers[i].url)),
                ),
                None => None,
            },
            None => None,
        }
    }
}

fn pick_server(svc: &StreamService, name: &str) -> (r: Option<usize>)
    ensures
        r is Some <==> picked_server(svc@.servers, name@) is Some,
        r matches Some(i) ==> i < svc.servers@.len() && picked_server(svc@.servers, name@) == Some(
            i as int,
        ),
{
    if svc.servers.len() == 0 {
        return None;
    }
    let mut i: usize = 0;
    while i < svc.servers.len()
        invariant
            i <= svc.servers@.len(),
            forall|j: int| 0 <= j < i ==> (#[trigger] svc@.servers[j]).name != name@,
        decreases svc.servers@.len() - i,
    {
        if same(svc.servers[i].name.as_str(), name) {
            proof {
                server_named_is(svc@.servers, name@, i as int);
            }
            return Some(i);
        }
        i += 1;
    }
    proof {
        server_named_is(svc@.servers, name@, i as int);
    }
    first_srt(svc)
}

/// The place of the first server over SRT, or else of the first server.
fn first_srt(svc: &StreamService) -> (r: Option<usize>)
    requires
        svc.servers@.len() > 0,
    ensures
        r matches Some(i) && i < svc.servers@.len() && i == (if srt_places(svc@.servers).len() > 0 {
            srt_places(svc@.servers)[0]
        } else {
            0
        }),
{
    let mut i: usize = 0;
    assert(svc@.servers.take(0).len() == 0);
    while i < svc.servers.len()
        invariant
            i <= svc.servers@.len(),
            svc.servers@.len() > 0,
            srt_places(svc@.servers.take(i as int)).len() == 0,
        decreases svc.servers@.len() - i,
    {
        let p: String = svc.servers[i].protocol();
        proof {
            let t = svc@.servers.take(i + 1);
            assert(t.drop_last() == svc@.servers.take(i as int));
            assert(t.last() == svc@.servers[i as int]);
        }
        if same(p.as_str(), "srt") {
            proof {
                srt_places_start(svc@.servers, i + 1);
            }
            return Some(i);
        }
        i += 1;
    }
    assert(svc@.servers.take(i as int) == svc@.servers);
    Some(0)
}

proof fn srt_places_start(servers: Seq<ServerModel>, n: int)
    requires
        0 <= n <= servers.len(),
        srt_places(servers.take(n)).len() > 0,
    ensures
        srt_places(servers).len() > 0,
        srt_places(servers)[0] == srt_places(servers.take(n))[0],
    decreases servers.len(),
{
    if n < servers.len() {
        assert(servers.drop_last().take(n) == servers.take(n));
        srt_places_start(servers.drop_last(), n);
    } else {
        assert(servers.take(n) == servers);
    }
}

/// The name, URL and protocol of a destination.
pub struct Destination {
    pub name: String,
    pub url: String,
    pub protocol: String,
}

impl EncoderState {
    /// The active destination.
    pub fn current_active_server(&self) -> (r: Option<Destination>)
        requires
            in_name_order(self@.services),
        ensures
            r is Some <==> active_server(self@) is Some,
            r matches Some(d) ==> active_server(self@) == Some((d.name@, d.url@, d.protocol@)),
    {
        if !self.custom_url.as_str().is_empty() {
            let scheme: String = url_scheme(self.custom_url.as_str());
            if same(scheme.as_str(), "srt") || same(scheme.as_str(), "rtmp") || same(
                scheme.as_str(),
                "rtmps",
            ) {
                return Some(
                    Destination {
                        name: "Custom".to_owned(),
                        url: self.custom_url.clone(),
                        protocol: scheme,
                    },
                );
            }
        }
        match find_service(&self.services, self.current_service_name.as_str()) {
            Some(k) => {
                let svc: &StreamService = &self.services[k];
                match pick_server(svc, self.current_server_name.as_str()) {
                    Some(i) => Some(
                        Destination {
                            name: svc.servers[i].name.clone(),
                            url: svc.servers[i].url.clone(),
                            protocol: svc.servers[i].protocol(),
                        },
                    ),
                    None => None,
                }
            },
            None => None,
        }
    }
}

// ---------------------------------------------------------------------------
// Snapshots
// ---------------------------------------------------------------------------

/// A quality level with its bitrate at the current video mode.
#[derive(Debug)]
pub struct QualityOption {
    pub name: String,
    pub bitrate: u64,
}

/// A server of the picked service.
#[derive(Debug)]
pub struct ServerSnapshot {
    pub name: String,
    pub url: String,
    pub protocol: String,
}

/// The relay's settings.
#[derive(Debug)]
pub struct RelaySnapshot {
    pub bind_host: String,
    pub srt_port: u16,
    pub srt_latency_us: u32,
    pub srt_passphrase: String,
    pub rtmp_port: u16,
    pub rtmp_app: String,
    pub rtmp_key: String,
}

/// The overlay's settings.
#[derive(Debug)]
pub struct OverlaySnapshot {
    pub title: String,
    pub subtitle: String,
    pub logo_path: String,
    pub clock: bool,
}

/// The active encoding.
#[derive(Debug)]
pub struct ActiveConfig {
    pub resolution: String,
    pub fps: u32,
    pub codec: String,
    pub bitrate: u64,
    pub audio_bitrate: u64,
    pub keyframe_interval: u32,
}

impl View for ActiveConfig {
    type V = ConfigModel;

    open spec fn view(&self) -> ConfigModel {
        ConfigModel {
            resolution: self.resolution@,
            fps: self.fps,
            codec: self.codec@,
            bitrate: self.bitrate,
            audio_bitrate: self.audio_bitrate,
            keyframe_interval: self.keyframe_interval,
        }
    }
}

/// The figures of the running stream.
#[derive(Debug)]
pub struct StatsSnapshot {
    pub status: String,
    pub bitrate: u64,
    pub duration: String,
    pub cache_used: u32,
    pub error: Option<String>,
    pub fps_tenths: u64,
    pub speed_hundredths: u64,
    pub frames_sent: u64,
    pub frames_dropped: u64,
    pub quality_tenths: u64,
}

/// Everything a client sees of an encoder.
#[derive(Debug)]
pub struct Snapshot {
    pub label: String,
    pub model: String,
    pub unique_id: String,
    pub device_uuid: String,
    pub video_mode: String,
    pub quality_level: String,
    pub source_id: String,
    pub available_video_modes: Vec<String>,
    pub available_quality_levels: Vec<String>,
    pub quality_options: Vec<QualityOption>,
    pub available_services: Vec<String>,
    pub available_servers: Vec<ServerSnapshot>,
    pub current_service_name: String,
    pub current_server_name: String,
    pub current_url: String,
    pub current_protocol: String,
    pub custom_url: String,
    pub stream_key: String,
    pub passphrase: String,
    pub srt_mode: String,
    pub srt_latency_us: u32,
    pub srt_listen_port: u16,
    pub streamid_override: String,
    pub streamid_legacy: bool,
    pub video_codec: String,
    pub av_video_index: i32,
    pub av_audio_index: i32,
    pub av_video_name: String,
    pub av_audio_name: String,
    pub audio_mode: String,
    pub audio_output_mono: bool,
    pub audio_pan_l: u8,
    pub audio_pan_r: u8,
    pub pipe_path: String,
    pub ndi_source_name: String,
    pub omt_source_name: String,
    pub omt_output_enabled: bool,
    pub omt_output_name: String,
    pub relay: RelaySnapshot,
    pub overlay: OverlaySnapshot,
    pub active_config: Option<ActiveConfig>,
    pub stats: StatsSnapshot,
    pub destination_type: String,
    pub decklink_device_name: String,
    pub decklink_output_mode: String,
    pub decklink_format_code: String,
    pub decklink_pixel_format: String,
    pub video_encoder: String,
    pub encoder_extra_flags: String,
    pub audio_codec: String,
    pub audio_bitrate_kbps: u32,
    pub audio_sample_rate: u32,
    pub audio_channels: u8,
    pub auto_reconnect: bool,
    pub auto_reconnect_max_attempts: u32,
    pub meters_enabled: bool,
}

/// The settings of `n` are those of `s`.
pub open spec fn shows_settings(s: EncoderModel, n: Snapshot) -> bool {
    &&& n.label@ == s.label
    &&& n.model@ == s.model
    &&& n.unique_id@ == s.unique_id
    &&& n.device_uuid@ == s.device_uuid
    &&& n.video_mode@ == s.video_mode
    &&& n.quality_level@ == s.quality_level
    &&& n.source_id@ == s.source_id
    &&& n.current_service_name@ == s.current_service_name
    &&& n.current_server_name@ == s.current_server_name
    &&& n.custom_url@ == s.custom_url
    &&& n.stream_key@ == s.stream_key
    &&& n.passphrase@ == s.passphrase
    &&& n.srt_mode@ == s.srt_mode
    &&& n.srt_latency_us == s.srt_latency_us
    &&& n.srt_listen_port == s.srt_listen_port
    &&& n.streamid_override@ == s.streamid_override
    &&& n.streamid_legacy == s.streamid_legacy
    &&& n.video_codec@ == s.video_codec
    &&& n.av_video_index == s.av_video_index
    &&& n.av_audio_index == s.av_audio_index
    &&& n.av_video_name@ == s.av_video_name
    &&& n.av_audio_name@ == s.av_audio_name
    &&& n.audio_mode@ == s.audio_mode
    &&& n.audio_output_mono == s.audio_output_mono
    &&& n.audio_pan_l == s.audio_pan_l
    &&& n.audio_pan_r == s.audio_pan_r
    &&& n.pipe_path@ == s.pipe_path
    &&& n.ndi_source_name@ == s.ndi_source_name
    &&& n.omt_source_name@ == s.omt_source_name
    &&& n.omt_output_enabled == s.omt_output_enabled
    &&& n.omt_output_name@ == s.omt_output_name
    &&& n.destination_type@ == s.destination_type
    &&& n.decklink_device_name@ == s.decklink_device_name
    &&& n.decklink_output_mode@ == s.decklink_output_mode
    &&& n.decklink_format_code@ == s.decklink_format_code
    &&& n.decklink_pixel_format@ == s.decklink_pixel_format
    &&& n.video_encoder@ == s.video_encoder
    &&& n.encoder_extra_flags@ == s.encoder_extra_flags
    &&& n.audio_codec@ == s.audio_codec
    &&& n.audio_bitrate_kbps == s.audio_bitrate_kbps
    &&& n.audio_sample_rate == s.audio_sample_rate
    &&& n.audio_channels == s.audio_channels
    &&& n.auto_reconnect == s.auto_reconnect
    &&& n.auto_reconnect_max_attempts == s.auto_reconnect_max_attempts
    &&& n.meters_enabled == s.meters_enabled
    &&& n.relay.bind_host@ == s.relay_bind_host
    &&& n.relay.srt_port == s.relay_srt_port
    &&& n.relay.srt_latency_us == s.relay_srt_latency_us
    &&& n.relay.srt_passphrase@ == s.relay_srt_passphrase
    &&& n.relay.rtmp_port == s.relay_rtmp_port
    &&& n.relay.rtmp_app@ == s.relay_rtmp_app
    &&& n.relay.rtmp_key@ == s.relay_rtmp_key
    &&& n.overlay.title@ == s.overlay_title
    &&& n.overlay.subtitle@ == s.overlay_subtitle
    &&& n.overlay.logo_path@ == s.overlay_logo_path
    &&& n.overlay.clock == s.overlay_clock
}

/// How long a stream has run, as days, hours, minutes and seconds of two digits
/// each.
pub open spec fn duration_text(started: Option<u64>, now: u64) -> Seq<char> {
    let t: nat = match started {
        Some(s) => if now > s {
            (now - s) as nat
        } else {
            0
        },
        None => 0,
    };
    two_digits(t / 86_400) + ":"@ + two_digits((t % 86_400) / 3_600) + ":"@ + two_digits(
        (t % 3_600) / 60,
    ) + ":"@ + two_digits(t % 60)
}

impl StreamStats {
    /// How long the stream has run at the time `now`.
    pub fn duration_string(&self, now: u64) -> (r: String)
        ensures
            r@ == duration_text(self.started_at, now),
    {
        let t: u64 = match self.started_at {
            Some(s) => if now > s {
                now - s
            } else {
                0
            },
            None => 0,
        };
        let days: String = show_two(t / 86_400);
        let hours: String = show_two((t % 86_400) / 3_600);
        let mins: String = show_two((t % 3_600) / 60);
        let secs: String = show_two(t % 60);
        let mut out: String = days;
        out.push_str(":");
        out.push_str(hours.as_str());
        out.push_str(":");
        out.push_str(mins.as_str());
        out.push_str(":");
        out.push_str(secs.as_str());
        out
    }
}

/// The quality levels with their bitrates: those of the picked service, or else
/// the standard ones.
pub open spec fn quality_levels(s: EncoderModel) -> Seq<(Seq<char>, u64)> {
    let res = resolution_of(s.video_mode);
    let fps = mode_dimensions(s.video_mode).2;
    match lookup(s.services, s.current_service_name) {
        Some(svc) => Seq::new(
            svc.profiles.len(),
            |i: int|
                (
                    svc.profiles[i].name,
                    match profile_config(svc.profiles[i], res, fps) {
                        Some(c) => c.bitrate,
                        None => 0,
                    },
                ),
        ),
        None => Seq::new(
            3,
            |i: int|
                (
                    standard_levels()[i],
                    match standard_bitrate(standard_levels()[i], res, fps) {
                        Some(b) => b,
                        None => 0,
                    },
                ),
        ),
    }
}

/// The servers of the picked service.
pub open spec fn offered_servers(s: EncoderModel) -> Seq<(Seq<char>, Seq<char>, Seq<char>)> {
    match lookup(s.services, s.current_service_name) {
        Some(svc) => Seq::new(
            svc.servers.len(),
            |i: int| (svc.servers[i].name, svc.servers[i].url, scheme_of(svc.servers[i].url)),
        ),
        None => Seq::empty(),
    }
}

/// What a list of quality options holds.
pub open spec fn option_models(v: Seq<QualityOption>) -> Seq<(Seq<char>, u64)> {
    Seq::new(v.len(), |i: int| (v[i].name@, v[i].bitrate))
}

/// What a list of servers holds.
pub open spec fn server_models(v: Seq<ServerSnapshot>) -> Seq<(Seq<char>, Seq<char>, Seq<char>)> {
    Seq::new(v.len(), |i: int| (v[i].name@, v[i].url@, v[i].protocol@))
}

/// The figures of `n` are those of `s` at the time `now`.
pub open spec fn shows_stats(s: StreamStats, now: u64, n: StatsSnapshot) -> bool {
    &&& n.status@ == s.status@
    &&& n.bitrate == s.bitrate
    &&& n.duration@ == duration_text(s.started_at, now)
    &&& n.cache_used == s.cache_used_pct
    &&& opt_text(n.error) == opt_text(s.error)
    &&& n.fps_tenths == s.fps_tenths
    &&& n.speed_hundredths == s.speed_hundredths
    &&& n.frames_sent == s.frames_sent
    &&& n.frames_dropped == s.frames_dropped
    &&& n.quality_tenths == s.quality_tenths
}

/// What `n` says follows from the settings of `s`.
pub open spec fn shows_choices(s: EncoderModel, n: Snapshot) -> bool {
    &&& texts(n.available_video_modes@) == video_modes()
    &&& option_models(n.quality_options@) == quality_levels(s)
    &&& texts(n.available_quality_levels@) == Seq::new(
        quality_levels(s).len(),
        |i: int| quality_levels(s)[i].0,
    )
    &&& texts(n.available_services@) == service_names(s.services)
    &&& server_models(n.available_servers@) == offered_servers(s)
    &&& n.current_url@ == (match active_server(s) {
        Some(d) => d.1,
        None => Seq::empty(),
    })
    &&& n.current_protocol@ == (match active_server(s) {
        Some(d) => d.2,
        None => Seq::empty(),
    })
    &&& match active_config(s) {
        Some(c) => n.active_config matches Some(a) && a@ == c,
        None => n.active_config is None,
    }
}

impl Snapshot {
    /// The destination is a local card.
    pub open spec fn to_card(&self) -> bool {
        self.destination_type@ == "decklink"@
    }

    /// Whether the destination is a local card.
    pub fn is_decklink(&self) -> (r: bool)
        ensures
            r == self.to_card(),
    {
        same(self.destination_type.as_str(), "decklink")
    }
}

impl EncoderState {
    fn offer_quality(&self) -> (r: Vec<QualityOption>)
        requires
            in_name_order(self@.services),
        ensures
            option_models(r@) == quality_levels(self@),
    {
        let d: (u32, u32, u32) = video_dimensions(self.video_mode.as_str());
        let res: &str = name_resolution(d.1);
        let mut out: Vec<QualityOption> = Vec::new();
        match find_service(&self.services, self.current_service_name.as_str()) {
            Some(k) => {
                let svc: &StreamService = &self.services[k];
                let mut i: usize = 0;
                while i < svc.profiles.len()
                    invariant
                        i <= svc.profiles@.len(),
                        out@.len() == i,
                        res@ == resolution_of(self@.video_mode),
                        d == mode_dimensions(self@.video_mode),
                        lookup(self@.services, self@.current_service_name) == Some(svc@),
                        forall|j: int|
                            0 <= j < i ==> (
                            (#[trigger] out@[j]).name@, out@[j].bitrate) == quality_levels(
                                self@,
                            )[j],
                    decreases svc.profiles@.len() - i,
                {
                    let p: &StreamProfile = &svc.profiles[i];
                    let bitrate: u64 = match config_of_profile(p, res, d.2) {
                        Some(c) => c.bitrate,
                        None => 0,
                    };
                    assert(svc@.profiles[i as int] == p@);
                    out.push(QualityOption { name: p.name.clone(), bitrate });
                    i += 1;
                }
            },
            None => {
                let high: u64 = match default_bitrate("Streaming High", res, d.2) {
                    Some(b) => b,
                    None => 0,
                };
                let medium: u64 = match default_bitrate("Streaming Medium", res, d.2) {
                    Some(b) => b,
                    None => 0,
                };
                let low: u64 = match default_bitrate("Streaming Low", res, d.2) {
                    Some(b) => b,
                    None => 0,
                };
                out.push(QualityOption { name: "Streaming High".to_owned(), bitrate: high });
                out.push(QualityOption { name: "Streaming Medium".to_owned(), bitrate: medium });
                out.push(QualityOption { name: "Streaming Low".to_owned(), bitrate: low });
            },
        }
        assert(option_models(out@) =~= quality_levels(self@));
        out
    }

    fn offer_servers(&self) -> (r: Vec<ServerSnapshot>)
        requires
            in_name_order(self@.services),
        ensures
            server_models(r@) == offered_servers(self@),
    {
        let mut out: Vec<ServerSnapshot> = Vec::new();
        match find_service(&self.services, self.current_service_name.as_str()) {
            Some(k) => {
                let svc: &StreamService = &self.services[k];
                let mut i: usize = 0;
                while i < svc.servers.len()
                    invariant
                        i <= svc.servers@.len(),
                        out@.len() == i,
                        lookup(self@.services, self@.current_service_name) == Some(svc@),
                        forall|j: int|
                            0 <= j < i ==> (
                                (#[trigger] out@[j]).name@,
                                out@[j].url@,
                                out@[j].protocol@,
                            ) == offered_servers(self@)[j],
                    decreases svc.servers@.len() - i,
                {
                    let sv: &StreamServer = &svc.servers[i];
                    assert(svc@.servers[i as int] == sv@);
                    out.push(
                        ServerSnapshot {
                            name: sv.name.clone(),
                            url: sv.url.clone(),
                            protocol: sv.protocol(),
                        },
                    );
                    i += 1;
                }
            },
            None => {},
        }
        assert(server_models(out@) =~= offered_servers(self@));
        out
    }

    fn offer_services(&self) -> (r: Vec<String>)
        ensures
            texts(r@) == service_names(self@.services),
    {
        let mut out: Vec<String> = Vec::new();
        let mut i: usize = 0;
        while i < self.services.len()
            invariant
                i <= self.services@.len(),
                out@.len() == i,
                forall|j: int| 0 <= j < i ==> (#[trigger] out@[j])@ == self.services@[j].name@,
            decreases self.services@.len() - i,
        {
            out.push(self.services[i].name.clone());
            i += 1;
        }
        assert(texts(out@) =~= service_names(self@.services));
        out
    }

    /// Everything a client sees of the encoder at the time `now`.
    pub fn snapshot(&self, now: u64) -> (r: Snapshot)
        requires
            in_name_order(self@.services),
        ensures
            shows_settings(self@, r),
            shows_choices(self@, r),
            shows_stats(self.stats, now, r.stats),
    {
        let active: Option<Destination> = self.current_active_server();
        let mut current_url: String = String::new();
        let mut current_protocol: String = String::new();
        if let Some(d) = active {
            current_url = d.url;
            current_protocol = d.protocol;
        }
        let active_config: Option<ActiveConfig> = match self.resolve_active_config() {
            Some(c) => Some(
                ActiveConfig {
                    resolution: c.resolution,
                    fps: c.fps,
                    codec: c.codec,
                    bitrate: c.bitrate,
                    audio_bitrate: c.audio_bitrate,
                    keyframe_interval: c.keyframe_interval,
                },
            ),
            None => None,
        };
        let available_video_modes: Vec<String> = available_video_modes();
        let quality_options: Vec<QualityOption> = self.offer_quality();
        let mut available_quality_levels: Vec<String> = Vec::new();
        let mut i: usize = 0;
        while i < quality_options.len()
            invariant
                i <= quality_options@.len(),
                available_quality_levels@.len() == i,
                forall|j: int|
                    0 <= j < i ==> (#[trigger] available_quality_levels@[j])@
                        == quality_options@[j].name@,
            decreases quality_options@.len() - i,
        {
            available_quality_levels.push(quality_options[i].name.clone());
            i += 1;
        }
        assert(texts(available_quality_levels@) =~= Seq::new(
            quality_levels(self@).len(),
            |i: int| quality_levels(self@)[i].0,
        )) by {
            assert forall|j: int| 0 <= j < quality_levels(self@).len() implies #[trigger] texts(
                available_quality_levels@,
            )[j] == quality_levels(self@)[j].0 by {
                assert(option_models(quality_options@)[j] == quality_levels(self@)[j]);
            }
        }
        let available_services: Vec<String> = self.offer_services();
        let available_servers: Vec<ServerSnapshot> = self.offer_servers();
        let stats: StatsSnapshot = StatsSnapshot {
            status: self.stats.status.clone(),
            bitrate: self.stats.bitrate,
            duration: self.stats.duration_string(now),
            cache_used: self.stats.cache_used_pct,
            error: self.stats.error.clone(),
            fps_tenths: self.stats.fps_tenths,
            speed_hundredths: self.stats.speed_hundredths,
            frames_sent: self.stats.frames_sent,
            frames_dropped: self.stats.frames_dropped,
            quality_tenths: self.stats.quality_tenths,
        };
        Snapshot {
            label: self.label.clone(),
            model: self.model.clone(),
            unique_id: self.unique_id.clone(),
            device_uuid: self.device_uuid.clone(),
            video_mode: self.video_mode.clone(),
            quality_level: self.quality_level.clone(),
            source_id: self.source_id.clone(),
            available_video_modes,
            available_quality_levels,
            quality_options,
            available_services,
            available_servers,
            current_service_name: self.current_service_name.clone(),
            current_server_name: self.current_server_name.clone(),
            current_url,
            current_protocol,
            custom_url: self.custom_url.clone(),
            stream_key: self.stream_key.clone(),
            passphrase: self.passphrase.clone(),
            srt_mode: self.srt_mode.clone(),
            srt_latency_us: self.srt_latency_us,
            srt_listen_port: self.srt_listen_port,
            streamid_override: self.streamid_override.clone(),
            streamid_legacy: self.streamid_legacy,
            video_codec: self.video_codec.clone(),
            av_video_index: self.av_video_index,
            av_audio_index: self.av_audio_index,
            av_video_name: self.av_video_name.clone(),
            av_audio_name: self.av_audio_name.clone(),
            audio_mode: self.audio_mode.clone(),
            audio_output_mono: self.audio_output_mono,
            audio_pan_l: self.audio_pan_l,
            audio_pan_r: self.audio_pan_r,
            pipe_path: self.pipe_path.clone(),
            ndi_source_name: self.ndi_source_name.clone(),
            omt_source_name: self.omt_source_name.clone(),
            omt_output_enabled: self.omt_output_enabled,
            omt_output_name: self.omt_output_name.clone(),
            relay: RelaySnapshot {
                bind_host: self.relay_bind_host.clone(),
                srt_port: self.relay_srt_port,
                srt_latency_us: self.relay_srt_latency_us,
                srt_passphrase: self.relay_srt_passphrase.clone(),
                rtmp_port: self.relay_rtmp_port,
                rtmp_app: self.relay_rtmp_app.clone(),
                rtmp_key: self.relay_rtmp_key.clone(),
            },
            overlay: OverlaySnapshot {
                title: self.overlay_title.clone(),
                subtitle: self.overlay_subtitle.clone(),
                logo_path: self.overlay_logo_path.clone(),
                clock: self.overlay_clock,
            },
            active_config,
            stats,
            destination_type: self.destination_type.clone(),
            decklink_device_name: self.decklink_device_name.clone(),
            decklink_output_mode: self.decklink_output_mode.clone(),
            decklink_format_code: self.decklink_format_code.clone(),
            decklink_pixel_format: self.decklink_pixel_format.clone(),
            video_encoder: self.video_encoder.clone(),
            encoder_extra_flags: self.encoder_extra_flags.clone(),
            audio_codec: self.audio_codec.clone(),
            audio_bitrate_kbps: self.audio_bitrate_kbps,
            audio_sample_rate: self.audio_sample_rate,
            audio_channels: self.audio_channels,
            auto_reconnect: self.auto_reconnect,
            auto_reconnect_max_attempts: self.auto_reconnect_max_attempts,
            meters_enabled: self.meters_enabled,
        }
    }
}

// ---------------------------------------------------------------------------
// The source
// ---------------------------------------------------------------------------

/// The settings that say which source to open.
#[derive(Debug)]
pub struct SourceSelection {
    pub source_id: String,
    pub dimensions: (u32, u32, u32),
    pub av_video_index: i32,
    pub av_audio_index: i32,
    pub av_video_name: String,
    pub av_audio_name: String,
    pub audio_mode: String,
    pub pipe_path: String,
    pub ndi_source_name: String,
    pub omt_source_name: String,
    pub relay_bind_host: String,
    pub relay_srt_port: u16,
    pub relay_srt_latency_us: u32,
    pub relay_srt_passphrase: String,
    pub relay_rtmp_port: u16,
    pub relay_rtmp_app: String,
    pub relay_rtmp_key: String,
}

/// What a `SourceSelection` holds.
pub struct SelectionModel {
    pub source_id: Seq<char>,
    pub dimensions: (u32, u32, u32),
    pub av_video_index: i32,
    pub av_audio_index: i32,
    pub av_video_name: Seq<char>,
    pub av_audio_name: Seq<char>,
    pub audio_mode: Seq<char>,
    pub pipe_path: Seq<char>,
    pub ndi_source_name: Seq<char>,
    pub omt_source_name: Seq<char>,
    pub relay_bind_host: Seq<char>,
    pub relay_srt_port: u16,
    pub relay_srt_latency_us: u32,
    pub relay_srt_passphrase: Seq<char>,
    pub relay_rtmp_port: u16,
    pub relay_rtmp_app: Seq<char>,
    pub relay_rtmp_key: Seq<char>,
}

impl View for SourceSelection {
    type V = SelectionModel;

    open spec fn view(&self) -> SelectionModel {
        SelectionModel {
            source_id: self.source_id@,
            dimensions: self.dimensions,
            av_video_index: self.av_video_index,
            av_audio_index: self.av_audio_index,
            av_video_name: self.av_video_name@,
            av_audio_name: self.av_audio_name@,
            audio_mode: self.audio_mode@,
            pipe_path: self.pipe_path@,
            ndi_source_name: self.ndi_source_name@,
            omt_source_name: self.omt_source_name@,
            relay_bind_host: self.relay_bind_host@,
            relay_srt_port: self.relay_srt_port,
            relay_srt_latency_us: self.relay_srt_latency_us,
            relay_srt_passphrase: self.relay_srt_passphrase@,
            relay_rtmp_port: self.relay_rtmp_port,
            relay_rtmp_app: self.relay_rtmp_app@,
            relay_rtmp_key: self.relay_rtmp_key@,
        }
    }
}

/// The settings of `s` that say which source to open.
pub open spec fn selection_of(s: EncoderModel) -> SelectionModel {
    SelectionModel {
        source_id: s.source_id,
        dimensions: mode_dimensions(s.video_mode),
        av_video_index: s.av_video_index,
        av_audio_index: s.av_audio_index,
        av_video_name: s.av_video_name,
        av_audio_name: s.av_audio_name,
        audio_mode: s.audio_mode,
        pipe_path: s.pipe_path,
        ndi_source_name: s.ndi_source_name,
        omt_source_name: s.omt_source_name,
        relay_bind_host: s.relay_bind_host,
        relay_srt_port: s.relay_srt_port,
        relay_srt_latency_us: s.relay_srt_latency_us,
        relay_srt_passphrase: s.relay_srt_passphrase,
        relay_rtmp_port: s.relay_rtmp_port,
        relay_rtmp_app: s.relay_rtmp_app,
        relay_rtmp_key: s.relay_rtmp_key,
    }
}

impl EncoderState {
    /// The settings that say which source to open.
    pub fn source_selection(&self) -> (r: SourceSelection)
        ensures
            r@ == selection_of(self@),
    {
        SourceSelection {
            source_id: self.source_id.clone(),
            dimensions: video_dimensions(self.video_mode.as_str()),
            av_video_index: self.av_video_index,
            av_audio_index: self.av_audio_index,
            av_video_name: self.av_video_name.clone(),
            av_audio_name: self.av_audio_name.clone(),
            audio_mode: self.audio_mode.clone(),
            pipe_path: self.pipe_path.clone(),
            ndi_source_name: self.ndi_source_name.clone(),
            omt_source_name: self.omt_source_name.clone(),
            relay_bind_host: self.relay_bind_host.clone(),
            relay_srt_port: self.relay_srt_port,
            relay_srt_latency_us: self.relay_srt_latency_us,
            relay_srt_passphrase: self.relay_srt_passphrase.clone(),
            relay_rtmp_port: self.relay_rtmp_port,
            relay_rtmp_app: self.relay_rtmp_app.clone(),
            relay_rtmp_key: self.relay_rtmp_key.clone(),
        }
    }
}

} // verus!
