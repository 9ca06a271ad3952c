//! Making an encoder, and loading streaming services into it.
use vstd::prelude::*;
use vstd::string::*;

use crate::nesting::{nesting, MAX_NESTING};
use crate::number::{decimal, parsed_decimal, show_wide};
use crate::services::{
    find_service, in_name_order, lookup, put_service, service_models, with_service,
};
use crate::settings::{
    audio_codecs, audio_modes, destination_types, settings_valid, srt_modes, video_codecs,
    video_encoders, video_modes,
};
use crate::state::{EncoderModel, EncoderState, StatsModel, StreamStats};
use crate::streamid::{fresh_uuid, is_uuid_text, simple_upper, without_hyphens_upper};
use crate::xml::{
    default_profile, document_nodes, load_service_text, service_at, service_place, srt_places,
    LoadError, ServiceModel, StreamServer, StreamService,
};

verus! {

// ---------------------------------------------------------------------------
// A new encoder
// ---------------------------------------------------------------------------

/// The settings of a new encoder with the given identifiers.
pub open spec fn initial(unique: Seq<char>, device: Seq<char>) -> EncoderModel {
    EncoderModel {
        label: "Blackmagic Streaming Encoder Emulator"@,
        model: "Blackmagic Streaming Encoder HD"@,
        unique_id: without_hyphens_upper(unique),
        device_uuid: device,
        video_mode: "1080p29.97"@,
        quality_level: "Streaming High"@,
        source_id: "test_pattern"@,
        av_video_index: 0,
        av_audio_index: -1i32 as i32,
        av_video_name: Seq::empty(),
        av_audio_name: Seq::empty(),
        audio_mode: "auto"@,
        audio_output_mono: false,
        audio_pan_l: 1,
        audio_pan_r: 2,
        pipe_path: Seq::empty(),
        ndi_source_name: Seq::empty(),
        omt_source_name: Seq::empty(),
        omt_output_enabled: false,
        omt_output_name: "ATEM Patchbay"@,
        relay_bind_host: "0.0.0.0"@,
        relay_srt_port: 9710,
        relay_srt_latency_us: 200_000,
        relay_srt_passphrase: Seq::empty(),
        relay_rtmp_port: 1935,
        relay_rtmp_app: "live"@,
        relay_rtmp_key: "stream"@,
        overlay_title: Seq::empty(),
        overlay_subtitle: Seq::empty(),
        overlay_logo_path: Seq::empty(),
        overlay_clock: false,
        services: Seq::empty(),
        current_service_name: Seq::empty(),
        current_server_name: "SRT"@,
        stream_key: Seq::empty(),
        passphrase: Seq::empty(),
        custom_url: Seq::empty(),
        srt_mode: "caller"@,
        srt_latency_us: 200_000,
        srt_listen_port: 9710,
        streamid_override: Seq::empty(),
        streamid_legacy: false,
        video_codec: "h265"@,
        destination_type: "atem"@,
        decklink_device_name: Seq::empty(),
        decklink_output_mode: Seq::empty(),
        decklink_format_code: Seq::empty(),
        decklink_pixel_format: "uyvy422"@,
        video_encoder: "auto"@,
        encoder_extra_flags: Seq::empty(),
        audio_codec: "aac"@,
        audio_bitrate_kbps: 0,
        audio_sample_rate: 48000,
        audio_channels: 2,
        auto_reconnect: true,
        auto_reconnect_max_attempts: 12,
        meters_enabled: true,
    }
}

/// The figures of an encoder that does not stream.
pub open spec fn no_figures() -> StatsModel {
    StatsModel {
        status: "Idle"@,
        bitrate: 0,
        cache_used_pct: 0,
        started_at: None,
        error: None,
        fps_tenths: 0,
        speed_hundredths: 0,
        frames_sent: 0,
        frames_dropped: 0,
        quality_tenths: 0,
        reconnect_attempt: 0,
        reconnect_next_secs: 0,
        total_reconnects_this_session: 0,
        audio_db_rms_l: Seq::empty(),
        audio_db_rms_r: Seq::empty(),
        audio_db_peak_l: Seq::empty(),
        audio_db_peak_r: Seq::empty(),
        audio_levels_at: 0,
    }
}

impl Default for StreamStats {
    /// The figures of an encoder that does not stream.
    fn default() -> (r: Self)
        ensures
            r@ == no_figures(),
    {
        StreamStats {
            status: "Idle".to_owned(),
            bitrate: 0,
            cache_used_pct: 0,
            started_at: None,
            error: None,
            fps_tenths: 0,
            speed_hundredths: 0,
            frames_sent: 0,
            frames_dropped: 0,
            quality_tenths: 0,
            reconnect_attempt: 0,
            reconnect_next_secs: 0,
            total_reconnects_this_session: 0,
            audio_db_rms_l: String::new(),
            audio_db_rms_r: String::new(),
            audio_db_peak_l: String::new(),
            audio_db_peak_r: String::new(),
            audio_levels_at: 0,
        }
    }
}

/// A new encoder's settings are valid.
pub proof fn initial_is_valid(unique: Seq<char>, device: Seq<char>)
    ensures
        settings_valid(initial(unique, device)),
{
    let s = initial(unique, device);
    assert(video_modes()[12] == s.video_mode);
    assert(srt_modes()[0] == s.srt_mode);
    assert(video_codecs()[1] == s.video_codec);
    assert(audio_modes()[0] == s.audio_mode);
    assert(destination_types()[0] == s.destination_type);
    assert(video_encoders()[0] == s.video_encoder);
    assert(audio_codecs()[0] == s.audio_codec);
    reveal_strlit("ATEM Patchbay");
    reveal_strlit("uyvy422");
}

impl EncoderState {
    /// A new encoder with the given identifiers.
    pub fn with_identity(unique: &str, device: &str) -> (r: EncoderState)
        ensures
            r@ == initial(unique@, device@),
            r.valid(),
            r.stats@ == no_figures(),
    {
        let r: EncoderState = EncoderState {
            label: "Blackmagic Streaming Encoder Emulator".to_owned(),
            model: "Blackmagic Streaming Encoder HD".to_owned(),
            unique_id: simple_upper(unique),
            device_uuid: device.to_owned(),
            video_mode: "1080p29.97".to_owned(),
            quality_level: "Streaming High".to_owned(),
            source_id: "test_pattern".to_owned(),
            av_video_index: 0,
            av_audio_index: -1,
            av_video_name: String::new(),
            av_audio_name: String::new(),
            audio_mode: "auto".to_owned(),
            audio_output_mono: false,
            audio_pan_l: 1,
            audio_pan_r: 2,
            pipe_path: String::new(),
            ndi_source_name: String::new(),
            omt_source_name: String::new(),
            omt_output_enabled: false,
            omt_output_name: "ATEM Patchbay".to_owned(),
            relay_bind_host: "0.0.0.0".to_owned(),
            relay_srt_port: 9710,
            relay_srt_latency_us: 200_000,
            relay_srt_passphrase: String::new(),
            relay_rtmp_port: 1935,
            relay_rtmp_app: "live".to_owned(),
            relay_rtmp_key: "stream".to_owned(),
            overlay_title: String::new(),
            overlay_subtitle: String::new(),
            overlay_logo_path: String::new(),
            overlay_clock: false,
            services: Vec::new(),
            current_service_name: String::new(),
            current_server_name: "SRT".to_owned(),
            stream_key: String::new(),
            passphrase: String::new(),
            custom_url: String::new(),
            srt_mode: "caller".to_owned(),
            srt_latency_us: 200_000,
            srt_listen_port: 9710,
            streamid_override: String::new(),
            streamid_legacy: false,
            video_codec: "h265".to_owned(),
            destination_type: "atem".to_owned(),
            decklink_device_name: String::new(),
            decklink_output_mode: String::new(),
            decklink_format_code: String::new(),
            decklink_pixel_format: "uyvy422".to_owned(),
            video_encoder: "auto".to_owned(),
            encoder_extra_flags: String::new(),
            audio_codec: "aac".to_owned(),
            audio_bitrate_kbps: 0,
            audio_sample_rate: 48000,
            audio_channels: 2,
            auto_reconnect: true,
            auto_reconnect_max_attempts: 12,
            meters_enabled: true,
            stats: StreamStats::default(),
        };
        proof {
            initial_is_valid(unique@, device@);
        }
        assert(r@.services =~= Seq::empty());
        r
    }

    /// A new encoder, with identifiers of its own.
    pub fn new() -> (r: EncoderState)
        ensures
            r.valid(),
            exists|u: Seq<char>, d: Seq<char>|
                is_uuid_text(u) && is_uuid_text(d) && r@ == #[trigger] initial(u, d),
            r.stats@ == no_figures(),
    {
        let unique: String = fresh_uuid();
        let device: String = fresh_uuid();
        EncoderState::with_identity(unique.as_str(), device.as_str())
    }
}

// ---------------------------------------------------------------------------
// Services
// ---------------------------------------------------------------------------

/// `n` is `o` with a service loaded. The service is picked if that is asked for,
/// or, where nothing is said, if none is picked yet; with it go its key, its
/// default profile, and its first SRT server or else its first server. A service
/// that is asked for takes the place of a custom URL.
pub open spec fn registered(
    o: EncoderModel,
    svc: ServiceModel,
    make_active: Option<bool>,
    n: EncoderModel,
) -> bool {
    let picked = match make_active {
        Some(b) => b,
        None => o.current_service_name.len() == 0,
    };
    &&& with_service(o.services, svc, n.services)
    &&& n == EncoderModel {
        services: n.services,
        current_service_name: if picked {
            svc.name
        } else {
            o.current_service_name
        },
        stream_key: if picked {
            svc.key
        } else {
            o.stream_key
        },
        quality_level: if picked && default_profile(svc) is Some {
            svc.profiles[default_profile(svc)->0].name
        } else {
            o.quality_level
        },
        current_server_name: if picked && srt_places(svc.servers).len() > 0 {
            svc.servers[srt_places(svc.servers)[0]].name
        } else if picked && svc.servers.len() > 0 {
            svc.servers[0].name
        } else {
            o.current_server_name
        },
        custom_url: if make_active == Some(true) {
            Seq::empty()
        } else {
            o.custom_url
        },
        ..o
    }
}

/// `svc` under another name.
pub open spec fn renamed(svc: ServiceModel, name: Seq<char>) -> ServiceModel {
    ServiceModel { name, ..svc }
}

/// The name of a service pasted in when its own is taken.
pub open spec fn pasted_name(name: Seq<char>, n: nat) -> Seq<char> {
    name + " (pasted "@ + decimal(n) + ")"@
}

/// The name of a service from a file when its own is taken.
pub open spec fn file_name(name: Seq<char>, stem: Seq<char>) -> Seq<char> {
    name + " ["@ + stem + "]"@
}

/// `new_name` is the name a pasted service gets: its own if no service has it, or
/// else the one with the first number from two on that is free.
pub open spec fn pasted_under(
    services: Seq<ServiceModel>,
    name: Seq<char>,
    new_name: Seq<char>,
) -> bool {
    if lookup(services, name) is None {
        new_name == name
    } else {
        exists|n: nat|
            2 <= n && new_name == #[trigger] pasted_name(name, n) && lookup(services, new_name)
                is None && forall|k: nat|
                2 <= k < n ==> lookup(services, #[trigger] pasted_name(name, k)) is Some
    }
}

proof fn pasted_names_differ(name: Seq<char>, a: nat, b: nat)
    requires
        pasted_name(name, a) == pasted_name(name, b),
    ensures
        a == b,
{
    let x = pasted_name(name, a);
    let start = name.len() + " (pasted "@.len();
    let stop = x.len() - ")"@.len();
    assert(x.subrange(start as int, stop as int) =~= decimal(a));
    assert(x.subrange(start as int, stop as int) =~= decimal(b));
    parsed_decimal(a, (a + b) as int);
    parsed_decimal(b, (a + b) as int);
}

/// As many names as are taken, so many services there are.
proof fn places_bounded(places: Seq<int>, len: int)
    requires
        0 <= len,
        forall|i: int| 0 <= i < places.len() ==> 0 <= #[trigger] places[i] < len,
        forall|i: int, j: int| 0 <= i < j < places.len() ==> places[i] != places[j],
    ensures
        places.len() <= len,
    decreases len,
{
    if len == 0 {
        if places.len() > 0 {
            assert(0 <= places[0] < len);
        }
    } else if exists|k: int| 0 <= k < places.len() && places[k] == len - 1 {
        let k = choose|k: int| 0 <= k < places.len() && places[k] == len - 1;
        let rest = places.remove(k);
        assert forall|i: int| 0 <= i < rest.len() implies 0 <= #[trigger] rest[i] < len - 1 by {
            if i < k {
                assert(rest[i] == places[i]);
            } else {
                assert(rest[i] == places[i + 1]);
            }
        }
        assert forall|i: int, j: int| 0 <= i < j < rest.len() implies rest[i] != rest[j] by {
            let a = if i < k {
                i
            } else {
                i + 1
            };
            let b = if j < k {
                j
            } else {
                j + 1
            };
            assert(rest[i] == places[a]);
            assert(rest[j] == places[b]);
        }
        places_bounded(rest, len - 1);
    } else {
        assert forall|i: int| 0 <= i < places.len() implies 0 <= #[trigger] places[i] < len
            - 1 by {
            assert(places[i] != len - 1);
        }
        places_bounded(places, len - 1);
    }
}

/// The name a pasted service gets.
fn choose_pasted_name(services: &Vec<StreamService>, name: &str) -> (r: String)
    requires
        in_name_order(service_models(services@)),
    ensures
        pasted_under(service_models(services@), name@, r@),
{
    let ghost m = service_models(services@);
    if find_service(services, name).is_none() {
        return name.to_owned();
    }
    let mut n: u128 = 2;
    let ghost mut places = Seq::<int>::empty();
    let total: usize = services.len();
    loop
        invariant
            m == service_models(services@),
            total == services@.len(),
            in_name_order(m),
            lookup(m, name@) is Some,
            n == places.len() + 2,
            forall|i: int| 0 <= i < places.len() ==> 0 <= #[trigger] places[i] < total,
            forall|i: int|
                0 <= i < places.len() ==> m[#[trigger] places[i]].name == pasted_name(
                    name@,
                    (i + 2) as nat,
                ),
            forall|i: int, j: int| 0 <= i < j < places.len() ==> places[i] != places[j],
            forall|k: nat| 2 <= k < n ==> lookup(m, #[trigger] pasted_name(name@, k)) is Some,
            places.len() <= total,
        decreases total + 1 - places.len(),
    {
        let mut candidate: String = name.to_owned();
        let number: String = show_wide(n);
        candidate.push_str(" (pasted ");
        candidate.push_str(number.as_str());
        candidate.push_str(")");
        assert(candidate@ == pasted_name(name@, n as nat));
        match find_service(services, candidate.as_str()) {
            Some(i) => {
                proof {
                    let grown = places.push(i as int);
                    assert forall|a: int, b: int| 0 <= a < b < grown.len() implies grown[a]
                        != grown[b] by {
                        if b == places.len() {
                            if grown[a] == grown[b] {
                                assert(m[places[a]].name == pasted_name(name@, (a + 2) as nat));
                                pasted_names_differ(name@, (a + 2) as nat, n as nat);
                            }
                        }
                    }
                    places_bounded(grown, total as int);
                    places = grown;
                }
                n += 1;
            },
            None => {
                return candidate;
            },
        }
    }
}

impl EncoderState {
    /// Adds a service, and picks it if that is asked for; where nothing is said,
    /// if none is picked yet.
    pub fn register_service(&mut self, svc: StreamService, make_active: Option<bool>)
        requires
            old(self).valid(),
        ensures
            registered(old(self)@, svc@, make_active, final(self)@),
            final(self).valid(),
            final(self).stats == old(self).stats,
    {
        let ghost model = svc@;
        let should_activate: bool = match make_active {
            Some(b) => b,
            None => self.current_service_name.as_str().is_empty(),
        };
        let svc_name: String = svc.name.clone();
        let svc_key: String = svc.key.clone();
        let default_name: Option<String> = match svc.get_default_profile() {
            Some(p) => Some(p.name.clone()),
            None => None,
        };
        let srt: Vec<&StreamServer> = svc.srt_servers();
        let server_name: Option<String> = if srt.len() > 0 {
            assert(srt_places(model.servers)[0] >= 0);
            Some(srt[0].name.clone())
        } else if svc.servers.len() > 0 {
            Some(svc.servers[0].name.clone())
        } else {
            None
        };
        put_service(&mut self.services, svc);
        if should_activate {
            self.current_service_name = svc_name;
            self.stream_key = svc_key;
            if let Some(p) = default_name {
                self.quality_level = p;
            }
            if let Some(n) = server_name {
                self.current_server_name = n;
            }
            if make_active == Some(true) {
                self.custom_url = String::new();
            }
        }
    }

    /// Loads a service from the text of a service file called `stem`. If its name
    /// is taken, the file's name is added to it.
    pub fn add_service_from_xml(
        &mut self,
        text: &str,
        stem: &str,
        make_active: Option<bool>,
    ) -> (r: Result<(), LoadError>)
        requires
            old(self).valid(),
        ensures
            final(self).valid(),
            final(self).stats == old(self).stats,
            r is Err ==> final(self)@ == old(self)@,
            r matches Err(LoadError::TooDeep) <==> nesting(text@) > MAX_NESTING,
            r matches Err(LoadError::Malformed(_)) <==> nesting(text@) <= MAX_NESTING
                && document_nodes(text@) is None,
            nesting(text@) <= MAX_NESTING ==> (document_nodes(text@) matches Some(
                nodes,
            ) ==> match service_place(nodes) {
                Some(j) => {
                    let svc = service_at(nodes, j);
                    r is Ok && registered(
                        old(self)@,
                        if lookup(old(self)@.services, svc.name) is Some {
                            renamed(svc, file_name(svc.name, stem@))
                        } else {
                            svc
                        },
                        make_active,
                        final(self)@,
                    )
                },
                None => r matches Err(LoadError::NoService),
            }),
    {
        let mut svc: StreamService = match load_service_text(text) {
            Ok(s) => s,
            Err(e) => {
                return Err(e);
            },
        };
        let ghost model = svc@;
        if find_service(&self.services, svc.name.as_str()).is_some() {
            let mut name: String = svc.name.clone();
            name.push_str(" [");
            name.push_str(stem);
            name.push_str("]");
            svc.name = name;
            assert(svc@ == renamed(model, file_name(model.name, stem@)));
        }
        self.register_service(svc, make_active);
        Ok(())
    }

    /// Loads a service from pasted text. If its name is taken, it gets a number.
    pub fn add_service_from_xml_text(&mut self, text: &str, make_active: bool) -> (r: Result<
        (),
        LoadError,
    >)
        requires
            old(self).valid(),
        ensures
            final(self).valid(),
            final(self).stats == old(self).stats,
            r is Err ==> final(self)@ == old(self)@,
            r matches Err(LoadError::TooDeep) <==> nesting(text@) > MAX_NESTING,
            r matches Err(LoadError::Malformed(_)) <==> nesting(text@) <= MAX_NESTING
                && document_nodes(text@) is None,
            nesting(text@) <= MAX_NESTING ==> (document_nodes(text@) matches Some(
                nodes,
            ) ==> match service_place(nodes) {
                Some(j) => {
                    let svc = service_at(nodes, j);
                    r is Ok && exists|name: Seq<char>|
                        pasted_under(old(self)@.services, svc.name, name)
                            && #[trigger] registered(
                            old(self)@,
                            renamed(svc, name),
                            Some(make_active),
                            final(self)@,
                        )
                },
                None => r matches Err(LoadError::NoService),
            }),
    {
        match load_service_text(text) {
            Ok(s) => {
                self.add_pasted_service(s, make_active);
                Ok(())
            },
            Err(e) => Err(e),
        }
    }

    /// Adds a service that was pasted in. If its name is taken, it gets a number.
    pub fn add_pasted_service(&mut self, svc: StreamService, make_active: bool)
        requires
            old(self).valid(),
        ensures
            final(self).valid(),
            final(self).stats == old(self).stats,
            exists|name: Seq<char>|
                pasted_under(old(self)@.services, svc.name@, name) && #[trigger] registered(
                    old(self)@,
                    renamed(svc@, name),
                    Some(make_active),
                    final(self)@,
                ),
    {
        let ghost model = svc@;
        let name: String = choose_pasted_name(&self.services, svc.name.as_str());
        let mut svc: StreamService = svc;
        svc.name = name;
        assert(svc@ == renamed(model, svc.name@));
        self.register_service(svc, Some(make_active));
    }

    /// Drops every service and what was picked from them. A custom URL stays.
    pub fn clear_services(&mut self)
        requires
            old(self).valid(),
        ensures
            final(self).valid(),
            final(self).stats == old(self).stats,
            final(self)@ == (EncoderModel {
                services: Seq::empty(),
                current_service_name: Seq::empty(),
                current_server_name: "SRT"@,
                stream_key: Seq::empty(),
                passphrase: Seq::empty(),
                ..old(self)@
            }),
    {
        self.services = Vec::new();
        self.current_service_name = String::new();
        self.current_server_name = "SRT".to_owned();
        self.stream_key = String::new();
        self.passphrase = String::new();
        assert(self@.services =~= Seq::empty());
    }
}

/// A service that was loaded is found under its name, and those loaded before it
/// are kept, but for one of the same name.
pub proof fn registered_is_found(
    o: EncoderModel,
    svc: ServiceModel,
    make_active: Option<bool>,
    n: EncoderModel,
    other: Seq<char>,
)
    requires
        registered(o, svc, make_active, n),
        other != svc.name,
    ensures
        lookup(n.services, svc.name) == Some(svc),
        lookup(n.services, other) == lookup(o.services, other),
{
}

/// A pasted service never takes the place of one that is loaded.
pub proof fn pasting_keeps_services(
    o: EncoderModel,
    svc: ServiceModel,
    name: Seq<char>,
    make_active: Option<bool>,
    n: EncoderModel,
    other: Seq<char>,
)
    requires
        pasted_under(o.services, svc.name, name),
        registered(o, renamed(svc, name), make_active, n),
        lookup(o.services, other) is Some,
    ensures
        lookup(n.services, other) == lookup(o.services, other),
        lookup(n.services, name) == Some(renamed(svc, name)),
{
}

} // verus!
