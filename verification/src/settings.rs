//! Changing an encoder's settings.
use vstd::prelude::*;
use vstd::string::*;

use crate::scan::{blank, is_blank, trim, trimmed, trimmed_twice};
use crate::services::{find_service, in_name_order, lookup};
use crate::state::{
    no_update, EncoderModel, EncoderState, OverlaySettingsUpdate, OverlayUpdateModel,
    RelaySettingsUpdate, RelayUpdateModel, SettingsUpdate, UpdateModel,
};
use crate::text::{args, opt_text, same, str_texts, texts};

verus! {

// ---------------------------------------------------------------------------
// The values a setting can have
// ---------------------------------------------------------------------------

/// The output formats an encoder can be set to.
pub open spec fn video_modes() -> Seq<Seq<char>> {
    seq![
        "Auto"@,
        "2160p23.98"@,
        "2160p24"@,
        "2160p25"@,
        "2160p29.97"@,
        "2160p30"@,
        "2160p50"@,
        "2160p59.94"@,
        "2160p60"@,
        "1080p23.98"@,
        "1080p24"@,
        "1080p25"@,
        "1080p29.97"@,
        "1080p30"@,
        "1080p50"@,
        "1080p59.94"@,
        "1080p60"@,
        "720p25"@,
        "720p30"@,
        "720p50"@,
        "720p60"@,
    ]
}

/// The ways to connect over SRT.
pub open spec fn srt_modes() -> Seq<Seq<char>> {
    seq!["caller"@, "listener"@, "rendezvous"@]
}

/// The video codecs.
pub open spec fn video_codecs() -> Seq<Seq<char>> {
    seq!["h264"@, "h265"@]
}

/// The places the audio can come from.
pub open spec fn audio_modes() -> Seq<Seq<char>> {
    seq!["auto"@, "custom"@, "silent"@]
}

/// The kinds of destination.
pub open spec fn destination_types() -> Seq<Seq<char>> {
    seq!["atem"@, "decklink"@]
}

/// The video encoders an operator can pick.
pub open spec fn video_encoders() -> Seq<Seq<char>> {
    seq![
        "auto"@,
        "libx264"@,
        "libx265"@,
        "h264_videotoolbox"@,
        "hevc_videotoolbox"@,
        "h264_nvenc"@,
        "hevc_nvenc"@,
        "h264_qsv"@,
        "hevc_qsv"@,
        "h264_amf"@,
        "hevc_amf"@,
    ]
}

/// The audio codecs.
pub open spec fn audio_codecs() -> Seq<Seq<char>> {
    seq!["aac"@, "aac_he"@, "aac_he_v2"@]
}

/// The output formats an encoder can be set to.
pub fn available_video_modes() -> (r: Vec<String>)
    ensures
        texts(r@) == video_modes(),
{
    let mut out: Vec<String> = Vec::new();
    args(
        &mut out,
        &[
            "Auto",
            "2160p23.98",
            "2160p24",
            "2160p25",
            "2160p29.97",
            "2160p30",
            "2160p50",
            "2160p59.94",
            "2160p60",
            "1080p23.98",
            "1080p24",
            "1080p25",
            "1080p29.97",
            "1080p30",
            "1080p50",
            "1080p59.94",
            "1080p60",
            "720p25",
            "720p30",
            "720p50",
            "720p60",
        ],
    );
    assert(texts(out@) =~= video_modes());
    out
}

/// The video encoders an operator can pick.
pub fn selectable_video_encoders() -> (r: Vec<String>)
    ensures
        texts(r@) == video_encoders(),
{
    let mut out: Vec<String> = Vec::new();
    args(
        &mut out,
        &[
            "auto",
            "libx264",
            "libx265",
            "h264_videotoolbox",
            "hevc_videotoolbox",
            "h264_nvenc",
            "hevc_nvenc",
            "h264_qsv",
            "hevc_qsv",
            "h264_amf",
            "hevc_amf",
        ],
    );
    assert(texts(out@) =~= video_encoders());
    out
}

/// Whether `s` is one of `list`.
pub fn known(s: &str, list: &Vec<String>) -> (r: bool)
    ensures
        r == texts(list@).contains(s@),
{
    let mut i: usize = 0;
    while i < list.len()
        invariant
            i <= list@.len(),
            forall|j: int| 0 <= j < i ==> #[trigger] texts(list@)[j] != s@,
        decreases list@.len() - i,
    {
        if same(list[i].as_str(), s) {
            assert(texts(list@)[i as int] == s@);
            return true;
        }
        i += 1;
    }
    false
}

fn known_text(s: &str, list: &[&str]) -> (r: bool)
    ensures
        r == str_texts(list@).contains(s@),
{
    let mut i: usize = 0;
    while i < list.len()
        invariant
            i <= list@.len(),
            forall|j: int| 0 <= j < i ==> #[trigger] str_texts(list@)[j] != s@,
        decreases list@.len() - i,
    {
        if same(list[i], s) {
            assert(str_texts(list@)[i as int] == s@);
            return true;
        }
        i += 1;
    }
    false
}

// ---------------------------------------------------------------------------
// What a change does
// ---------------------------------------------------------------------------

/// The value a change gives, or else the old one.
pub open spec fn put<T>(u: Option<T>, old_value: T) -> T {
    match u {
        Some(v) => v,
        None => old_value,
    }
}

/// The text a change gives if it is a known one, or else the old one.
pub open spec fn put_known(
    u: Option<Seq<char>>,
    list: Seq<Seq<char>>,
    old_value: Seq<char>,
) -> Seq<char> {
    match u {
        Some(v) => if list.contains(v) {
            v
        } else {
            old_value
        },
        None => old_value,
    }
}

/// The text a change gives if it holds more than whitespace, or else the old one.
pub open spec fn put_unless_blank(u: Option<Seq<char>>, old_value: Seq<char>) -> Seq<char> {
    match u {
        Some(v) => if !is_blank(v) {
            v
        } else {
            old_value
        },
        None => old_value,
    }
}

/// What a change does to the destination and the video format. Picking a service
/// takes its key along, unless the change gives a key itself; a service that is not
/// loaded cannot be picked.
pub open spec fn destination_applied(s: EncoderModel, u: UpdateModel) -> EncoderModel {
    let picked = match u.current_service_name {
        Some(n) => lookup(s.services, n),
        None => None,
    };
    EncoderModel {
        video_mode: put_known(u.video_mode, video_modes(), s.video_mode),
        quality_level: put(u.quality_level, s.quality_level),
        source_id: put(u.source_id, s.source_id),
        custom_url: put(u.custom_url, s.custom_url),
        stream_key: match u.stream_key {
            Some(k) => k,
            None => match picked {
                Some(svc) => svc.key,
                None => s.stream_key,
            },
        },
        passphrase: put(u.passphrase, s.passphrase),
        srt_mode: put_known(u.srt_mode, srt_modes(), s.srt_mode),
        srt_latency_us: put(u.srt_latency_us, s.srt_latency_us),
        srt_listen_port: put(u.srt_listen_port, s.srt_listen_port),
        streamid_override: put(u.streamid_override, s.streamid_override),
        streamid_legacy: put(u.streamid_legacy, s.streamid_legacy),
        video_codec: put_known(u.video_codec, video_codecs(), s.video_codec),
        current_service_name: match picked {
            Some(svc) => u.current_service_name->0,
            None => s.current_service_name,
        },
        current_server_name: put(u.current_server_name, s.current_server_name),
        ..s
    }
}

/// What a change does to the source and where its audio comes from.
pub open spec fn source_applied(s: EncoderModel, u: UpdateModel) -> EncoderModel {
    EncoderModel {
        ndi_source_name: put(u.ndi_source_name, s.ndi_source_name),
        omt_source_name: put(u.omt_source_name, s.omt_source_name),
        omt_output_enabled: put(u.omt_output_enabled, s.omt_output_enabled),
        omt_output_name: put_unless_blank(u.omt_output_name, s.omt_output_name),
        av_video_index: put(u.av_video_index, s.av_video_index),
        av_video_name: put(u.av_video_name, s.av_video_name),
        av_audio_index: put(u.av_audio_index, s.av_audio_index),
        av_audio_name: put(u.av_audio_name, s.av_audio_name),
        audio_pan_l: match u.audio_pan_l {
            Some(v) => if v == 0 {
                1
            } else {
                v
            },
            None => s.audio_pan_l,
        },
        audio_pan_r: match u.audio_pan_r {
            Some(v) => if v == 0 {
                1
            } else {
                v
            },
            None => s.audio_pan_r,
        },
        audio_mode: put_known(u.audio_mode, audio_modes(), s.audio_mode),
        pipe_path: put(u.pipe_path, s.pipe_path),
        label: put(u.label, s.label),
        ..s
    }
}

/// What a change does to the relay.
pub open spec fn relay_applied(s: EncoderModel, r: RelayUpdateModel) -> EncoderModel {
    EncoderModel {
        relay_bind_host: put(r.bind_host, s.relay_bind_host),
        relay_srt_port: put(r.srt_port, s.relay_srt_port),
        relay_srt_latency_us: put(r.srt_latency_us, s.relay_srt_latency_us),
        relay_srt_passphrase: put(r.srt_passphrase, s.relay_srt_passphrase),
        relay_rtmp_port: put(r.rtmp_port, s.relay_rtmp_port),
        relay_rtmp_app: put(r.rtmp_app, s.relay_rtmp_app),
        relay_rtmp_key: put(r.rtmp_key, s.relay_rtmp_key),
        ..s
    }
}

/// What a change does to the overlay.
pub open spec fn overlay_applied(s: EncoderModel, o: OverlayUpdateModel) -> EncoderModel {
    EncoderModel {
        overlay_title: put(o.title, s.overlay_title),
        overlay_subtitle: put(o.subtitle, s.overlay_subtitle),
        overlay_logo_path: put(o.logo_path, s.overlay_logo_path),
        overlay_clock: put(o.clock, s.overlay_clock),
        ..s
    }
}

/// What a change does to the kind of destination and the local card.
pub open spec fn card_applied(s: EncoderModel, u: UpdateModel) -> EncoderModel {
    EncoderModel {
        destination_type: put_known(u.destination_type, destination_types(), s.destination_type),
        decklink_device_name: put(u.decklink_device_name, s.decklink_device_name),
        decklink_output_mode: put(u.decklink_output_mode, s.decklink_output_mode),
        decklink_format_code: put(u.decklink_format_code, s.decklink_format_code),
        decklink_pixel_format: put_unless_blank(u.decklink_pixel_format, s.decklink_pixel_format),
        ..s
    }
}

/// What a change does to the video encoder and the reconnecting.
pub open spec fn encoder_applied(s: EncoderModel, u: UpdateModel) -> EncoderModel {
    EncoderModel {
        video_encoder: put_known(u.video_encoder, video_encoders(), s.video_encoder),
        encoder_extra_flags: match u.encoder_extra_flags {
            Some(v) => trimmed(v),
            None => s.encoder_extra_flags,
        },
        auto_reconnect: put(u.auto_reconnect, s.auto_reconnect),
        auto_reconnect_max_attempts: match u.auto_reconnect_max_attempts {
            Some(v) => if v > 100 {
                100
            } else {
                v
            },
            None => s.auto_reconnect_max_attempts,
        },
        meters_enabled: put(u.meters_enabled, s.meters_enabled),
        ..s
    }
}

/// What a change does to the audio encoding. Setting one or two channels also
/// says whether the output is mono, unless the change says that itself.
pub open spec fn audio_applied(s: EncoderModel, u: UpdateModel) -> EncoderModel {
    let channels = match u.audio_channels {
        Some(v) => v == 1 || v == 2,
        None => false,
    };
    EncoderModel {
        audio_codec: put_known(u.audio_codec, audio_codecs(), s.audio_codec),
        audio_bitrate_kbps: match u.audio_bitrate_kbps {
            Some(v) => if v == 0 {
                0
            } else if v < 32 {
                32
            } else if v > 320 {
                320
            } else {
                v
            },
            None => s.audio_bitrate_kbps,
        },
        audio_sample_rate: match u.audio_sample_rate {
            Some(v) => if v == 44100 || v == 48000 {
                v
            } else {
                s.audio_sample_rate
            },
            None => s.audio_sample_rate,
        },
        audio_channels: if channels {
            u.audio_channels->0
        } else {
            s.audio_channels
        },
        audio_output_mono: match u.audio_output_mono {
            Some(m) => m,
            None => if channels {
                u.audio_channels->0 == 1
            } else {
                s.audio_output_mono
            },
        },
        ..s
    }
}

/// What a change does to an encoder.
pub open spec fn applied(s: EncoderModel, u: UpdateModel) -> EncoderModel {
    let a = source_applied(destination_applied(s, u), u);
    let b = match u.relay {
        Some(r) => relay_applied(a, r),
        None => a,
    };
    let c = match u.overlay {
        Some(o) => overlay_applied(b, o),
        None => b,
    };
    audio_applied(encoder_applied(card_applied(c, u), u), u)
}

/// Every setting has a value that it can have, and the services stand in order.
pub open spec fn settings_valid(s: EncoderModel) -> bool {
    &&& video_modes().contains(s.video_mode)
    &&& srt_modes().contains(s.srt_mode)
    &&& video_codecs().contains(s.video_codec)
    &&& audio_modes().contains(s.audio_mode)
    &&& destination_types().contains(s.destination_type)
    &&& video_encoders().contains(s.video_encoder)
    &&& audio_codecs().contains(s.audio_codec)
    &&& s.audio_bitrate_kbps == 0 || 32 <= s.audio_bitrate_kbps <= 320
    &&& s.audio_sample_rate == 44100 || s.audio_sample_rate == 48000
    &&& s.audio_channels == 1 || s.audio_channels == 2
    &&& s.audio_pan_l >= 1
    &&& s.audio_pan_r >= 1
    &&& s.auto_reconnect_max_attempts <= 100
    &&& !is_blank(s.omt_output_name)
    &&& !is_blank(s.decklink_pixel_format)
    &&& trimmed(s.encoder_extra_flags) == s.encoder_extra_flags
    &&& in_name_order(s.services)
}

// ---------------------------------------------------------------------------
// Laws
// ---------------------------------------------------------------------------

/// A change that holds nothing leaves the encoder as it is.
pub proof fn no_update_changes_nothing(s: EncoderModel)
    ensures
        applied(s, no_update()) == s,
{
}

/// Whatever a change holds, the settings stay valid.
pub proof fn applied_stays_valid(s: EncoderModel, u: UpdateModel)
    requires
        settings_valid(s),
    ensures
        settings_valid(applied(s, u)),
{
    if u.encoder_extra_flags is Some {
        trimmed_twice(u.encoder_extra_flags->0);
    }
}

/// Making the same change twice is the same as making it once.
pub proof fn applied_twice(s: EncoderModel, u: UpdateModel)
    ensures
        applied(applied(s, u), u) == applied(s, u),
{
}

/// Two values of a change are the same, or both are passed over.
pub open spec fn same_known(a: Option<Seq<char>>, b: Option<Seq<char>>, list: Seq<Seq<char>>) -> bool {
    a == b || ((a matches Some(x) ==> !list.contains(x)) && (b matches Some(x) ==> !list.contains(
        x,
    )))
}

/// Two changes that differ at most in values that are passed over.
pub open spec fn same_but_unknown(u: UpdateModel, v: UpdateModel) -> bool {
    &&& v == UpdateModel {
        video_mode: v.video_mode,
        srt_mode: v.srt_mode,
        video_codec: v.video_codec,
        audio_mode: v.audio_mode,
        destination_type: v.destination_type,
        video_encoder: v.video_encoder,
        audio_codec: v.audio_codec,
        audio_sample_rate: v.audio_sample_rate,
        audio_channels: v.audio_channels,
        ..u
    }
    &&& same_known(u.video_mode, v.video_mode, video_modes())
    &&& same_known(u.srt_mode, v.srt_mode, srt_modes())
    &&& same_known(u.video_codec, v.video_codec, video_codecs())
    &&& same_known(u.audio_mode, v.audio_mode, audio_modes())
    &&& same_known(u.destination_type, v.destination_type, destination_types())
    &&& same_known(u.video_encoder, v.video_encoder, video_encoders())
    &&& same_known(u.audio_codec, v.audio_codec, audio_codecs())
    &&& u.audio_sample_rate == v.audio_sample_rate || ((u.audio_sample_rate matches Some(x) ==> x
        != 44100 && x != 48000) && (v.audio_sample_rate matches Some(x) ==> x != 44100 && x
        != 48000))
    &&& u.audio_channels == v.audio_channels || ((u.audio_channels matches Some(x) ==> x != 1 && x
        != 2) && (v.audio_channels matches Some(x) ==> x != 1 && x != 2))
}

proof fn same_destination(t: EncoderModel, u: UpdateModel, v: UpdateModel)
    requires
        same_but_unknown(u, v),
    ensures
        destination_applied(t, u) == destination_applied(t, v),
{
}

proof fn same_source(t: EncoderModel, u: UpdateModel, v: UpdateModel)
    requires
        same_but_unknown(u, v),
    ensures
        source_applied(t, u) == source_applied(t, v),
{
}

proof fn same_card(t: EncoderModel, u: UpdateModel, v: UpdateModel)
    requires
        same_but_unknown(u, v),
    ensures
        card_applied(t, u) == card_applied(t, v),
{
}

proof fn same_encoder(t: EncoderModel, u: UpdateModel, v: UpdateModel)
    requires
        same_but_unknown(u, v),
    ensures
        encoder_applied(t, u) == encoder_applied(t, v),
{
}

proof fn same_audio(t: EncoderModel, u: UpdateModel, v: UpdateModel)
    requires
        same_but_unknown(u, v),
    ensures
        audio_applied(t, u) == audio_applied(t, v),
{
}

/// A value outside its set is passed over, and nothing else is: two changes that differ
/// at most in such values do the same.
pub proof fn unknown_values_are_passed_over(s: EncoderModel, u: UpdateModel, v: UpdateModel)
    requires
        same_but_unknown(u, v),
    ensures
        applied(s, u) == applied(s, v),
{
    let a = source_applied(destination_applied(s, u), u);
    let b = match u.relay {
        Some(r) => relay_applied(a, r),
        None => a,
    };
    let c = match u.overlay {
        Some(o) => overlay_applied(b, o),
        None => b,
    };
    same_destination(s, u, v);
    same_source(destination_applied(s, u), u, v);
    same_card(c, u, v);
    same_encoder(card_applied(c, u), u, v);
    same_audio(encoder_applied(card_applied(c, u), u), u, v);
}

/// No change touches the loaded services or the device's identity.
pub proof fn applied_keeps_services(s: EncoderModel, u: UpdateModel)
    ensures
        applied(s, u).services == s.services,
        applied(s, u).model == s.model,
        applied(s, u).unique_id == s.unique_id,
        applied(s, u).device_uuid == s.device_uuid,
{
}

// ---------------------------------------------------------------------------
// Making a change
// ---------------------------------------------------------------------------

fn set_text(dst: &mut String, u: &Option<String>)
    ensures
        final(dst)@ == put(opt_text(*u), old(dst)@),
{
    if let Some(v) = u {
        *dst = v.clone();
    }
}

fn set_known(dst: &mut String, u: &Option<String>, list: &[&str])
    ensures
        final(dst)@ == put_known(opt_text(*u), str_texts(list@), old(dst)@),
{
    if let Some(v) = u {
        if known_text(v.as_str(), list) {
            *dst = v.clone();
        }
    }
}

fn set_unless_blank(dst: &mut String, u: &Option<String>)
    ensures
        final(dst)@ == put_unless_blank(opt_text(*u), old(dst)@),
{
    if let Some(v) = u {
        if !blank(v.as_str()) {
            *dst = v.clone();
        }
    }
}

fn set_value<T: Copy>(dst: &mut T, u: &Option<T>)
    ensures
        *final(dst) == put(*u, *old(dst)),
{
    if let Some(v) = u {
        *dst = *v;
    }
}

impl EncoderState {
    /// The services stand in order and every setting has a value it can have.
    pub open spec fn valid(&self) -> bool {
        settings_valid(self@)
    }

    fn apply_destination(&mut self, update: &SettingsUpdate)
        requires
            in_name_order(old(self)@.services),
        ensures
            final(self)@ == destination_applied(old(self)@, update@),
            final(self).stats == old(self).stats,
    {
        let modes: Vec<String> = available_video_modes();
        if let Some(v) = &update.video_mode {
            if known(v.as_str(), &modes) {
                self.video_mode = v.clone();
            }
        }
        set_text(&mut self.quality_level, &update.quality_level);
        set_text(&mut self.source_id, &update.source_id);
        set_text(&mut self.custom_url, &update.custom_url);
        set_text(&mut self.stream_key, &update.stream_key);
        set_text(&mut self.passphrase, &update.passphrase);
        assert(str_texts(["caller", "listener", "rendezvous"]@) =~= srt_modes());
        set_known(&mut self.srt_mode, &update.srt_mode, &["caller", "listener", "rendezvous"]);
        set_value(&mut self.srt_latency_us, &update.srt_latency_us);
        set_value(&mut self.srt_listen_port, &update.srt_listen_port);
        set_text(&mut self.streamid_override, &update.streamid_override);
        set_value(&mut self.streamid_legacy, &update.streamid_legacy);
        assert(str_texts(["h264", "h265"]@) =~= video_codecs());
        set_known(&mut self.video_codec, &update.video_codec, &["h264", "h265"]);
        if let Some(v) = &update.current_service_name {
            match find_service(&self.services, v.as_str()) {
                Some(i) => {
                    self.current_service_name = v.clone();
                    if update.stream_key.is_none() {
                        self.stream_key = self.services[i].key.clone();
                    }
                },
                None => {},
            }
        }
        set_text(&mut self.current_server_name, &update.current_server_name);
    }

    fn apply_source(&mut self, update: &SettingsUpdate)
        ensures
            final(self)@ == source_applied(old(self)@, update@),
            final(self).stats == old(self).stats,
    {
        set_text(&mut self.ndi_source_name, &update.ndi_source_name);
        set_text(&mut self.omt_source_name, &update.omt_source_name);
        set_value(&mut self.omt_output_enabled, &update.omt_output_enabled);
        set_unless_blank(&mut self.omt_output_name, &update.omt_output_name);
        set_value(&mut self.av_video_index, &update.av_video_index);
        set_text(&mut self.av_video_name, &update.av_video_name);
        set_value(&mut self.av_audio_index, &update.av_audio_index);
        set_text(&mut self.av_audio_name, &update.av_audio_name);
        if let Some(v) = update.audio_pan_l {
            self.audio_pan_l = if v == 0 {
                1
            } else {
                v
            };
        }
        if let Some(v) = update.audio_pan_r {
            self.audio_pan_r = if v == 0 {
                1
            } else {
                v
            };
        }
        assert(str_texts(["auto", "custom", "silent"]@) =~= audio_modes());
        set_known(&mut self.audio_mode, &update.audio_mode, &["auto", "custom", "silent"]);
        set_text(&mut self.pipe_path, &update.pipe_path);
        set_text(&mut self.label, &update.label);
    }

    fn apply_relay(&mut self, r: &RelaySettingsUpdate)
        ensures
            final(self)@ == relay_applied(old(self)@, r@),
            final(self).stats == old(self).stats,
    {
        set_text(&mut self.relay_bind_host, &r.bind_host);
        set_value(&mut self.relay_srt_port, &r.srt_port);
        set_value(&mut self.relay_srt_latency_us, &r.srt_latency_us);
        set_text(&mut self.relay_srt_passphrase, &r.srt_passphrase);
        set_value(&mut self.relay_rtmp_port, &r.rtmp_port);
        set_text(&mut self.relay_rtmp_app, &r.rtmp_app);
        set_text(&mut self.relay_rtmp_key, &r.rtmp_key);
    }

    fn apply_overlay(&mut self, o: &OverlaySettingsUpdate)
        ensures
            final(self)@ == overlay_applied(old(self)@, o@),
            final(self).stats == old(self).stats,
    {
        set_text(&mut self.overlay_title, &o.title);
        set_text(&mut self.overlay_subtitle, &o.subtitle);
        set_text(&mut self.overlay_logo_path, &o.logo_path);
        set_value(&mut self.overlay_clock, &o.clock);
    }

    fn apply_card(&mut self, update: &SettingsUpdate)
        ensures
            final(self)@ == card_applied(old(self)@, update@),
            final(self).stats == old(self).stats,
    {
        assert(str_texts(["atem", "decklink"]@) =~= destination_types());
        set_known(&mut self.destination_type, &update.destination_type, &["atem", "decklink"]);
        set_text(&mut self.decklink_device_name, &update.decklink_device_name);
        set_text(&mut self.decklink_output_mode, &update.decklink_output_mode);
        set_text(&mut self.decklink_format_code, &update.decklink_format_code);
        set_unless_blank(&mut self.decklink_pixel_format, &update.decklink_pixel_format);
    }

    fn apply_encoder(&mut self, update: &SettingsUpdate)
        ensures
            final(self)@ == encoder_applied(old(self)@, update@),
            final(self).stats == old(self).stats,
    {
        let encoders: Vec<String> = selectable_video_encoders();
        if let Some(v) = &update.video_encoder {
            if known(v.as_str(), &encoders) {
                self.video_encoder = v.clone();
            }
        }
        if let Some(v) = &update.encoder_extra_flags {
            self.encoder_extra_flags = trim(v.as_str());
        }
        set_value(&mut self.auto_reconnect, &update.auto_reconnect);
        if let Some(v) = update.auto_reconnect_max_attempts {
            self.auto_reconnect_max_attempts = if v > 100 {
                100
            } else {
                v
            };
        }
        set_value(&mut self.meters_enabled, &update.meters_enabled);
    }

    fn apply_audio(&mut self, update: &SettingsUpdate)
        ensures
            final(self)@ == audio_applied(old(self)@, update@),
            final(self).stats == old(self).stats,
    {
        assert(str_texts(["aac", "aac_he", "aac_he_v2"]@) =~= audio_codecs());
        set_known(&mut self.audio_codec, &update.audio_codec, &["aac", "aac_he", "aac_he_v2"]);
        if let Some(v) = update.audio_bitrate_kbps {
            self.audio_bitrate_kbps = if v == 0 {
                0
            } else if v < 32 {
                32
            } else if v > 320 {
                320
            } else {
                v
            };
        }
        if let Some(v) = update.audio_sample_rate {
            if v == 44100 || v == 48000 {
                self.audio_sample_rate = v;
            }
        }
        if let Some(v) = update.audio_channels {
            if v == 1 || v == 2 {
                self.audio_channels = v;
                self.audio_output_mono = v == 1;
            }
        }
        set_value(&mut self.audio_output_mono, &update.audio_output_mono);
    }

    /// Makes a change to the settings. A value that a setting cannot have is
    /// passed over; the rest of the change is still made.
    pub fn apply_settings(&mut self, update: &SettingsUpdate)
        requires
            old(self).valid(),
        ensures
            final(self)@ == applied(old(self)@, update@),
            final(self).valid(),
            final(self).stats == old(self).stats,
    {
        self.apply_destination(update);
        self.apply_source(update);
        if let Some(r) = &update.relay {
            self.apply_relay(r);
        }
        if let Some(o) = &update.overlay {
            self.apply_overlay(o);
        }
        self.apply_card(update);
        self.apply_encoder(update);
        self.apply_audio(update);
        proof {
            applied_stays_valid(old(self)@, update@);
        }
    }

    /// Sets the device name that control clients and receivers see.
    pub fn set_label(&mut self, label: &str)
        ensures
            final(self)@ == (EncoderModel { label: label@, ..old(self)@ }),
            final(self).stats == old(self).stats,
    {
        self.label = label.to_owned();
    }

    /// Sets the capture devices.
    pub fn apply_default_devices(
        &mut self,
        video_index: i32,
        video_name: &str,
        audio_index: i32,
        audio_name: &str,
    )
        ensures
            final(self)@ == (EncoderModel {
                av_video_index: video_index,
                av_video_name: video_name@,
                av_audio_index: audio_index,
                av_audio_name: audio_name@,
                ..old(self)@
            }),
            final(self).stats == old(self).stats,
    {
        self.av_video_index = video_index;
        self.av_video_name = video_name.to_owned();
        self.av_audio_index = audio_index;
        self.av_audio_name = audio_name.to_owned();
    }
}

} // verus!
