//! Keeping a tile's settings across restarts.
//!
//! What is kept is what the operator can set, but for the relay and the overlay.
//! It is given back by the same way as any other change of the settings.
use vstd::prelude::*;
use vstd::string::*;

use crate::number::{decimal, show};
use crate::services::lookup;
use crate::settings::{applied, settings_valid};
use crate::state::{no_update, EncoderModel, EncoderState, SettingsUpdate, UpdateModel};
use crate::text::{cat3, opt_text};

verus! {

/// The version of the format that is kept. Another version is not read.
pub const PERSIST_VERSION: u32 = 1;

/// The settings of a tile that are kept; `None` for one that was not set.
#[derive(Debug)]
pub struct PersistedTileState {
    pub version: u32,
    pub label: Option<String>,
    pub source_id: Option<String>,
    pub ndi_source_name: Option<String>,
    pub omt_source_name: Option<String>,
    pub av_video_index: Option<i32>,
    pub av_video_name: Option<String>,
    pub av_audio_index: Option<i32>,
    pub av_audio_name: Option<String>,
    pub pipe_path: Option<String>,
    pub destination_type: Option<String>,
    pub decklink_device_name: Option<String>,
    pub decklink_output_mode: Option<String>,
    pub decklink_format_code: Option<String>,
    pub decklink_pixel_format: Option<String>,
    pub custom_url: Option<String>,
    pub stream_key: Option<String>,
    pub passphrase: Option<String>,
    pub srt_mode: Option<String>,
    pub srt_latency_us: Option<u32>,
    pub srt_listen_port: Option<u16>,
    pub streamid_override: Option<String>,
    pub streamid_legacy: Option<bool>,
    pub current_service_name: Option<String>,
    pub current_server_name: Option<String>,
    pub video_mode: Option<String>,
    pub quality_level: Option<String>,
    pub video_codec: Option<String>,
    pub video_encoder: Option<String>,
    pub encoder_extra_flags: Option<String>,
    pub audio_mode: Option<String>,
    pub audio_output_mono: Option<bool>,
    pub audio_pan_l: Option<u8>,
    pub audio_pan_r: Option<u8>,
    pub audio_codec: Option<String>,
    pub audio_bitrate_kbps: Option<u32>,
    pub audio_sample_rate: Option<u32>,
    pub audio_channels: Option<u8>,
    pub auto_reconnect: Option<bool>,
    pub auto_reconnect_max_attempts: Option<u32>,
    pub meters_enabled: Option<bool>,
    pub omt_output_enabled: Option<bool>,
    pub omt_output_name: Option<String>,
}

/// What a `PersistedTileState` holds.
pub struct PersistedModel {
    pub version: u32,
    pub label: Option<Seq<char>>,
    pub source_id: Option<Seq<char>>,
    pub ndi_source_name: Option<Seq<char>>,
    pub omt_source_name: Option<Seq<char>>,
    pub av_video_index: Option<i32>,
    pub av_video_name: Option<Seq<char>>,
    pub av_audio_index: Option<i32>,
    pub av_audio_name: Option<Seq<char>>,
    pub pipe_path: Option<Seq<char>>,
    pub destination_type: Option<Seq<char>>,
    pub decklink_device_name: Option<Seq<char>>,
    pub decklink_output_mode: Option<Seq<char>>,
    pub decklink_format_code: Option<Seq<char>>,
    pub decklink_pixel_format: Option<Seq<char>>,
    pub custom_url: Option<Seq<char>>,
    pub stream_key: Option<Seq<char>>,
    pub passphrase: Option<Seq<char>>,
    pub srt_mode: Option<Seq<char>>,
    pub srt_latency_us: Option<u32>,
    pub srt_listen_port: Option<u16>,
    pub streamid_override: Option<Seq<char>>,
    pub streamid_legacy: Option<bool>,
    pub current_service_name: Option<Seq<char>>,
    pub current_server_name: Option<Seq<char>>,
    pub video_mode: Option<Seq<char>>,
    pub quality_level: Option<Seq<char>>,
    pub video_codec: Option<Seq<char>>,
    pub video_encoder: Option<Seq<char>>,
    pub encoder_extra_flags: Option<Seq<char>>,
    pub audio_mode: Option<Seq<char>>,
    pub audio_output_mono: Option<bool>,
    pub audio_pan_l: Option<u8>,
    pub audio_pan_r: Option<u8>,
    pub audio_codec: Option<Seq<char>>,
    pub audio_bitrate_kbps: Option<u32>,
    pub audio_sample_rate: Option<u32>,
    pub audio_channels: Option<u8>,
    pub auto_reconnect: Option<bool>,
    pub auto_reconnect_max_attempts: Option<u32>,
    pub meters_enabled: Option<bool>,
    pub omt_output_enabled: Option<bool>,
    pub omt_output_name: Option<Seq<char>>,
}

impl View for PersistedTileState {
    type V = PersistedModel;

    open spec fn view(&self) -> PersistedModel {
        PersistedModel {
            version: self.version,
            label: opt_text(self.label),
            source_id: opt_text(self.source_id),
            ndi_source_name: opt_text(self.ndi_source_name),
            omt_source_name: opt_text(self.omt_source_name),
            av_video_index: self.av_video_index,
            av_video_name: opt_text(self.av_video_name),
            av_audio_index: self.av_audio_index,
            av_audio_name: opt_text(self.av_audio_name),
            pipe_path: opt_text(self.pipe_path),
            destination_type: opt_text(self.destination_type),
            decklink_device_name: opt_text(self.decklink_device_name),
            decklink_output_mode: opt_text(self.decklink_output_mode),
            decklink_format_code: opt_text(self.decklink_format_code),
            decklink_pixel_format: opt_text(self.decklink_pixel_format),
            custom_url: opt_text(self.custom_url),
            stream_key: opt_text(self.stream_key),
            passphrase: opt_text(self.passphrase),
            srt_mode: opt_text(self.srt_mode),
            srt_latency_us: self.srt_latency_us,
            srt_listen_port: self.srt_listen_port,
            streamid_override: opt_text(self.streamid_override),
            streamid_legacy: self.streamid_legacy,
            current_service_name: opt_text(self.current_service_name),
            current_server_name: opt_text(self.current_server_name),
            video_mode: opt_text(self.video_mode),
            quality_level: opt_text(self.quality_level),
            video_codec: opt_text(self.video_codec),
            video_encoder: opt_text(self.video_encoder),
            encoder_extra_flags: opt_text(self.encoder_extra_flags),
            audio_mode: opt_text(self.audio_mode),
            audio_output_mono: self.audio_output_mono,
            audio_pan_l: self.audio_pan_l,
            audio_pan_r: self.audio_pan_r,
            audio_codec: opt_text(self.audio_codec),
            audio_bitrate_kbps: self.audio_bitrate_kbps,
            audio_sample_rate: self.audio_sample_rate,
            audio_channels: self.audio_channels,
            auto_reconnect: self.auto_reconnect,
            auto_reconnect_max_attempts: self.auto_reconnect_max_attempts,
            meters_enabled: self.meters_enabled,
            omt_output_enabled: self.omt_output_enabled,
            omt_output_name: opt_text(self.omt_output_name),
        }
    }
}

impl Default for PersistedTileState {
    /// Nothing is kept.
    fn default() -> (r: Self)
        ensures
            r.version == 0,
            restoring(r@) == no_update(),
    {
        PersistedTileState {
            version: 0,
            label: None,
            source_id: None,
            ndi_source_name: None,
            omt_source_name: None,
            av_video_index: None,
            av_video_name: None,
            av_audio_index: None,
            av_audio_name: None,
            pipe_path: None,
            destination_type: None,
            decklink_device_name: None,
            decklink_output_mode: None,
            decklink_format_code: None,
            decklink_pixel_format: None,
            custom_url: None,
            stream_key: None,
            passphrase: None,
            srt_mode: None,
            srt_latency_us: None,
            srt_listen_port: None,
            streamid_override: None,
            streamid_legacy: None,
            current_service_name: None,
            current_server_name: None,
            video_mode: None,
            quality_level: None,
            video_codec: None,
            video_encoder: None,
            encoder_extra_flags: None,
            audio_mode: None,
            audio_output_mono: None,
            audio_pan_l: None,
            audio_pan_r: None,
            audio_codec: None,
            audio_bitrate_kbps: None,
            audio_sample_rate: None,
            audio_channels: None,
            auto_reconnect: None,
            auto_reconnect_max_attempts: None,
            meters_enabled: None,
            omt_output_enabled: None,
            omt_output_name: None,
        }
    }
}

/// What is kept of an encoder: all that the operator can pick, as it is.
pub open spec fn persisted(s: EncoderModel) -> PersistedModel {
    PersistedModel {
        version: PERSIST_VERSION,
        label: Some(s.label),
        source_id: Some(s.source_id),
        ndi_source_name: Some(s.ndi_source_name),
        omt_source_name: Some(s.omt_source_name),
        av_video_index: Some(s.av_video_index),
        av_video_name: Some(s.av_video_name),
        av_audio_index: Some(s.av_audio_index),
        av_audio_name: Some(s.av_audio_name),
        pipe_path: Some(s.pipe_path),
        destination_type: Some(s.destination_type),
        decklink_device_name: Some(s.decklink_device_name),
        decklink_output_mode: Some(s.decklink_output_mode),
        decklink_format_code: Some(s.decklink_format_code),
        decklink_pixel_format: Some(s.decklink_pixel_format),
        custom_url: Some(s.custom_url),
        stream_key: Some(s.stream_key),
        passphrase: Some(s.passphrase),
        srt_mode: Some(s.srt_mode),
        srt_latency_us: Some(s.srt_latency_us),
        srt_listen_port: Some(s.srt_listen_port),
        streamid_override: Some(s.streamid_override),
        streamid_legacy: Some(s.streamid_legacy),
        current_service_name: Some(s.current_service_name),
        current_server_name: Some(s.current_server_name),
        video_mode: Some(s.video_mode),
        quality_level: Some(s.quality_level),
        video_codec: Some(s.video_codec),
        video_encoder: Some(s.video_encoder),
        encoder_extra_flags: Some(s.encoder_extra_flags),
        audio_mode: Some(s.audio_mode),
        audio_output_mono: Some(s.audio_output_mono),
        audio_pan_l: Some(s.audio_pan_l),
        audio_pan_r: Some(s.audio_pan_r),
        audio_codec: Some(s.audio_codec),
        audio_bitrate_kbps: Some(s.audio_bitrate_kbps),
        audio_sample_rate: Some(s.audio_sample_rate),
        audio_channels: Some(s.audio_channels),
        auto_reconnect: Some(s.auto_reconnect),
        auto_reconnect_max_attempts: Some(s.auto_reconnect_max_attempts),
        meters_enabled: Some(s.meters_enabled),
        omt_output_enabled: Some(s.omt_output_enabled),
        omt_output_name: Some(s.omt_output_name),
    }
}

/// The change that gives back what was kept.
pub open spec fn restoring(p: PersistedModel) -> UpdateModel {
    UpdateModel {
        video_mode: p.video_mode,
        quality_level: p.quality_level,
        source_id: p.source_id,
        custom_url: p.custom_url,
        stream_key: p.stream_key,
        passphrase: p.passphrase,
        srt_mode: p.srt_mode,
        srt_latency_us: p.srt_latency_us,
        srt_listen_port: p.srt_listen_port,
        streamid_override: p.streamid_override,
        streamid_legacy: p.streamid_legacy,
        video_codec: p.video_codec,
        current_service_name: p.current_service_name,
        current_server_name: p.current_server_name,
        ndi_source_name: p.ndi_source_name,
        omt_source_name: p.omt_source_name,
        omt_output_enabled: p.omt_output_enabled,
        omt_output_name: p.omt_output_name,
        av_video_index: p.av_video_index,
        av_video_name: p.av_video_name,
        av_audio_index: p.av_audio_index,
        av_audio_name: p.av_audio_name,
        audio_mode: p.audio_mode,
        audio_output_mono: p.audio_output_mono,
        audio_pan_l: p.audio_pan_l,
        audio_pan_r: p.audio_pan_r,
        pipe_path: p.pipe_path,
        label: p.label,
        relay: None,
        overlay: None,
        destination_type: p.destination_type,
        decklink_device_name: p.decklink_device_name,
        decklink_output_mode: p.decklink_output_mode,
        decklink_format_code: p.decklink_format_code,
        decklink_pixel_format: p.decklink_pixel_format,
        video_encoder: p.video_encoder,
        encoder_extra_flags: p.encoder_extra_flags,
        audio_codec: p.audio_codec,
        audio_bitrate_kbps: p.audio_bitrate_kbps,
        audio_sample_rate: p.audio_sample_rate,
        audio_channels: p.audio_channels,
        auto_reconnect: p.auto_reconnect,
        auto_reconnect_max_attempts: p.auto_reconnect_max_attempts,
        meters_enabled: p.meters_enabled,
    }
}

fn copy_text(s: &Option<String>) -> (r: Option<String>)
    ensures
        opt_text(r) == opt_text(*s),
{
    match s {
        Some(t) => Some(t.clone()),
        None => None,
    }
}

impl PersistedTileState {
    /// What is kept of an encoder.
    pub fn from_encoder(encoder: &EncoderState) -> (r: PersistedTileState)
        ensures
            r@ == persisted(encoder@),
    {
        PersistedTileState {
            version: PERSIST_VERSION,
            label: Some(encoder.label.clone()),
            source_id: Some(encoder.source_id.clone()),
            ndi_source_name: Some(encoder.ndi_source_name.clone()),
            omt_source_name: Some(encoder.omt_source_name.clone()),
            av_video_index: Some(encoder.av_video_index),
            av_video_name: Some(encoder.av_video_name.clone()),
            av_audio_index: Some(encoder.av_audio_index),
            av_audio_name: Some(encoder.av_audio_name.clone()),
            pipe_path: Some(encoder.pipe_path.clone()),
            destination_type: Some(encoder.destination_type.clone()),
            decklink_device_name: Some(encoder.decklink_device_name.clone()),
            decklink_output_mode: Some(encoder.decklink_output_mode.clone()),
            decklink_format_code: Some(encoder.decklink_format_code.clone()),
            decklink_pixel_format: Some(encoder.decklink_pixel_format.clone()),
            custom_url: Some(encoder.custom_url.clone()),
            stream_key: Some(encoder.stream_key.clone()),
            passphrase: Some(encoder.passphrase.clone()),
            srt_mode: Some(encoder.srt_mode.clone()),
            srt_latency_us: Some(encoder.srt_latency_us),
            srt_listen_port: Some(encoder.srt_listen_port),
            streamid_override: Some(encoder.streamid_override.clone()),
            streamid_legacy: Some(encoder.streamid_legacy),
            current_service_name: Some(encoder.current_service_name.clone()),
            current_server_name: Some(encoder.current_server_name.clone()),
            video_mode: Some(encoder.video_mode.clone()),
            quality_level: Some(encoder.quality_level.clone()),
            video_codec: Some(encoder.video_codec.clone()),
            video_encoder: Some(encoder.video_encoder.clone()),
            encoder_extra_flags: Some(encoder.encoder_extra_flags.clone()),
            audio_mode: Some(encoder.audio_mode.clone()),
            audio_output_mono: Some(encoder.audio_output_mono),
            audio_pan_l: Some(encoder.audio_pan_l),
            audio_pan_r: Some(encoder.audio_pan_r),
            audio_codec: Some(encoder.audio_codec.clone()),
            audio_bitrate_kbps: Some(encoder.audio_bitrate_kbps),
            audio_sample_rate: Some(encoder.audio_sample_rate),
            audio_channels: Some(encoder.audio_channels),
            auto_reconnect: Some(encoder.auto_reconnect),
            auto_reconnect_max_attempts: Some(encoder.auto_reconnect_max_attempts),
            meters_enabled: Some(encoder.meters_enabled),
            omt_output_enabled: Some(encoder.omt_output_enabled),
            omt_output_name: Some(encoder.omt_output_name.clone()),
        }
    }

    /// The change that gives back what was kept.
    pub fn to_settings_update(&self) -> (r: SettingsUpdate)
        ensures
            r@ == restoring(self@),
    {
        SettingsUpdate {
            video_mode: copy_text(&self.video_mode),
            quality_level: copy_text(&self.quality_level),
            source_id: copy_text(&self.source_id),
            custom_url: copy_text(&self.custom_url),
            stream_key: copy_text(&self.stream_key),
            passphrase: copy_text(&self.passphrase),
            srt_mode: copy_text(&self.srt_mode),
            srt_latency_us: self.srt_latency_us,
            srt_listen_port: self.srt_listen_port,
            streamid_override: copy_text(&self.streamid_override),
            streamid_legacy: self.streamid_legacy,
            video_codec: copy_text(&self.video_codec),
            current_service_name: copy_text(&self.current_service_name),
            current_server_name: copy_text(&self.current_server_name),
            ndi_source_name: copy_text(&self.ndi_source_name),
            omt_source_name: copy_text(&self.omt_source_name),
            omt_output_enabled: self.omt_output_enabled,
            omt_output_name: copy_text(&self.omt_output_name),
            av_video_index: self.av_video_index,
            av_video_name: copy_text(&self.av_video_name),
            av_audio_index: self.av_audio_index,
            av_audio_name: copy_text(&self.av_audio_name),
            audio_mode: copy_text(&self.audio_mode),
            audio_output_mono: self.audio_output_mono,
            audio_pan_l: self.audio_pan_l,
            audio_pan_r: self.audio_pan_r,
            pipe_path: copy_text(&self.pipe_path),
            label: copy_text(&self.label),
            relay: None,
            overlay: None,
            destination_type: copy_text(&self.destination_type),
            decklink_device_name: copy_text(&self.decklink_device_name),
            decklink_output_mode: copy_text(&self.decklink_output_mode),
            decklink_format_code: copy_text(&self.decklink_format_code),
            decklink_pixel_format: copy_text(&self.decklink_pixel_format),
            video_encoder: copy_text(&self.video_encoder),
            encoder_extra_flags: copy_text(&self.encoder_extra_flags),
            audio_codec: copy_text(&self.audio_codec),
            audio_bitrate_kbps: self.audio_bitrate_kbps,
            audio_sample_rate: self.audio_sample_rate,
            audio_channels: self.audio_channels,
            auto_reconnect: self.auto_reconnect,
            auto_reconnect_max_attempts: self.auto_reconnect_max_attempts,
            meters_enabled: self.meters_enabled,
        }
    }

    /// Gives back what was kept, if it is of this version; says whether it was.
    pub fn restore(&self, encoder: &mut EncoderState) -> (r: bool)
        requires
            old(encoder).valid(),
        ensures
            r == (self.version == PERSIST_VERSION),
            r ==> final(encoder)@ == applied(old(encoder)@, restoring(self@)),
            !r ==> final(encoder)@ == old(encoder)@,
            final(encoder).valid(),
            final(encoder).stats == old(encoder).stats,
    {
        if self.version != PERSIST_VERSION {
            return false;
        }
        let update: SettingsUpdate = self.to_settings_update();
        encoder.apply_settings(&update);
        true
    }
}

/// The name of the file that a tile's settings are kept in.
pub open spec fn tile_file(tile: u8) -> Seq<char> {
    "multiview-tile-"@ + decimal(tile as nat) + ".json"@
}

/// The name of the file that a tile's settings are kept in, in the directory of
/// the instance.
pub fn tile_path(tile_idx: u8) -> (r: String)
    ensures
        r@ == tile_file(tile_idx),
{
    let n: String = show(tile_idx as u64);
    cat3("multiview-tile-", n.as_str(), ".json")
}

/// What was kept of one encoder and given to another is there again, whatever it was:
/// every setting that is kept is the first encoder's. Only a service that the other has
/// not loaded cannot be picked there. What is not kept (the identity, the services, the
/// relay and the overlay) stays the other's.
pub proof fn kept_settings_come_back(s: EncoderModel, t: EncoderModel)
    requires
        settings_valid(s),
    ensures
        ({
            let r = applied(t, restoring(persisted(s)));
            &&& r == EncoderModel {
                current_service_name: if lookup(t.services, s.current_service_name) is Some {
                    s.current_service_name
                } else {
                    t.current_service_name
                },
                model: t.model,
                unique_id: t.unique_id,
                device_uuid: t.device_uuid,
                services: t.services,
                relay_bind_host: t.relay_bind_host,
                relay_srt_port: t.relay_srt_port,
                relay_srt_latency_us: t.relay_srt_latency_us,
                relay_srt_passphrase: t.relay_srt_passphrase,
                relay_rtmp_port: t.relay_rtmp_port,
                relay_rtmp_app: t.relay_rtmp_app,
                relay_rtmp_key: t.relay_rtmp_key,
                overlay_title: t.overlay_title,
                overlay_subtitle: t.overlay_subtitle,
                overlay_logo_path: t.overlay_logo_path,
                overlay_clock: t.overlay_clock,
                ..s
            }
            &&& s.current_service_name == t.current_service_name || lookup(
                t.services,
                s.current_service_name,
            ) is Some ==> persisted(r) == persisted(s)
        }),
{
}

} // verus!
