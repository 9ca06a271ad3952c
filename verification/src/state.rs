//! The state of one encoder: what the operator has set, the loaded services, and
//! the figures of the running stream.
use vstd::prelude::*;
use vstd::string::*;

use crate::services::service_models;
use crate::text::opt_text;
use crate::xml::{ServiceModel, StreamService};

verus! {

// ---------------------------------------------------------------------------
// Types
// ---------------------------------------------------------------------------

/// The figures of the running stream. Times are seconds of one clock; rates that
/// have a fraction are kept in tenths or hundredths.
#[derive(Debug)]
pub struct StreamStats {
    pub status: String,
    pub bitrate: u64,
    pub cache_used_pct: u32,
    pub started_at: Option<u64>,
    pub error: Option<String>,
    pub fps_tenths: u64,
    pub speed_hundredths: u64,
    pub frames_sent: u64,
    pub frames_dropped: u64,
    pub quality_tenths: u64,
    pub reconnect_attempt: u32,
    pub reconnect_next_secs: u32,
    pub total_reconnects_this_session: u32,
    /// The last audio levels, in decibels, as FFmpeg writes them.
    pub audio_db_rms_l: String,
    pub audio_db_rms_r: String,
    pub audio_db_peak_l: String,
    pub audio_db_peak_r: String,
    /// When the levels were last seen.
    pub audio_levels_at: u64,
}

/// What a `StreamStats` holds.
pub struct StatsModel {
    pub status: Seq<char>,
    pub bitrate: u64,
    pub cache_used_pct: u32,
    pub started_at: Option<u64>,
    pub error: Option<Seq<char>>,
    pub fps_tenths: u64,
    pub speed_hundredths: u64,
    pub frames_sent: u64,
    pub frames_dropped: u64,
    pub quality_tenths: u64,
    pub reconnect_attempt: u32,
    pub reconnect_next_secs: u32,
    pub total_reconnects_this_session: u32,
    pub audio_db_rms_l: Seq<char>,
    pub audio_db_rms_r: Seq<char>,
    pub audio_db_peak_l: Seq<char>,
    pub audio_db_peak_r: Seq<char>,
    pub audio_levels_at: u64,
}

impl View for StreamStats {
    type V = StatsModel;

    open spec fn view(&self) -> StatsModel {
        StatsModel {
            status: self.status@,
            bitrate: self.bitrate,
            cache_used_pct: self.cache_used_pct,
            started_at: self.started_at,
            error: opt_text(self.error),
            fps_tenths: self.fps_tenths,
            speed_hundredths: self.speed_hundredths,
            frames_sent: self.frames_sent,
            frames_dropped: self.frames_dropped,
            quality_tenths: self.quality_tenths,
            reconnect_attempt: self.reconnect_attempt,
            reconnect_next_secs: self.reconnect_next_secs,
            total_reconnects_this_session: self.total_reconnects_this_session,
            audio_db_rms_l: self.audio_db_rms_l@,
            audio_db_rms_r: self.audio_db_rms_r@,
            audio_db_peak_l: self.audio_db_peak_l@,
            audio_db_peak_r: self.audio_db_peak_r@,
            audio_levels_at: self.audio_levels_at,
        }
    }
}

/// The state of one encoder.
#[derive(Debug)]
pub struct EncoderState {
    /// The device name control clients and receivers see.
    pub label: String,
    /// The model name the control protocol reports.
    pub model: String,
    /// The identifier the control protocol reports.
    pub unique_id: String,
    /// The identifier sent in stream ids.
    pub device_uuid: String,
    /// The output format, one of `video_modes`.
    pub video_mode: String,
    /// The name of the quality level.
    pub quality_level: String,
    /// The kind of source.
    pub source_id: String,
    /// The capture device for video.
    pub av_video_index: i32,
    /// The capture device for audio.
    pub av_audio_index: i32,
    /// The name of the capture device for video.
    pub av_video_name: String,
    /// The name of the capture device for audio.
    pub av_audio_name: String,
    /// Where the audio comes from: `auto` is the source itself, `custom` the picked
    /// capture device, `silent` mutes it.
    pub audio_mode: String,
    /// Whether the audio is mixed down to one channel.
    pub audio_output_mono: bool,
    /// The channel of a multi-channel device that goes to the left, counted from one.
    pub audio_pan_l: u8,
    /// The channel of a multi-channel device that goes to the right, counted from one.
    pub audio_pan_r: u8,
    /// The path or URL of the pipe source.
    pub pipe_path: String,
    /// The picked NDI sender.
    pub ndi_source_name: String,
    /// The picked OMT sender.
    pub omt_source_name: String,
    /// Whether the raw frames are also published over OMT.
    pub omt_output_enabled: bool,
    /// The name of the published OMT source.
    pub omt_output_name: String,
    /// Where the relay listens.
    pub relay_bind_host: String,
    pub relay_srt_port: u16,
    pub relay_srt_latency_us: u32,
    pub relay_srt_passphrase: String,
    pub relay_rtmp_port: u16,
    pub relay_rtmp_app: String,
    pub relay_rtmp_key: String,
    pub overlay_title: String,
    pub overlay_subtitle: String,
    pub overlay_logo_path: String,
    pub overlay_clock: bool,
    /// The loaded services, in the order of their names.
    pub services: Vec<StreamService>,
    /// The picked service; empty if none is.
    pub current_service_name: String,
    /// The picked server of the service.
    pub current_server_name: String,
    pub stream_key: String,
    pub passphrase: String,
    /// A destination that goes before the service.
    pub custom_url: String,
    /// `caller`, `listener` or `rendezvous`.
    pub srt_mode: String,
    pub srt_latency_us: u32,
    pub srt_listen_port: u16,
    /// A stream id to send as it is; empty to build one.
    pub streamid_override: String,
    /// Whether stream ids take the older form.
    pub streamid_legacy: bool,
    /// `h264` or `h265`.
    pub video_codec: String,
    /// `atem` for a network destination, `decklink` for a local card.
    pub destination_type: String,
    pub decklink_device_name: String,
    /// The output mode as the operator reads it.
    pub decklink_output_mode: String,
    /// The output mode as FFmpeg takes it.
    pub decklink_format_code: String,
    pub decklink_pixel_format: String,
    /// `auto`, or the encoder to use.
    pub video_encoder: String,
    /// More FFmpeg arguments, as the operator typed them.
    pub encoder_extra_flags: String,
    /// `aac`, `aac_he` or `aac_he_v2`.
    pub audio_codec: String,
    /// Zero takes the bitrate of the active configuration.
    pub audio_bitrate_kbps: u32,
    pub audio_sample_rate: u32,
    /// One or two.
    pub audio_channels: u8,
    pub auto_reconnect: bool,
    /// How many attempts in a row before giving up.
    pub auto_reconnect_max_attempts: u32,
    /// Whether audio levels are measured.
    pub meters_enabled: bool,
    pub stats: StreamStats,
}

/// What an encoder's settings and services hold.
pub struct EncoderModel {
    pub label: Seq<char>,
    pub model: Seq<char>,
    pub unique_id: Seq<char>,
    pub device_uuid: Seq<char>,
    pub video_mode: Seq<char>,
    pub quality_level: Seq<char>,
    pub source_id: Seq<char>,
    pub av_video_index: i32,
    pub av_audio_index: i32,
    pub av_video_name: Seq<char>,
    pub av_audio_name: Seq<char>,
    pub audio_mode: Seq<char>,
    pub audio_output_mono: bool,
    pub audio_pan_l: u8,
    pub audio_pan_r: u8,
    pub pipe_path: Seq<char>,
    pub ndi_source_name: Seq<char>,
    pub omt_source_name: Seq<char>,
    pub omt_output_enabled: bool,
    pub omt_output_name: Seq<char>,
    pub relay_bind_host: Seq<char>,
    pub relay_srt_port: u16,
    pub relay_srt_latency_us: u32,
    pub relay_srt_passphrase: Seq<char>,
    pub relay_rtmp_port: u16,
    pub relay_rtmp_app: Seq<char>,
    pub relay_rtmp_key: Seq<char>,
    pub overlay_title: Seq<char>,
    pub overlay_subtitle: Seq<char>,
    pub overlay_logo_path: Seq<char>,
    pub overlay_clock: bool,
    pub services: Seq<ServiceModel>,
    pub current_service_name: Seq<char>,
    pub current_server_name: Seq<char>,
    pub stream_key: Seq<char>,
    pub passphrase: Seq<char>,
    pub custom_url: Seq<char>,
    pub srt_mode: Seq<char>,
    pub srt_latency_us: u32,
    pub srt_listen_port: u16,
    pub streamid_override: Seq<char>,
    pub streamid_legacy: bool,
    pub video_codec: Seq<char>,
    pub destination_type: Seq<char>,
    pub decklink_device_name: Seq<char>,
    pub decklink_output_mode: Seq<char>,
    pub decklink_format_code: Seq<char>,
    pub decklink_pixel_format: Seq<char>,
    pub video_encoder: Seq<char>,
    pub encoder_extra_flags: Seq<char>,
    pub audio_codec: Seq<char>,
    pub audio_bitrate_kbps: u32,
    pub audio_sample_rate: u32,
    pub audio_channels: u8,
    pub auto_reconnect: bool,
    pub auto_reconnect_max_attempts: u32,
    pub meters_enabled: bool,
}

impl View for EncoderState {
    type V = EncoderModel;

    open spec fn view(&self) -> EncoderModel {
        EncoderModel {
            label: self.label@,
            model: self.model@,
            unique_id: self.unique_id@,
            device_uuid: self.device_uuid@,
            video_mode: self.video_mode@,
            quality_level: self.quality_level@,
            source_id: self.source_id@,
            av_video_index: self.av_video_index,
            av_audio_index: self.av_audio_index,
            av_video_name: self.av_video_name@,
            av_audio_name: self.av_audio_name@,
            audio_mode: self.audio_mode@,
            audio_output_mono: self.audio_output_mono,
            audio_pan_l: self.audio_pan_l,
            audio_pan_r: self.audio_pan_r,
            pipe_path: self.pipe_path@,
            ndi_source_name: self.ndi_source_name@,
            omt_source_name: self.omt_source_name@,
            omt_output_enabled: self.omt_output_enabled,
            omt_output_name: self.omt_output_name@,
            relay_bind_host: self.relay_bind_host@,
            relay_srt_port: self.relay_srt_port,
            relay_srt_latency_us: self.relay_srt_latency_us,
            relay_srt_passphrase: self.relay_srt_passphrase@,
            relay_rtmp_port: self.relay_rtmp_port,
            relay_rtmp_app: self.relay_rtmp_app@,
            relay_rtmp_key: self.relay_rtmp_key@,
            overlay_title: self.overlay_title@,
            overlay_subtitle: self.overlay_subtitle@,
            overlay_logo_path: self.overlay_logo_path@,
            overlay_clock: self.overlay_clock,
            services: service_models(self.services@),
            current_service_name: self.current_service_name@,
            current_server_name: self.current_server_name@,
            stream_key: self.stream_key@,
            passphrase: self.passphrase@,
            custom_url: self.custom_url@,
            srt_mode: self.srt_mode@,
            srt_latency_us: self.srt_latency_us,
            srt_listen_port: self.srt_listen_port,
            streamid_override: self.streamid_override@,
            streamid_legacy: self.streamid_legacy,
            video_codec: self.video_codec@,
            destination_type: self.destination_type@,
            decklink_device_name: self.decklink_device_name@,
            decklink_output_mode: self.decklink_output_mode@,
            decklink_format_code: self.decklink_format_code@,
            decklink_pixel_format: self.decklink_pixel_format@,
            video_encoder: self.video_encoder@,
            encoder_extra_flags: self.encoder_extra_flags@,
            audio_codec: self.audio_codec@,
            audio_bitrate_kbps: self.audio_bitrate_kbps,
            audio_sample_rate: self.audio_sample_rate,
            audio_channels: self.audio_channels,
            auto_reconnect: self.auto_reconnect,
            auto_reconnect_max_attempts: self.auto_reconnect_max_attempts,
            meters_enabled: self.meters_enabled,
        }
    }
}

/// A change to the relay; `None` leaves a value as it is.
#[derive(Debug)]
pub struct RelaySettingsUpdate {
    pub bind_host: Option<String>,
    pub srt_port: Option<u16>,
    pub srt_latency_us: Option<u32>,
    pub srt_passphrase: Option<String>,
    pub rtmp_port: Option<u16>,
    pub rtmp_app: Option<String>,
    pub rtmp_key: Option<String>,
}

/// What a `RelaySettingsUpdate` holds.
pub struct RelayUpdateModel {
    pub bind_host: Option<Seq<char>>,
    pub srt_port: Option<u16>,
    pub srt_latency_us: Option<u32>,
    pub srt_passphrase: Option<Seq<char>>,
    pub rtmp_port: Option<u16>,
    pub rtmp_app: Option<Seq<char>>,
    pub rtmp_key: Option<Seq<char>>,
}

impl View for RelaySettingsUpdate {
    type V = RelayUpdateModel;

    open spec fn view(&self) -> RelayUpdateModel {
        RelayUpdateModel {
            bind_host: opt_text(self.bind_host),
            srt_port: self.srt_port,
            srt_latency_us: self.srt_latency_us,
            srt_passphrase: opt_text(self.srt_passphrase),
            rtmp_port: self.rtmp_port,
            rtmp_app: opt_text(self.rtmp_app),
            rtmp_key: opt_text(self.rtmp_key),
        }
    }
}

/// A change to the overlay; `None` leaves a value as it is.
#[derive(Debug)]
pub struct OverlaySettingsUpdate {
    pub title: Option<String>,
    pub subtitle: Option<String>,
    pub logo_path: Option<String>,
    pub clock: Option<bool>,
}

/// What an `OverlaySettingsUpdate` holds.
pub struct OverlayUpdateModel {
    pub title: Option<Seq<char>>,
    pub subtitle: Option<Seq<char>>,
    pub logo_path: Option<Seq<char>>,
    pub clock: Option<bool>,
}

impl View for OverlaySettingsUpdate {
    type V = OverlayUpdateModel;

    open spec fn view(&self) -> OverlayUpdateModel {
        OverlayUpdateModel {
            title: opt_text(self.title),
            subtitle: opt_text(self.subtitle),
            logo_path: opt_text(self.logo_path),
            clock: self.clock,
        }
    }
}

/// A change to the settings; `None` leaves a value as it is.
#[derive(Debug)]
pub struct SettingsUpdate {
    pub video_mode: Option<String>,
    pub quality_level: Option<String>,
    pub source_id: Option<String>,
    pub custom_url: Option<String>,
    pub stream_key: Option<String>,
    pub passphrase: Option<String>,
    pub srt_mode: Option<String>,
    pub srt_latency_us: Option<u32>,
    pub srt_listen_port: Option<u16>,
    pub streamid_override: Option<String>,
    pub streamid_legacy: Option<bool>,
    pub video_codec: Option<String>,
    pub current_service_name: Option<String>,
    pub current_server_name: Option<String>,
    pub ndi_source_name: Option<String>,
    pub omt_source_name: Option<String>,
    pub omt_output_enabled: Option<bool>,
    pub omt_output_name: Option<String>,
    pub av_video_index: Option<i32>,
    pub av_video_name: Option<String>,
    pub av_audio_index: Option<i32>,
    pub av_audio_name: Option<String>,
    pub audio_mode: Option<String>,
    pub audio_output_mono: Option<bool>,
    pub audio_pan_l: Option<u8>,
    pub audio_pan_r: Option<u8>,
    pub pipe_path: Option<String>,
    pub label: Option<String>,
    pub relay: Option<RelaySettingsUpdate>,
    pub overlay: Option<OverlaySettingsUpdate>,
    pub destination_type: Option<String>,
    pub decklink_device_name: Option<String>,
    pub decklink_output_mode: Option<String>,
    pub decklink_format_code: Option<String>,
    pub decklink_pixel_format: Option<String>,
    pub video_encoder: Option<String>,
    pub encoder_extra_flags: Option<String>,
    pub audio_codec: Option<String>,
    pub audio_bitrate_kbps: Option<u32>,
    pub audio_sample_rate: Option<u32>,
    pub audio_channels: Option<u8>,
    pub auto_reconnect: Option<bool>,
    pub auto_reconnect_max_attempts: Option<u32>,
    pub meters_enabled: Option<bool>,
}

/// What a `SettingsUpdate` holds.
pub struct UpdateModel {
    pub video_mode: Option<Seq<char>>,
    pub quality_level: Option<Seq<char>>,
    pub source_id: Option<Seq<char>>,
    pub custom_url: Option<Seq<char>>,
    pub stream_key: Option<Seq<char>>,
    pub passphrase: Option<Seq<char>>,
    pub srt_mode: Option<Seq<char>>,
    pub srt_latency_us: Option<u32>,
    pub srt_listen_port: Option<u16>,
    pub streamid_override: Option<Seq<char>>,
    pub streamid_legacy: Option<bool>,
    pub video_codec: Option<Seq<char>>,
    pub current_service_name: Option<Seq<char>>,
    pub current_server_name: Option<Seq<char>>,
    pub ndi_source_name: Option<Seq<char>>,
    pub omt_source_name: Option<Seq<char>>,
    pub omt_output_enabled: Option<bool>,
    pub omt_output_name: Option<Seq<char>>,
    pub av_video_index: Option<i32>,
    pub av_video_name: Option<Seq<char>>,
    pub av_audio_index: Option<i32>,
    pub av_audio_name: Option<Seq<char>>,
    pub audio_mode: Option<Seq<char>>,
    pub audio_output_mono: Option<bool>,
    pub audio_pan_l: Option<u8>,
    pub audio_pan_r: Option<u8>,
    pub pipe_path: Option<Seq<char>>,
    pub label: Option<Seq<char>>,
    pub relay: Option<RelayUpdateModel>,
    pub overlay: Option<OverlayUpdateModel>,
    pub destination_type: Option<Seq<char>>,
    pub decklink_device_name: Option<Seq<char>>,
    pub decklink_output_mode: Option<Seq<char>>,
    pub decklink_format_code: Option<Seq<char>>,
    pub decklink_pixel_format: Option<Seq<char>>,
    pub video_encoder: Option<Seq<char>>,
    pub encoder_extra_flags: Option<Seq<char>>,
    pub audio_codec: Option<Seq<char>>,
    pub audio_bitrate_kbps: Option<u32>,
    pub audio_sample_rate: Option<u32>,
    pub audio_channels: Option<u8>,
    pub auto_reconnect: Option<bool>,
    pub auto_reconnect_max_attempts: Option<u32>,
    pub meters_enabled: Option<bool>,
}

impl View for SettingsUpdate {
    type V = UpdateModel;

    open spec fn view(&self) -> UpdateModel {
        UpdateModel {
            video_mode: opt_text(self.video_mode),
            quality_level: opt_text(self.quality_level),
            source_id: opt_text(self.source_id),
            custom_url: opt_text(self.custom_url),
            stream_key: opt_text(self.stream_key),
            passphrase: opt_text(self.passphrase),
            srt_mode: opt_text(self.srt_mode),
            srt_latency_us: self.srt_latency_us,
            srt_listen_port: self.srt_listen_port,
            streamid_override: opt_text(self.streamid_override),
            streamid_legacy: self.streamid_legacy,
            video_codec: opt_text(self.video_codec),
            current_service_name: opt_text(self.current_service_name),
            current_server_name: opt_text(self.current_server_name),
            ndi_source_name: opt_text(self.ndi_source_name),
            omt_source_name: opt_text(self.omt_source_name),
            omt_output_enabled: self.omt_output_enabled,
            omt_output_name: opt_text(self.omt_output_name),
            av_video_index: self.av_video_index,
            av_video_name: opt_text(self.av_video_name),
            av_audio_index: self.av_audio_index,
            av_audio_name: opt_text(self.av_audio_name),
            audio_mode: opt_text(self.audio_mode),
            audio_output_mono: self.audio_output_mono,
            audio_pan_l: self.audio_pan_l,
            audio_pan_r: self.audio_pan_r,
            pipe_path: opt_text(self.pipe_path),
            label: opt_text(self.label),
            relay: match self.relay {
                Some(x) => Some(x@),
                None => None,
            },
            overlay: match self.overlay {
                Some(x) => Some(x@),
                None => None,
            },
            destination_type: opt_text(self.destination_type),
            decklink_device_name: opt_text(self.decklink_device_name),
            decklink_output_mode: opt_text(self.decklink_output_mode),
            decklink_format_code: opt_text(self.decklink_format_code),
            decklink_pixel_format: opt_text(self.decklink_pixel_format),
            video_encoder: opt_text(self.video_encoder),
            encoder_extra_flags: opt_text(self.encoder_extra_flags),
            audio_codec: opt_text(self.audio_codec),
            audio_bitrate_kbps: self.audio_bitrate_kbps,
            audio_sample_rate: self.audio_sample_rate,
            audio_channels: self.audio_channels,
            auto_reconnect: self.auto_reconnect,
            auto_reconnect_max_attempts: self.auto_reconnect_max_attempts,
            meters_enabled: self.meters_enabled,
        }
    }
}

/// The change that changes nothing.
pub open spec fn no_update() -> UpdateModel {
    UpdateModel {
        video_mode: None,
        quality_level: None,
        source_id: None,
        custom_url: None,
        stream_key: None,
        passphrase: None,
        srt_mode: None,
        srt_latency_us: None,
        srt_listen_port: None,
        streamid_override: None,
        streamid_legacy: None,
        video_codec: None,
        current_service_name: None,
        current_server_name: None,
        ndi_source_name: None,
        omt_source_name: None,
        omt_output_enabled: None,
        omt_output_name: None,
        av_video_index: None,
        av_video_name: None,
        av_audio_index: None,
        av_audio_name: None,
        audio_mode: None,
        audio_output_mono: None,
        audio_pan_l: None,
        audio_pan_r: None,
        pipe_path: None,
        label: None,
        relay: None,
        overlay: None,
        destination_type: None,
        decklink_device_name: None,
        decklink_output_mode: None,
        decklink_format_code: None,
        decklink_pixel_format: None,
        video_encoder: None,
        encoder_extra_flags: None,
        audio_codec: None,
        audio_bitrate_kbps: None,
        audio_sample_rate: None,
        audio_channels: None,
        auto_reconnect: None,
        auto_reconnect_max_attempts: None,
        meters_enabled: None,
    }
}

impl Default for RelaySettingsUpdate {
    fn default() -> (r: Self)
        ensures
            r.bind_host is None,
            r.srt_port is None,
            r.srt_latency_us is None,
            r.srt_passphrase is None,
            r.rtmp_port is None,
            r.rtmp_app is None,
            r.rtmp_key is None,
    {
        RelaySettingsUpdate {
            bind_host: None,
            srt_port: None,
            srt_latency_us: None,
            srt_passphrase: None,
            rtmp_port: None,
            rtmp_app: None,
            rtmp_key: None,
        }
    }
}

impl Default for OverlaySettingsUpdate {
    fn default() -> (r: Self)
        ensures
            r.title is None,
            r.subtitle is None,
            r.logo_path is None,
            r.clock is None,
    {
        OverlaySettingsUpdate {
            title: None,
            subtitle: None,
            logo_path: None,
            clock: None,
        }
    }
}

impl Default for SettingsUpdate {
    fn default() -> (r: Self)
        ensures
            r@ == no_update(),
    {
        SettingsUpdate {
            video_mode: None,
            quality_level: None,
            source_id: None,
            custom_url: None,
            stream_key: None,
            passphrase: None,
            srt_mode: None,
            srt_latency_us: None,
            srt_listen_port: None,
            streamid_override: None,
            streamid_legacy: None,
            video_codec: None,
            current_service_name: None,
            current_server_name: None,
            ndi_source_name: None,
            omt_source_name: None,
            omt_output_enabled: None,
            omt_output_name: None,
            av_video_index: None,
            av_video_name: None,
            av_audio_index: None,
            av_audio_name: None,
            audio_mode: None,
            audio_output_mono: None,
            audio_pan_l: None,
            audio_pan_r: None,
            pipe_path: None,
            label: None,
            relay: None,
            overlay: None,
            destination_type: None,
            decklink_device_name: None,
            decklink_output_mode: None,
            decklink_format_code: None,
            decklink_pixel_format: None,
            video_encoder: None,
            encoder_extra_flags: None,
            audio_codec: None,
            audio_bitrate_kbps: None,
            audio_sample_rate: None,
            audio_channels: None,
            auto_reconnect: None,
            auto_reconnect_max_attempts: None,
            meters_enabled: None,
        }
    }
}
} // verus!
