//! What a change of the settings does: each value that it holds goes to the setting of its
//! name, within the bounds of that setting, and to no other.
use vstd::prelude::*;

use crate::encoder::known_encoders;
use crate::loading::initial;
use crate::scan::{is_blank, trimmed};
use crate::services::lookup;
use crate::settings::{applied, video_encoders, video_modes};
use crate::state::{EncoderModel, UpdateModel};
use crate::streamid::{upper_char, without_hyphens_upper};

verus! {

/// `new` is the value of a change, or the old one if the change holds none.
pub open spec fn is_set<T>(new: T, change: Option<T>, old_value: T) -> bool {
    (change matches Some(v) ==> new == v) && (change is None ==> new == old_value)
}

/// `new` is the value of a change if it is one that the setting can have, or else the old one.
pub open spec fn is_set_if<T>(new: T, change: Option<T>, possible: bool, old_value: T) -> bool {
    is_set(
        new,
        if possible {
            change
        } else {
            None
        },
        old_value,
    )
}

/// Each value that can be anything goes to the setting of its name.
pub proof fn values_go_to_their_settings(s: EncoderModel, u: UpdateModel)
    ensures
        ({
            let r = applied(s, u);
            &&& is_set(r.quality_level, u.quality_level, s.quality_level)
            &&& is_set(r.source_id, u.source_id, s.source_id)
            &&& is_set(r.custom_url, u.custom_url, s.custom_url)
            &&& is_set(r.passphrase, u.passphrase, s.passphrase)
            &&& is_set(r.srt_latency_us, u.srt_latency_us, s.srt_latency_us)
            &&& is_set(r.srt_listen_port, u.srt_listen_port, s.srt_listen_port)
            &&& is_set(r.streamid_override, u.streamid_override, s.streamid_override)
            &&& is_set(r.streamid_legacy, u.streamid_legacy, s.streamid_legacy)
            &&& is_set(r.current_server_name, u.current_server_name, s.current_server_name)
            &&& is_set(r.ndi_source_name, u.ndi_source_name, s.ndi_source_name)
            &&& is_set(r.omt_source_name, u.omt_source_name, s.omt_source_name)
            &&& is_set(r.omt_output_enabled, u.omt_output_enabled, s.omt_output_enabled)
            &&& is_set(r.av_video_index, u.av_video_index, s.av_video_index)
            &&& is_set(r.av_video_name, u.av_video_name, s.av_video_name)
            &&& is_set(r.av_audio_index, u.av_audio_index, s.av_audio_index)
            &&& is_set(r.av_audio_name, u.av_audio_name, s.av_audio_name)
            &&& is_set(r.pipe_path, u.pipe_path, s.pipe_path)
            &&& is_set(r.label, u.label, s.label)
            &&& is_set(r.decklink_device_name, u.decklink_device_name, s.decklink_device_name)
            &&& is_set(r.decklink_output_mode, u.decklink_output_mode, s.decklink_output_mode)
            &&& is_set(r.decklink_format_code, u.decklink_format_code, s.decklink_format_code)
            &&& is_set(r.auto_reconnect, u.auto_reconnect, s.auto_reconnect)
            &&& is_set(r.meters_enabled, u.meters_enabled, s.meters_enabled)
        }),
{
}

/// Each value of the relay goes to the setting of its name.
pub proof fn relay_values_go_to_their_settings(s: EncoderModel, u: UpdateModel)
    ensures
        ({
            let r = applied(s, u);
            let same = r.relay_bind_host == s.relay_bind_host && r.relay_srt_port
                == s.relay_srt_port && r.relay_srt_latency_us == s.relay_srt_latency_us
                && r.relay_srt_passphrase == s.relay_srt_passphrase && r.relay_rtmp_port
                == s.relay_rtmp_port && r.relay_rtmp_app == s.relay_rtmp_app && r.relay_rtmp_key
                == s.relay_rtmp_key;
            &&& u.relay is None ==> same
            &&& u.relay matches Some(v) ==> {
                &&& is_set(r.relay_bind_host, v.bind_host, s.relay_bind_host)
                &&& is_set(r.relay_srt_port, v.srt_port, s.relay_srt_port)
                &&& is_set(r.relay_srt_latency_us, v.srt_latency_us, s.relay_srt_latency_us)
                &&& is_set(r.relay_srt_passphrase, v.srt_passphrase, s.relay_srt_passphrase)
                &&& is_set(r.relay_rtmp_port, v.rtmp_port, s.relay_rtmp_port)
                &&& is_set(r.relay_rtmp_app, v.rtmp_app, s.relay_rtmp_app)
                &&& is_set(r.relay_rtmp_key, v.rtmp_key, s.relay_rtmp_key)
            }
        }),
{
}

/// Each value of the overlay goes to the setting of its name.
pub proof fn overlay_values_go_to_their_settings(s: EncoderModel, u: UpdateModel)
    ensures
        ({
            let r = applied(s, u);
            &&& u.overlay is None ==> r.overlay_title == s.overlay_title && r.overlay_subtitle
                == s.overlay_subtitle && r.overlay_logo_path == s.overlay_logo_path
                && r.overlay_clock == s.overlay_clock
            &&& u.overlay matches Some(v) ==> {
                &&& is_set(r.overlay_title, v.title, s.overlay_title)
                &&& is_set(r.overlay_subtitle, v.subtitle, s.overlay_subtitle)
                &&& is_set(r.overlay_logo_path, v.logo_path, s.overlay_logo_path)
                &&& is_set(r.overlay_clock, v.clock, s.overlay_clock)
            }
        }),
{
}

/// Each value that must be one of a few goes to the setting of its name if it is one of them.
#[verifier::rlimit(60)]
pub proof fn known_values_go_to_their_settings(s: EncoderModel, u: UpdateModel)
    ensures
        ({
            let r = applied(s, u);
            let mode = u.video_mode->0;
            let line = u.srt_mode->0;
            let codec = u.video_codec->0;
            let audio = u.audio_mode->0;
            let kind = u.destination_type->0;
            let encoder = u.video_encoder->0;
            let sound = u.audio_codec->0;
            let rate = u.audio_sample_rate->0;
            let channels = u.audio_channels->0;
            &&& is_set_if(r.video_mode, u.video_mode, video_modes().contains(mode), s.video_mode)
            &&& is_set_if(
                r.srt_mode,
                u.srt_mode,
                line == "caller"@ || line == "listener"@ || line == "rendezvous"@,
                s.srt_mode,
            )
            &&& is_set_if(
                r.video_codec,
                u.video_codec,
                codec == "h264"@ || codec == "h265"@,
                s.video_codec,
            )
            &&& is_set_if(
                r.audio_mode,
                u.audio_mode,
                audio == "auto"@ || audio == "custom"@ || audio == "silent"@,
                s.audio_mode,
            )
            &&& is_set_if(
                r.destination_type,
                u.destination_type,
                kind == "atem"@ || kind == "decklink"@,
                s.destination_type,
            )
            &&& is_set_if(
                r.video_encoder,
                u.video_encoder,
                encoder == "auto"@ || known_encoders().contains(encoder),
                s.video_encoder,
            )
            &&& is_set_if(
                r.audio_codec,
                u.audio_codec,
                sound == "aac"@ || sound == "aac_he"@ || sound == "aac_he_v2"@,
                s.audio_codec,
            )
            &&& is_set_if(
                r.audio_sample_rate,
                u.audio_sample_rate,
                rate == 44100 || rate == 48000,
                s.audio_sample_rate,
            )
            &&& is_set_if(
                r.audio_channels,
                u.audio_channels,
                channels == 1 || channels == 2,
                s.audio_channels,
            )
            &&& is_set_if(
                r.omt_output_name,
                u.omt_output_name,
                !is_blank(u.omt_output_name->0),
                s.omt_output_name,
            )
            &&& is_set_if(
                r.decklink_pixel_format,
                u.decklink_pixel_format,
                !is_blank(u.decklink_pixel_format->0),
                s.decklink_pixel_format,
            )
        }),
{
    if let Some(n) = u.srt_mode {
        let v = seq!["caller"@, "listener"@, "rendezvous"@];
        assert(v[0] == "caller"@ && v[1] == "listener"@ && v[2] == "rendezvous"@);
        assert(v.contains(n) <==> n == v[0] || n == v[1] || n == v[2]);
    }
    if let Some(n) = u.video_codec {
        let v = seq!["h264"@, "h265"@];
        assert(v[0] == "h264"@ && v[1] == "h265"@);
        assert(v.contains(n) <==> n == v[0] || n == v[1]);
    }
    if let Some(n) = u.audio_mode {
        let v = seq!["auto"@, "custom"@, "silent"@];
        assert(v[0] == "auto"@ && v[1] == "custom"@ && v[2] == "silent"@);
        assert(v.contains(n) <==> n == v[0] || n == v[1] || n == v[2]);
    }
    if let Some(n) = u.destination_type {
        let v = seq!["atem"@, "decklink"@];
        assert(v[0] == "atem"@ && v[1] == "decklink"@);
        assert(v.contains(n) <==> n == v[0] || n == v[1]);
    }
    if let Some(n) = u.audio_codec {
        let v = seq!["aac"@, "aac_he"@, "aac_he_v2"@];
        assert(v[0] == "aac"@ && v[1] == "aac_he"@ && v[2] == "aac_he_v2"@);
        assert(v.contains(n) <==> n == v[0] || n == v[1] || n == v[2]);
    }
    if let Some(n) = u.video_encoder {
        encoders_can_be_picked(n);
    }
}

/// An operator can pick each known encoder, or leave the choice open.
pub proof fn encoders_can_be_picked(n: Seq<char>)
    ensures
        video_encoders().contains(n) <==> n == "auto"@ || known_encoders().contains(n),
{
    let v = video_encoders();
    let k = known_encoders();
    assert(v =~= seq!["auto"@] + k);
    assert(v[0] == "auto"@);
    if k.contains(n) {
        let i = choose|i: int| 0 <= i < k.len() && k[i] == n;
        assert(v[i + 1] == n);
    }
}

/// Every number of lines has its rates: the two larger all eight, the smallest four.
pub proof fn modes_can_be_picked()
    ensures
        video_modes().len() == 21,
        video_modes().contains("Auto"@),
        video_modes().contains("2160p"@ + "23.98"@),
        video_modes().contains("2160p"@ + "24"@),
        video_modes().contains("2160p"@ + "25"@),
        video_modes().contains("2160p"@ + "29.97"@),
        video_modes().contains("2160p"@ + "30"@),
        video_modes().contains("2160p"@ + "50"@),
        video_modes().contains("2160p"@ + "59.94"@),
        video_modes().contains("2160p"@ + "60"@),
        video_modes().contains("1080p"@ + "23.98"@),
        video_modes().contains("1080p"@ + "24"@),
        video_modes().contains("1080p"@ + "25"@),
        video_modes().contains("1080p"@ + "29.97"@),
        video_modes().contains("1080p"@ + "30"@),
        video_modes().contains("1080p"@ + "50"@),
        video_modes().contains("1080p"@ + "59.94"@),
        video_modes().contains("1080p"@ + "60"@),
        video_modes().contains("720p"@ + "25"@),
        video_modes().contains("720p"@ + "30"@),
        video_modes().contains("720p"@ + "50"@),
        video_modes().contains("720p"@ + "60"@),
{
    let v = video_modes();
    reveal_strlit("2160p");
    reveal_strlit("1080p");
    reveal_strlit("720p");
    reveal_strlit("23.98");
    reveal_strlit("24");
    reveal_strlit("25");
    reveal_strlit("29.97");
    reveal_strlit("30");
    reveal_strlit("50");
    reveal_strlit("59.94");
    reveal_strlit("60");
    reveal_strlit("2160p23.98");
    reveal_strlit("2160p24");
    reveal_strlit("2160p25");
    reveal_strlit("2160p29.97");
    reveal_strlit("2160p30");
    reveal_strlit("2160p50");
    reveal_strlit("2160p59.94");
    reveal_strlit("2160p60");
    reveal_strlit("1080p23.98");
    reveal_strlit("1080p24");
    reveal_strlit("1080p25");
    reveal_strlit("1080p29.97");
    reveal_strlit("1080p30");
    reveal_strlit("1080p50");
    reveal_strlit("1080p59.94");
    reveal_strlit("1080p60");
    reveal_strlit("720p25");
    reveal_strlit("720p30");
    reveal_strlit("720p50");
    reveal_strlit("720p60");
    assert(v[0] == "Auto"@);
    assert(v[1] == "2160p23.98"@);
    assert("2160p"@ + "23.98"@ =~= "2160p23.98"@);
    assert(v[2] == "2160p24"@);
    assert("2160p"@ + "24"@ =~= "2160p24"@);
    assert(v[3] == "2160p25"@);
    assert("2160p"@ + "25"@ =~= "2160p25"@);
    assert(v[4] == "2160p29.97"@);
    assert("2160p"@ + "29.97"@ =~= "2160p29.97"@);
    assert(v[5] == "2160p30"@);
    assert("2160p"@ + "30"@ =~= "2160p30"@);
    assert(v[6] == "2160p50"@);
    assert("2160p"@ + "50"@ =~= "2160p50"@);
    assert(v[7] == "2160p59.94"@);
    assert("2160p"@ + "59.94"@ =~= "2160p59.94"@);
    assert(v[8] == "2160p60"@);
    assert("2160p"@ + "60"@ =~= "2160p60"@);
    assert(v[9] == "1080p23.98"@);
    assert("1080p"@ + "23.98"@ =~= "1080p23.98"@);
    assert(v[10] == "1080p24"@);
    assert("1080p"@ + "24"@ =~= "1080p24"@);
    assert(v[11] == "1080p25"@);
    assert("1080p"@ + "25"@ =~= "1080p25"@);
    assert(v[12] == "1080p29.97"@);
    assert("1080p"@ + "29.97"@ =~= "1080p29.97"@);
    assert(v[13] == "1080p30"@);
    assert("1080p"@ + "30"@ =~= "1080p30"@);
    assert(v[14] == "1080p50"@);
    assert("1080p"@ + "50"@ =~= "1080p50"@);
    assert(v[15] == "1080p59.94"@);
    assert("1080p"@ + "59.94"@ =~= "1080p59.94"@);
    assert(v[16] == "1080p60"@);
    assert("1080p"@ + "60"@ =~= "1080p60"@);
    assert(v[17] == "720p25"@);
    assert("720p"@ + "25"@ =~= "720p25"@);
    assert(v[18] == "720p30"@);
    assert("720p"@ + "30"@ =~= "720p30"@);
    assert(v[19] == "720p50"@);
    assert("720p"@ + "50"@ =~= "720p50"@);
    assert(v[20] == "720p60"@);
    assert("720p"@ + "60"@ =~= "720p60"@);
}

/// Picking a loaded service takes its key along; picking one that is not loaded does nothing.
/// A key that the change gives itself goes before that of the service.
pub proof fn services_bring_their_key(s: EncoderModel, u: UpdateModel)
    ensures
        ({
            let r = applied(s, u);
            &&& u.stream_key matches Some(k) ==> r.stream_key == k
            &&& u.current_service_name is None ==> r.current_service_name == s.current_service_name
                && (u.stream_key is None ==> r.stream_key == s.stream_key)
            &&& u.current_service_name matches Some(n) ==> match lookup(s.services, n) {
                Some(svc) => r.current_service_name == n && (u.stream_key is None ==> r.stream_key
                    == svc.key),
                None => r.current_service_name == s.current_service_name && (u.stream_key is None
                    ==> r.stream_key == s.stream_key),
            }
        }),
{
}

/// Numbers that are too small or too large are brought to the nearest that the setting can
/// have; flags are freed of the blanks around them.
pub proof fn values_are_brought_within_bounds(s: EncoderModel, u: UpdateModel)
    ensures
        ({
            let r = applied(s, u);
            &&& u.audio_bitrate_kbps matches Some(v) ==> {
                &&& r.audio_bitrate_kbps == 0 <==> v == 0
                &&& v > 0 ==> 32 <= r.audio_bitrate_kbps <= 320
                &&& 32 <= v <= 320 ==> r.audio_bitrate_kbps == v
                &&& 0 < v < 32 ==> r.audio_bitrate_kbps == 32
                &&& v > 320 ==> r.audio_bitrate_kbps == 320
            }
            &&& u.audio_bitrate_kbps is None ==> r.audio_bitrate_kbps == s.audio_bitrate_kbps
            &&& u.auto_reconnect_max_attempts matches Some(v) ==> {
                &&& r.auto_reconnect_max_attempts <= 100
                &&& v <= 100 ==> r.auto_reconnect_max_attempts == v
                &&& v > 100 ==> r.auto_reconnect_max_attempts == 100
            }
            &&& u.auto_reconnect_max_attempts is None ==> r.auto_reconnect_max_attempts
                == s.auto_reconnect_max_attempts
            &&& u.audio_pan_l matches Some(v) ==> r.audio_pan_l >= 1 && (v >= 1 ==> r.audio_pan_l
                == v) && (v == 0 ==> r.audio_pan_l == 1)
            &&& u.audio_pan_l is None ==> r.audio_pan_l == s.audio_pan_l
            &&& u.audio_pan_r matches Some(v) ==> r.audio_pan_r >= 1 && (v >= 1 ==> r.audio_pan_r
                == v) && (v == 0 ==> r.audio_pan_r == 1)
            &&& u.audio_pan_r is None ==> r.audio_pan_r == s.audio_pan_r
            &&& is_set(
                r.encoder_extra_flags,
                match u.encoder_extra_flags {
                    Some(v) => Some(trimmed(v)),
                    None => None,
                },
                s.encoder_extra_flags,
            )
        }),
{
}

/// One channel means mono and two mean stereo, unless the change says otherwise.
pub proof fn channels_tell_mono(s: EncoderModel, u: UpdateModel)
    ensures
        ({
            let r = applied(s, u);
            &&& u.audio_output_mono matches Some(m) ==> r.audio_output_mono == m
            &&& u.audio_output_mono is None && u.audio_channels == Some(1u8) ==> r.audio_output_mono
            &&& u.audio_output_mono is None && u.audio_channels == Some(2u8)
                ==> !r.audio_output_mono
            &&& u.audio_output_mono is None && u.audio_channels != Some(1u8) && u.audio_channels
                != Some(2u8) ==> r.audio_output_mono == s.audio_output_mono
        }),
{
}

/// A new encoder has the device that it is given, and otherwise the settings that every new
/// encoder has: it calls the switcher over SRT, in H.265, with the test picture.
pub proof fn new_encoders_are_alike(unique: Seq<char>, device: Seq<char>)
    ensures
        ({
            let s = initial(unique, device);
            &&& s.device_uuid == device
            &&& s.label == "Blackmagic Streaming Encoder Emulator"@
            &&& s.model == "Blackmagic Streaming Encoder HD"@
            &&& s.video_mode == "1080p29.97"@
            &&& s.quality_level == "Streaming High"@
            &&& s.source_id == "test_pattern"@
            &&& s.av_video_index == 0
            &&& s.av_audio_index == -1
            &&& s.av_video_name.len() == 0
            &&& s.av_audio_name.len() == 0
            &&& s.audio_mode == "auto"@
            &&& !s.audio_output_mono
            &&& s.audio_pan_l == 1
            &&& s.audio_pan_r == 2
            &&& s.pipe_path.len() == 0
            &&& s.ndi_source_name.len() == 0
            &&& s.omt_source_name.len() == 0
            &&& !s.omt_output_enabled
            &&& s.omt_output_name == "ATEM Patchbay"@
            &&& s.relay_bind_host == "0.0.0.0"@
            &&& s.relay_srt_port == 9710
            &&& s.relay_srt_latency_us == 200_000
            &&& s.relay_srt_passphrase.len() == 0
            &&& s.relay_rtmp_port == 1935
            &&& s.relay_rtmp_app == "live"@
            &&& s.relay_rtmp_key == "stream"@
            &&& s.overlay_title.len() == 0
            &&& s.overlay_subtitle.len() == 0
            &&& s.overlay_logo_path.len() == 0
            &&& !s.overlay_clock
            &&& s.services.len() == 0
            &&& s.current_service_name.len() == 0
            &&& s.current_server_name == "SRT"@
            &&& s.stream_key.len() == 0
            &&& s.passphrase.len() == 0
            &&& s.custom_url.len() == 0
            &&& s.srt_mode == "caller"@
            &&& s.srt_latency_us == 200_000
            &&& s.srt_listen_port == 9710
            &&& s.streamid_override.len() == 0
            &&& !s.streamid_legacy
            &&& s.video_codec == "h265"@
            &&& s.destination_type == "atem"@
            &&& s.decklink_device_name.len() == 0
            &&& s.decklink_output_mode.len() == 0
            &&& s.decklink_format_code.len() == 0
            &&& s.decklink_pixel_format == "uyvy422"@
            &&& s.video_encoder == "auto"@
            &&& s.encoder_extra_flags.len() == 0
            &&& s.audio_codec == "aac"@
            &&& s.audio_bitrate_kbps == 0
            &&& s.audio_sample_rate == 48000
            &&& s.audio_channels == 2
            &&& s.auto_reconnect
            &&& s.auto_reconnect_max_attempts == 12
            &&& s.meters_enabled
        }),
{
}

/// A character that an identifier can have: no hyphen, and no small letter.
pub open spec fn is_in_capitals(c: char) -> bool {
    c != '-' && !('a' <= c <= 'z')
}

/// The identifier of a new encoder is that which it is given, without hyphens and in capitals:
/// one that has neither hyphens nor small letters stays as it is.
pub proof fn identifiers_lose_their_hyphens(s: Seq<char>)
    ensures
        forall|i: int|
            0 <= i < without_hyphens_upper(s).len() ==> is_in_capitals(
                #[trigger] without_hyphens_upper(s)[i],
            ),
        (forall|i: int| 0 <= i < s.len() ==> is_in_capitals(#[trigger] s[i]))
            ==> without_hyphens_upper(s) == s,
    decreases s.len(),
{
    let r = without_hyphens_upper(s);
    if s.len() > 0 {
        let w = s.drop_last();
        identifiers_lose_their_hyphens(w);
        let q = without_hyphens_upper(w);
        assert(s[s.len() - 1] == s.last());
        assert forall|i: int| 0 <= i < w.len() implies w[i] == #[trigger] s[i] by {}
        assert forall|i: int| 0 <= i < r.len() implies is_in_capitals(#[trigger] r[i]) by {
            if i < q.len() {
                assert(r[i] == q[i]);
                assert(is_in_capitals(q[i]));
            } else {
                assert(r[i] == upper_char(s.last()));
                let c = s.last();
                if 'a' <= c <= 'z' {
                    assert(65 <= c as int - 32 <= 90);
                    assert(upper_char(c) as int == c as int - 32);
                }
            }
        }
        if forall|i: int| 0 <= i < s.len() ==> is_in_capitals(#[trigger] s[i]) {
            assert(is_in_capitals(s[s.len() - 1]));
            assert forall|i: int| 0 <= i < w.len() implies is_in_capitals(#[trigger] w[i]) by {
                assert(is_in_capitals(s[i]));
            }
            assert(w.push(s.last()) =~= s);
        }
    } else {
        assert(r =~= s);
    }
}

} // verus!
