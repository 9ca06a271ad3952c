//! What holds of every source: it is the one that the operator picked, and depends on the
//! settings of its own kind alone.
use vstd::prelude::*;
use vstd::string::*;

use crate::avf_modes::{capture_mode, AvfMode};
use crate::device_scanner::{device_models, DeviceModel};
use crate::encoder::sets;
use crate::number::{decimal, decimal_is_digits, is_digit};
use crate::plan::{machine_source, Machine};
use crate::reading::{
    first_piece_is, lacks, lacks_concat, only_piece_is, parameter, query_is, value_in,
};
use crate::resolve::{audio_index, avf_audio_name, device_at, device_called, probe_index};
use crate::scan::{begins, pieces};
use crate::snapshot::{mode_dimensions, selection_of, SelectionModel};
use crate::sources::{avf_note, Platform};
use crate::state::EncoderModel;

verus! {

proof fn kinds_differ()
    ensures
        "ndi"@ != "omt"@,
        "ndi"@ != "pipe"@,
        "ndi"@ != "avfoundation"@,
        "ndi"@ != "test_pattern"@,
        "ndi"@ != "srt_listen"@,
        "ndi"@ != "rtmp_listen"@,
        "omt"@ != "pipe"@,
        "omt"@ != "avfoundation"@,
        "omt"@ != "test_pattern"@,
        "omt"@ != "srt_listen"@,
        "omt"@ != "rtmp_listen"@,
        "pipe"@ != "avfoundation"@,
        "pipe"@ != "test_pattern"@,
        "pipe"@ != "srt_listen"@,
        "pipe"@ != "rtmp_listen"@,
        "avfoundation"@ != "test_pattern"@,
        "avfoundation"@ != "srt_listen"@,
        "avfoundation"@ != "rtmp_listen"@,
        "test_pattern"@ != "srt_listen"@,
        "test_pattern"@ != "rtmp_listen"@,
        "srt_listen"@ != "rtmp_listen"@,
{
    reveal_strlit("ndi");
    reveal_strlit("omt");
    reveal_strlit("pipe");
    reveal_strlit("avfoundation");
    reveal_strlit("test_pattern");
    reveal_strlit("srt_listen");
    reveal_strlit("rtmp_listen");
    assert("ndi"@[0] == 'n' && "omt"@[0] == 'o' && "pipe"@[0] == 'p');
    assert("avfoundation"@[0] == 'a' && "test_pattern"@[0] == 't');
    assert("srt_listen"@[0] == 's' && "rtmp_listen"@[0] == 'r');
}

/// A source that is picked over the network has the name of the sender that was picked for
/// its kind, and can be used if and only if one was. Nothing is read from it by FFmpeg
/// itself.
pub proof fn the_picked_sender_is_the_source(s: EncoderModel, m: Machine)
    ensures
        s.source_id == "ndi"@ ==> (machine_source(s, m) matches Some(x) && x.id == "ndi"@ && x.label
            == s.ndi_source_name && (x.available <==> s.ndi_source_name.len() > 0) && x.args.len()
            == 0 && (x.notes.len() > 0 ==> !x.available)),
        s.source_id == "omt"@ ==> (machine_source(s, m) matches Some(x) && x.id == "omt"@ && x.label
            == s.omt_source_name && (x.available <==> s.omt_source_name.len() > 0) && x.args.len()
            == 0 && (x.notes.len() > 0 ==> !x.available)),
{
    kinds_differ();
}

/// Each kind of source depends on its own settings alone, whatever else is set and on
/// whichever machine: a sender on its name, a pipe on its path, a listener on the relay's
/// settings for its protocol, colour bars on the video mode.
pub proof fn sources_depend_on_their_own(s: EncoderModel, t: EncoderModel, m: Machine, n: Machine)
    requires
        s.source_id == t.source_id,
    ensures
        s.source_id == "ndi"@ && s.ndi_source_name == t.ndi_source_name ==> machine_source(s, m)
            == machine_source(t, n),
        s.source_id == "omt"@ && s.omt_source_name == t.omt_source_name ==> machine_source(s, m)
            == machine_source(t, n),
        s.source_id == "pipe"@ && s.pipe_path == t.pipe_path ==> machine_source(s, m)
            == machine_source(t, n),
        s.source_id == "srt_listen"@ && s.relay_bind_host == t.relay_bind_host && s.relay_srt_port
            == t.relay_srt_port && s.relay_srt_latency_us == t.relay_srt_latency_us
            && s.relay_srt_passphrase == t.relay_srt_passphrase ==> machine_source(s, m)
            == machine_source(t, n),
        s.source_id == "rtmp_listen"@ && s.relay_bind_host == t.relay_bind_host
            && s.relay_rtmp_port == t.relay_rtmp_port && s.relay_rtmp_app == t.relay_rtmp_app
            && s.relay_rtmp_key == t.relay_rtmp_key ==> machine_source(s, m) == machine_source(
            t,
            n,
        ),
        s.source_id == "test_pattern"@ && s.video_mode == t.video_mode ==> machine_source(s, m)
            == machine_source(t, n),
{
    kinds_differ();
}

/// The source that is captured depends on the video mode, the picked devices and the audio
/// mode alone, and on the audio device only in custom mode.
pub proof fn captures_depend_on_the_devices(s: EncoderModel, t: EncoderModel, m: Machine)
    requires
        s.source_id == "avfoundation"@,
        t.source_id == s.source_id,
        t.video_mode == s.video_mode,
        t.av_video_index == s.av_video_index,
        t.av_video_name == s.av_video_name,
        t.audio_mode == s.audio_mode,
        s.audio_mode == "custom"@ ==> t.av_audio_index == s.av_audio_index && t.av_audio_name
            == s.av_audio_name,
    ensures
        machine_source(s, m) == machine_source(t, m),
{
    kinds_differ();
    no_audio_device_is(selection_of(s), device_models(m.devices.audio@));
}

proof fn no_audio_device_is(s: SelectionModel, audio: Seq<DeviceModel>)
    ensures
        s.audio_mode != "custom"@ ==> audio_index(s) == -1 && avf_audio_name(s, audio)
            == Seq::<char>::empty(),
{
}

/// There is a source if and only if its kind is one of the seven.
pub proof fn seven_kinds_are_known(s: EncoderModel, m: Machine)
    ensures
        machine_source(s, m) is Some <==> (s.source_id == "test_pattern"@ || s.source_id == "pipe"@
            || s.source_id == "avfoundation"@ || s.source_id == "ndi"@ || s.source_id == "omt"@
            || s.source_id == "srt_listen"@ || s.source_id == "rtmp_listen"@),
{
}

/// A pipe is read from the path that was given, at its own pace, and can be used if and only
/// if one was.
pub proof fn pipes_read_their_path(s: EncoderModel, m: Machine)
    requires
        s.source_id == "pipe"@,
    ensures
        machine_source(s, m) matches Some(x) && x.id == "pipe"@ && (x.available
            <==> s.pipe_path.len() > 0) && (s.pipe_path.len() > 0 ==> sets(
            x.args,
            "-i"@,
            s.pipe_path,
        ) && x.args[0] == "-re"@) && x.combined_av,
{
    kinds_differ();
    let x = machine_source(s, m)->0;
    if s.pipe_path.len() > 0 {
        assert(x.args[1] == "-i"@ && x.args[2] == s.pipe_path);
    }
}

/// A listener for SRT listens at the address and the port of the relay, with its latency and
/// its passphrase if it has one.
pub proof fn srt_listeners_use_the_relay(s: EncoderModel, m: Machine)
    requires
        s.source_id == "srt_listen"@,
        lacks(s.relay_bind_host, '?'),
        lacks(s.relay_srt_passphrase, '&'),
    ensures
        machine_source(s, m) matches Some(x) && {
            &&& x.id == "srt_listen"@
            &&& x.available
            &&& x.combined_av
            &&& x.args.len() == 4
            &&& x.args[0] == "-f"@ && x.args[1] == "mpegts"@ && x.args[2] == "-i"@
            &&& begins(
                x.args[3],
                "srt://"@ + s.relay_bind_host + ":"@ + decimal(s.relay_srt_port as nat) + "?"@,
            )
            &&& parameter(x.args[3], "mode="@) == Some("listener"@)
            &&& parameter(x.args[3], "latency="@) == Some(decimal(s.relay_srt_latency_us as nat))
            &&& s.relay_srt_passphrase.len() > 0 ==> parameter(x.args[3], "passphrase="@) == Some(
                s.relay_srt_passphrase,
            )
            &&& s.relay_srt_passphrase.len() == 0 ==> parameter(x.args[3], "passphrase="@) is None
        },
{
    kinds_differ();
    reveal_strlit("srt://");
    reveal_strlit(":");
    reveal_strlit("?");
    reveal_strlit("?mode=listener&latency=");
    reveal_strlit("&passphrase=");
    reveal_strlit("mode=");
    reveal_strlit("listener");
    reveal_strlit("latency=");
    reveal_strlit("passphrase=");
    let x = machine_source(s, m)->0;
    let port = decimal(s.relay_srt_port as nat);
    let latency = decimal(s.relay_srt_latency_us as nat);
    decimal_is_digits(s.relay_srt_port as nat);
    decimal_is_digits(s.relay_srt_latency_us as nat);
    assert forall|i: int| 0 <= i < port.len() implies #[trigger] port[i] != '?' by {
        assert(is_digit(port[i]));
    }
    assert forall|i: int| 0 <= i < latency.len() implies #[trigger] latency[i] != '&' by {
        assert(is_digit(latency[i]));
    }
    let a = "srt://"@ + s.relay_bind_host + ":"@ + port;
    lacks_concat("srt://"@, s.relay_bind_host, '?');
    lacks_concat("srt://"@ + s.relay_bind_host, ":"@, '?');
    lacks_concat("srt://"@ + s.relay_bind_host + ":"@, port, '?');
    let c = seq!['&'];
    let one = "mode="@ + "listener"@;
    let two = "latency="@ + latency;
    let three = "passphrase="@ + s.relay_srt_passphrase;
    lacks_concat("latency="@, latency, '&');
    lacks_concat("passphrase="@, s.relay_srt_passphrase, '&');
    let q = if s.relay_srt_passphrase.len() > 0 {
        one + c + (two + c + three)
    } else {
        one + c + two
    };
    assert(x.args[3] =~= a + "?"@ + q);
    assert(x.args[3].take((a + "?"@).len() as int) =~= a + "?"@);
    query_is(a, q);
    only_piece_is(two, '&');
    only_piece_is(three, '&');
    first_piece_is(two, three, '&');
    if s.relay_srt_passphrase.len() > 0 {
        first_piece_is(one, two + c + three, '&');
        assert(pieces(q, '&') =~= seq![one, two, three]);
    } else {
        first_piece_is(one, two, '&');
        assert(pieces(q, '&') =~= seq![one, two]);
    }
    let ps = pieces(q, '&');
    reveal_with_fuel(value_in, 4);
    assert(one[0] == 'm' && two[0] == 'l' && three[0] == 'p');
    assert(ps.drop_first()[0] == two);
    if s.relay_srt_passphrase.len() > 0 {
        assert(ps.drop_first().drop_first()[0] == three);
    }
    assert(one.take(5) =~= "mode="@ && one.skip(5) =~= "listener"@);
    assert(two.take(8) =~= "latency="@ && two.skip(8) =~= latency);
    assert(three.take(11) =~= "passphrase="@ && three.skip(11) =~= s.relay_srt_passphrase);
    assert(forall|t: Seq<char>|
        #![trigger begins(t, "latency="@)]
        begins(t, "latency="@) ==> t[0] == t.take(8)[0]);
    assert(forall|t: Seq<char>|
        #![trigger begins(t, "passphrase="@)]
        begins(t, "passphrase="@) ==> t[0] == t.take(11)[0]);
}

/// A listener for RTMP listens at the address and the port of the relay, for its application
/// and its key.
pub proof fn rtmp_listeners_use_the_relay(s: EncoderModel, m: Machine)
    requires
        s.source_id == "rtmp_listen"@,
    ensures
        machine_source(s, m) matches Some(x) && {
            &&& x.id == "rtmp_listen"@
            &&& x.available
            &&& x.combined_av
            &&& sets(x.args, "-listen"@, "1"@)
            &&& sets(x.args, "-f"@, "flv"@)
            &&& sets(
                x.args,
                "-i"@,
                "rtmp://"@ + s.relay_bind_host + ":"@ + decimal(s.relay_rtmp_port as nat) + "/"@
                    + s.relay_rtmp_app + "/"@ + s.relay_rtmp_key,
            )
        },
{
    kinds_differ();
    let a = machine_source(s, m)->0.args;
    assert(a[0] == "-listen"@ && a[2] == "-f"@ && a[4] == "-i"@);
    assert(a[1] == "1"@ && a[3] == "flv"@);
}

/// Colour bars come in the size and at the rate of the video mode, with a tone beside them.
pub proof fn bars_have_the_mode(s: EncoderModel, m: Machine)
    requires
        s.source_id == "test_pattern"@,
    ensures
        machine_source(s, m) matches Some(x) && {
            let d = mode_dimensions(s.video_mode);
            &&& x.id == "test_pattern"@
            &&& x.available
            &&& !x.combined_av
            &&& x.args[0] == "-re"@
            &&& sets(
                x.args,
                "-i"@,
                "testsrc2=size="@ + decimal(d.0 as nat) + "x"@ + decimal(d.1 as nat) + ":rate="@
                    + decimal(d.2 as nat) + ",format=yuv420p"@,
            )
            &&& sets(x.args, "-i"@, "sine=frequency=1000:sample_rate=48000"@)
        },
{
    let x = machine_source(s, m)->0;
    let d = mode_dimensions(s.video_mode);
    assert(x.args[3] == "-i"@ && x.args[7] == "-i"@);
    assert(x.args[4] =~= "testsrc2=size="@ + decimal(d.0 as nat) + "x"@ + decimal(d.1 as nat)
        + ":rate="@ + decimal(d.2 as nat) + ",format=yuv420p"@);
}

// ---------------------------------------------------------------------------
// Devices
// ---------------------------------------------------------------------------

/// The device that is looked up by its index has that index, and none before it has; if there
/// is none, no device has it.
pub proof fn devices_are_found_by_index(v: Seq<DeviceModel>, index: int)
    ensures
        match device_at(v, index) {
            Some(i) => 0 <= i < v.len() && v[i].index == index && forall|j: int|
                0 <= j < i ==> (#[trigger] v[j]).index != index,
            None => forall|j: int| 0 <= j < v.len() ==> (#[trigger] v[j]).index != index,
        },
    decreases v.len(),
{
    if v.len() > 0 {
        let w = v.drop_last();
        devices_are_found_by_index(w, index);
        assert forall|j: int| 0 <= j < w.len() implies w[j] == #[trigger] v[j] by {}
    }
}

/// The device that is looked up by its name has that name, and none before it has; if there
/// is none, no device has it.
pub proof fn devices_are_found_by_name(v: Seq<DeviceModel>, name: Seq<char>)
    ensures
        match device_called(v, name) {
            Some(i) => 0 <= i < v.len() && v[i].name == name && forall|j: int|
                0 <= j < i ==> (#[trigger] v[j]).name != name,
            None => forall|j: int| 0 <= j < v.len() ==> (#[trigger] v[j]).name != name,
        },
    decreases v.len(),
{
    if v.len() > 0 {
        let w = v.drop_last();
        devices_are_found_by_name(w, name);
        assert forall|j: int| 0 <= j < w.len() implies w[j] == #[trigger] v[j] by {}
    }
}

/// The index to ask for modes is that of a device with the name, if there is one; else it is
/// the given one.
pub proof fn modes_are_asked_of_the_named(v: Seq<DeviceModel>, name: Seq<char>, fallback: i32)
    ensures
        name.len() > 0 && (exists|i: int| 0 <= i < v.len() && (#[trigger] v[i]).name == name)
            ==> exists|i: int|
            0 <= i < v.len() && (#[trigger] v[i]).name == name && v[i].index == probe_index(
                v,
                name,
                fallback,
            ),
        name.len() == 0 || (forall|i: int| 0 <= i < v.len() ==> (#[trigger] v[i]).name != name)
            ==> probe_index(v, name, fallback) == fallback,
{
    devices_are_found_by_name(v, name);
}

/// On Windows the device with the picked index is captured: the desktop if it is a screen,
/// else the device by its name. Its label is its name. In custom mode the audio device with
/// the picked index is captured too; otherwise a silent track is added.
#[verifier::rlimit(60)]
pub proof fn windows_captures_the_picked(s: EncoderModel, m: Machine, i: int, k: int)
    requires
        s.source_id == "avfoundation"@,
        m.platform == Platform::Windows,
        0 <= i < m.devices.video@.len(),
        m.devices.video@[i].index == s.av_video_index,
        forall|j: int| 0 <= j < i ==> (#[trigger] m.devices.video@[j]).index != s.av_video_index,
        s.audio_mode == "custom"@ ==> 0 <= k < m.devices.audio@.len() && m.devices.audio@[k].index
            == s.av_audio_index && m.devices.audio@[k].name@.len() > 0 && forall|j: int|
            0 <= j < k ==> (#[trigger] m.devices.audio@[j]).index != s.av_audio_index,
        s.audio_mode != "custom"@ ==> forall|j: int|
            0 <= j < m.devices.audio@.len() ==> (#[trigger] m.devices.audio@[j]).index >= 0,
        m.devices.video@[i].name@.len() > 0,
    ensures
        machine_source(s, m) matches Some(x) && {
            let name = m.devices.video@[i].name@;
            let audio = m.devices.audio@[k].name@;
            let d = mode_dimensions(s.video_mode);
            &&& x.label == name
            &&& x.available
            &&& m.devices.video@[i].category@ == "screen"@ ==> {
                &&& sets(x.args, "-i"@, "desktop"@)
                &&& sets(x.args, "-framerate"@, decimal(d.2 as nat))
                &&& sets(x.args, "-video_size"@, decimal(d.0 as nat) + "x"@ + decimal(d.1 as nat))
                &&& !x.combined_av
                &&& s.audio_mode == "custom"@ ==> sets(x.args, "-i"@, "audio="@ + audio)
            }
            &&& m.devices.video@[i].category@ != "screen"@ ==> {
                &&& sets(x.args, "-f"@, "dshow"@)
                &&& s.audio_mode == "custom"@ ==> sets(
                    x.args,
                    "-i"@,
                    "video="@ + name + ":audio="@ + audio,
                ) && x.combined_av
                &&& s.audio_mode != "custom"@ ==> sets(x.args, "-i"@, "video="@ + name)
                    && !x.combined_av
            }
            &&& s.audio_mode != "custom"@ ==> sets(
                x.args,
                "-i"@,
                "anullsrc=channel_layout=stereo:sample_rate=48000"@,
            )
        },
{
    kinds_differ();
    let video = device_models(m.devices.video@);
    let sound = device_models(m.devices.audio@);
    devices_are_found_by_index(video, s.av_video_index as int);
    let at = device_at(video, s.av_video_index as int)->0;
    assert(video[i].index == s.av_video_index);
    if at < i {
        assert(video[at].index == m.devices.video@[at].index);
    }
    assert(at == i);
    let ai = audio_index(selection_of(s));
    devices_are_found_by_index(sound, ai);
    if s.audio_mode == "custom"@ {
        let there = device_at(sound, ai)->0;
        assert(sound[k].index == s.av_audio_index);
        if there < k {
            assert(sound[there].index == m.devices.audio@[there].index);
        }
        assert(there == k);
    } else if device_at(sound, ai) is Some {
        let there = device_at(sound, ai)->0;
        assert(sound[there].index == m.devices.audio@[there].index);
        assert(false);
    }
    let x = machine_source(s, m)->0;
    let a = x.args;
    let n = a.len() as int;
    if m.devices.video@[i].category@ == "screen"@ {
        assert(a[2] == "-framerate"@ && a[4] == "-video_size"@ && a[6] == "-i"@);
        assert(a[n - 2] == "-i"@);
    } else {
        assert(a[0] == "-f"@ && a[4] == "-i"@ && a[n - 2] == "-i"@);
    }
}

/// On macOS the kept name of the camera is captured, with the kept audio device beside it in
/// custom mode; otherwise a silent track is added. Where no names are kept, the indices are.
#[verifier::rlimit(60)]
pub proof fn macos_captures_the_kept_names(s: EncoderModel, m: Machine)
    requires
        s.source_id == "avfoundation"@,
        m.platform == Platform::MacOs,
        s.av_video_name.len() > 0,
        !begins(s.av_video_name, "video["@),
        !begins(s.av_audio_name, "audio["@),
        s.audio_mode == "custom"@ ==> s.av_audio_name.len() > 0,
    ensures
        machine_source(s, m) matches Some(x) && {
            &&& x.label == s.av_video_name
            &&& x.available
            &&& sets(x.args, "-f"@, "avfoundation"@)
            &&& s.audio_mode == "custom"@ ==> x.combined_av && sets(
                x.args,
                "-i"@,
                s.av_video_name + ":"@ + s.av_audio_name,
            )
            &&& s.audio_mode != "custom"@ ==> !x.combined_av && sets(
                x.args,
                "-i"@,
                s.av_video_name,
            ) && sets(x.args, "-i"@, "anullsrc=channel_layout=stereo:sample_rate=48000"@)
        },
{
    kinds_differ();
    let a = machine_source(s, m)->0.args;
    assert(a[0] == "-f"@ && a[8] == "-i"@);
    if s.audio_mode != "custom"@ {
        assert(a[12] == "-i"@);
    }
}

/// A source is described by what it is: the sender, the path, or the host and the port that it
/// listens on. One that cannot be used says what to do.
pub proof fn sources_say_what_they_are(s: EncoderModel, m: Machine)
    ensures
        s.source_id == "ndi"@ ==> (machine_source(s, m) matches Some(x) && x.description
            == "NDI direct: "@ + s.ndi_source_name && (x.notes.len() == 0
            <==> s.ndi_source_name.len() > 0)),
        s.source_id == "omt"@ ==> (machine_source(s, m) matches Some(x) && x.description
            == "OMT direct: "@ + s.omt_source_name && (x.notes.len() == 0
            <==> s.omt_source_name.len() > 0)),
        s.source_id == "pipe"@ && s.pipe_path.len() > 0 ==> (machine_source(s, m) matches Some(x)
            && x.description == "Read from "@ + s.pipe_path),
        s.source_id == "srt_listen"@ ==> (machine_source(s, m) matches Some(x) && x.label
            == "SRT in :"@ + decimal(s.relay_srt_port as nat) && x.description
            == "SRT listener on "@ + s.relay_bind_host + ":"@ + decimal(s.relay_srt_port as nat)),
        s.source_id == "rtmp_listen"@ ==> (machine_source(s, m) matches Some(x) && x.label
            == "RTMP in :"@ + decimal(s.relay_rtmp_port as nat) && x.description
            == "RTMP listener on "@ + s.relay_bind_host + ":"@ + decimal(s.relay_rtmp_port as nat)
            + "/"@ + s.relay_rtmp_app),
{
    kinds_differ();
    reveal_strlit("Pick an NDI sender from the discovery list.");
    reveal_strlit("Pick an OMT sender from the discovery list.");
}

/// A camera that is captured otherwise than the stream is sent says so; one that is captured as
/// it is sent says nothing.
pub proof fn other_captures_are_noted(modes: Seq<AvfMode>, w: u32, h: u32, fps: u32)
    requires
        fps <= 1_000,
    ensures
        ({
            let want = (fps * 1_000_000) as u64;
            let r = capture_mode(modes, w, h, want);
            &&& r.0 == w && r.1 == h && r.2 == want ==> avf_note(modes, w, h, fps).len() == 0
            &&& modes.len() > 0 && (r.0 != w || r.1 != h) ==> begins(
                avf_note(modes, w, h, fps),
                "Capturing at "@ + decimal(r.0 as nat) + "x"@ + decimal(r.1 as nat),
            )
        }),
{
    let want = (fps * 1_000_000) as u64;
    let r = capture_mode(modes, w, h, want);
    if modes.len() > 0 && (r.0 != w || r.1 != h) {
        let t = avf_note(modes, w, h, fps);
        let a = "Capturing at "@ + decimal(r.0 as nat) + "x"@ + decimal(r.1 as nat);
        assert(t.subrange(0, a.len() as int) =~= a);
    }
}

} // verus!
