//! What holds of the devices, of the cards on trial and of what is kept on disk.
use vstd::prelude::*;

use crate::avf_modes::{
    best_mode, capture_mode, covers, has_size, millionths, rate_text, six_digits, AvfMode,
};
use crate::decklink::{known_modes, mode_in, mode_models, name_added, CardModes};
use crate::decklink_spike::{
    after_line, assigned, dead_count, fresh_tile, given_up, is_stalled, limited_step, mode_rate,
    tile_note, trial_args, value_of, verdict_lines, SpikeLine, TileModel, WordsModel,
};
use crate::device_scanner::{
    avf_devices, avf_header, category_of, chosen_category, default_audio, default_video,
    dshow_devices, dshow_header, dshow_kinds, first_on, is_fresh, marked, preferred, with_desktop_models,
    DeviceKind, DeviceModel,
};
use crate::discovery::{address_named, omt_host, omt_name};
use crate::ffmpeg_path::{bundled, encoder_on, encoders_on, picked_program};
use crate::fleet::{tile_port, with_default_devices};
use crate::instance::{breaks_paths, has_bad_char, names_xml, title};
use crate::number::{
    all_digits, decimal, decimal_is_digits, digit, digits_value, is_digit, lowered, parsed,
    parsed_decimal, parsed_signed, same_ignoring_case,
};
use crate::patterns::{group_text, pattern_matches};
use crate::progress::is_float_text;
use crate::reading::{first_piece_is, lacks, only_piece_is, told, told_from};
use crate::scan::{
    begins, finishes, found_from, holds, last_position_is, matches_at, pieces, position_is,
    trimmed, up_to, without_last, words_of,
};
use crate::state::EncoderModel;
use crate::state_persist::{persisted, tile_file};
use crate::supervisor::Lines;
use crate::text::opt_text;
use crate::timestamps::{moment_of, second_number, told_moment, Moment};

verus! {

// ---------------------------------------------------------------------------
// What is kept
// ---------------------------------------------------------------------------

/// Each setting is kept under its own name.
pub proof fn settings_are_kept_by_name(s: EncoderModel)
    ensures
        persisted(s).label == Some(s.label),
        persisted(s).source_id == Some(s.source_id),
        persisted(s).ndi_source_name == Some(s.ndi_source_name),
        persisted(s).omt_source_name == Some(s.omt_source_name),
        persisted(s).av_video_index == Some(s.av_video_index),
        persisted(s).av_video_name == Some(s.av_video_name),
        persisted(s).av_audio_index == Some(s.av_audio_index),
        persisted(s).av_audio_name == Some(s.av_audio_name),
        persisted(s).pipe_path == Some(s.pipe_path),
        persisted(s).destination_type == Some(s.destination_type),
        persisted(s).decklink_device_name == Some(s.decklink_device_name),
        persisted(s).decklink_output_mode == Some(s.decklink_output_mode),
        persisted(s).decklink_format_code == Some(s.decklink_format_code),
        persisted(s).decklink_pixel_format == Some(s.decklink_pixel_format),
        persisted(s).custom_url == Some(s.custom_url),
        persisted(s).stream_key == Some(s.stream_key),
        persisted(s).passphrase == Some(s.passphrase),
        persisted(s).srt_mode == Some(s.srt_mode),
        persisted(s).srt_latency_us == Some(s.srt_latency_us),
        persisted(s).srt_listen_port == Some(s.srt_listen_port),
        persisted(s).streamid_override == Some(s.streamid_override),
        persisted(s).streamid_legacy == Some(s.streamid_legacy),
        persisted(s).current_service_name == Some(s.current_service_name),
        persisted(s).current_server_name == Some(s.current_server_name),
        persisted(s).video_mode == Some(s.video_mode),
        persisted(s).quality_level == Some(s.quality_level),
        persisted(s).video_codec == Some(s.video_codec),
        persisted(s).video_encoder == Some(s.video_encoder),
        persisted(s).encoder_extra_flags == Some(s.encoder_extra_flags),
        persisted(s).audio_mode == Some(s.audio_mode),
        persisted(s).audio_output_mono == Some(s.audio_output_mono),
        persisted(s).audio_pan_l == Some(s.audio_pan_l),
        persisted(s).audio_pan_r == Some(s.audio_pan_r),
        persisted(s).audio_codec == Some(s.audio_codec),
        persisted(s).audio_bitrate_kbps == Some(s.audio_bitrate_kbps),
        persisted(s).audio_sample_rate == Some(s.audio_sample_rate),
        persisted(s).audio_channels == Some(s.audio_channels),
        persisted(s).auto_reconnect == Some(s.auto_reconnect),
        persisted(s).auto_reconnect_max_attempts == Some(s.auto_reconnect_max_attempts),
        persisted(s).meters_enabled == Some(s.meters_enabled),
        persisted(s).omt_output_enabled == Some(s.omt_output_enabled),
        persisted(s).omt_output_name == Some(s.omt_output_name),
        persisted(s).version == 1,
{
}

/// Each encoder of many has a file of its own, by its number.
pub proof fn encoders_have_their_own_file(a: u8, b: u8)
    ensures
        tile_file(a) == "multiview-tile-"@ + decimal(a as nat) + ".json"@,
        a != b ==> tile_file(a) != tile_file(b),
{
    if tile_file(a) == tile_file(b) {
        let x = tile_file(a);
        let n = "multiview-tile-"@.len() as int;
        let m = x.len() - ".json"@.len();
        assert(x.subrange(n, m) =~= decimal(a as nat));
        assert(x.subrange(n, m) =~= decimal(b as nat));
        parsed_decimal(a as nat, 255);
        parsed_decimal(b as nat, 255);
    }
}

// ---------------------------------------------------------------------------
// The modes of a camera
// ---------------------------------------------------------------------------

/// How far a mode is from a rate.
pub open spec fn off_by(m: AvfMode, want: u64) -> int {
    if m.fps_lo <= want <= m.fps_hi {
        0
    } else {
        let a = if m.fps_lo > want {
            m.fps_lo - want
        } else {
            want - m.fps_lo
        };
        let b = if m.fps_hi > want {
            m.fps_hi - want
        } else {
            want - m.fps_hi
        };
        if a <= b {
            a
        } else {
            b
        }
    }
}

/// A mode can be taken: it is of the size, or of any.
pub open spec fn fits(m: AvfMode, any_size: bool, w: u32, h: u32) -> bool {
    any_size || (m.width == w && m.height == h)
}

#[verifier::rlimit(60)]
proof fn best_is_best(v: Seq<AvfMode>, any_size: bool, w: u32, h: u32, want: u64)
    ensures
        match best_mode(v, any_size, w, h, want) {
            Some(b) => v.contains(b) && fits(b, any_size, w, h) && forall|i: int|
                0 <= i < v.len() && fits(#[trigger] v[i], any_size, w, h) ==> if covers(b, want) {
                    true
                } else {
                    !covers(v[i], want) && off_by(b, want) <= off_by(v[i], want)
                },
            None => forall|i: int| 0 <= i < v.len() ==> !fits(#[trigger] v[i], any_size, w, h),
        },
    decreases v.len(),
{
    if v.len() > 0 {
        let q = v.drop_last();
        best_is_best(q, any_size, w, h, want);
        assert forall|i: int| 0 <= i < q.len() implies q[i] == #[trigger] v[i] by {}
        assert(v[v.len() - 1] == v.last());
        if let Some(b) = best_mode(q, any_size, w, h, want) {
            let i = choose|i: int| 0 <= i < q.len() && q[i] == b;
            assert(v[i] == b);
        }
    }
}

/// A camera is captured in one of its modes: of the wanted size if it has one of that size, at
/// the wanted rate if a mode of that size covers it. Else no mode that could be taken comes
/// nearer to the rate, and the highest rate of the mode is captured. Of a camera without known
/// modes what is wanted is asked for.
#[verifier::rlimit(60)]
pub proof fn cameras_are_captured_as_near_as_can_be(v: Seq<AvfMode>, w: u32, h: u32, want: u64)
    ensures
        v.len() == 0 ==> capture_mode(v, w, h, want) == (w, h, want),
        v.len() > 0 ==> exists|k: int|
            {
                let sized = exists|i: int|
                    0 <= i < v.len() && (#[trigger] v[i]).width == w && v[i].height == h;
                let r = capture_mode(v, w, h, want);
                &&& 0 <= k < v.len()
                &&& r.0 == (#[trigger] v[k]).width && r.1 == v[k].height
                &&& sized ==> r.0 == w && r.1 == h
                &&& v[k].fps_lo <= want <= v[k].fps_hi ==> r.2 == want
                &&& !(v[k].fps_lo <= want <= v[k].fps_hi) ==> r.2 == v[k].fps_hi && forall|i: int|
                    0 <= i < v.len() && (!sized || ((#[trigger] v[i]).width == w && v[i].height
                        == h)) ==> off_by(v[k], want) <= off_by(v[i], want) && !(v[i].fps_lo
                        <= want <= v[i].fps_hi)
            },
{
    if v.len() > 0 {
        let any = !has_size(v, w, h);
        best_is_best(v, any, w, h, want);
        if has_size(v, w, h) {
            let i = choose|i: int|
                0 <= i < v.len() && (#[trigger] v[i]).width == w && v[i].height == h;
            assert(fits(v[i], any, w, h));
        } else {
            assert(fits(v[0], any, w, h));
        }
        let b = best_mode(v, any, w, h, want)->0;
        let k = choose|k: int| 0 <= k < v.len() && v[k] == b;
        assert(v[k] == b);
        assert forall|i: int|
            0 <= i < v.len() && (any || ((#[trigger] v[i]).width == w && v[i].height
                == h)) && !covers(b, want) implies off_by(v[k], want) <= off_by(v[i], want)
            && !covers(v[i], want) by {
            assert(fits(v[i], any, w, h));
        }
    }
}

/// A whole rate counts a million for each frame.
#[verifier::rlimit(60)]
pub proof fn whole_rates_are_read(n: u32)
    ensures
        millionths(decimal(n as nat)) == n * 1_000_000,
{
    let s = decimal(n as nat);
    decimal_is_digits(n as nat);
    parsed_decimal(n as nat, u32::MAX as int);
    assert(!is_digit('.'));
    position_is(s, '.', s.len() as int);
    assert(s.take(s.len() as int) =~= s);
    let z = six_digits(Seq::empty());
    let t = s + z;
    assert(t.drop_last() =~= s + seq!['0', '0', '0', '0', '0']);
    assert((s + seq!['0', '0', '0', '0', '0']).drop_last() =~= s + seq!['0', '0', '0', '0']);
    assert((s + seq!['0', '0', '0', '0']).drop_last() =~= s + seq!['0', '0', '0']);
    assert((s + seq!['0', '0', '0']).drop_last() =~= s + seq!['0', '0']);
    assert((s + seq!['0', '0']).drop_last() =~= s + seq!['0']);
    assert((s + seq!['0']).drop_last() =~= s);
    reveal_with_fuel(digits_value, 7);
    assert(digits_value(t) == n * 1_000_000);
}

// ---------------------------------------------------------------------------
// Devices
// ---------------------------------------------------------------------------

/// The parts of a card's mode are read from their groups: the code, the width, the height, and
/// the two numbers of the rate.
pub proof fn card_modes_are_read_in_order(line: Seq<char>, c: Seq<Option<Seq<char>>>)
    ensures
        mode_in(line, c) matches Some(m) ==> {
            &&& m.format_code == group_text(c, 1)
            &&& parsed(group_text(c, 2), u32::MAX as int) == Some(m.width as nat) && m.width > 0
            &&& parsed(group_text(c, 3), u32::MAX as int) == Some(m.height as nat) && m.height > 0
            &&& parsed(group_text(c, 4), u32::MAX as int) == Some(m.fps_num as nat) && m.fps_num
                > 0
            &&& m.fps_den > 0
            &&& parsed(group_text(c, 5), u32::MAX as int) matches Some(n) ==> (n > 0 ==> m.fps_den
                == n)
            &&& m.interlaced <==> holds(lowered(group_text(c, 6)), "interlaced"@)
        },
{
}

/// A device is listed under the heading that it stands under, video or audio.
pub proof fn devices_stand_under_their_heading(line: Seq<char>, rest: Seq<Seq<char>>, kind: DeviceKind)
    requires
        avf_header(line) is Some,
    ensures
        holds(lowered(line), "avfoundation video devices"@) ==> avf_header(line) == Some(
            DeviceKind::Video,
        ),
        !holds(lowered(line), "avfoundation video devices"@) ==> avf_header(line) == Some(
            DeviceKind::Audio,
        ),
        avf_devices(seq![line] + rest, None, kind) == avf_devices(rest, avf_header(line), kind),
        avf_devices(seq![line] + rest, Some(kind), kind) == avf_devices(
            rest,
            avf_header(line),
            kind,
        ),
{
    let all = seq![line] + rest;
    assert(all[0] == line);
    assert(all.drop_first() =~= rest);
}

/// Before the first heading no device is listed, and none of the other kind ever is.
pub proof fn devices_are_of_their_kind(lines: Seq<Seq<char>>, section: Option<DeviceKind>, kind: DeviceKind)
    ensures
        forall|i: int|
            0 <= i < avf_devices(lines, section, kind).len() ==> (#[trigger] avf_devices(
                lines,
                section,
                kind,
            )[i]).kind == kind,
        section != Some(kind) && (forall|i: int|
            0 <= i < lines.len() ==> avf_header(#[trigger] lines[i]) is None) ==> avf_devices(
            lines,
            section,
            kind,
        ).len() == 0,
    decreases lines.len(),
{
    if lines.len() > 0 {
        let rest = lines.drop_first();
        let next = match avf_header(lines[0]) {
            Some(k) => Some(k),
            None => section,
        };
        devices_are_of_their_kind(rest, next, kind);
        if forall|i: int| 0 <= i < lines.len() ==> avf_header(#[trigger] lines[i]) is None {
            assert forall|i: int| 0 <= i < rest.len() implies avf_header(
                #[trigger] rest[i],
            ) is None by {
                assert(rest[i] == lines[i + 1]);
            }
        }
    }
}

/// Of the signs of a category the first that a name shows decides; a name without any is that
/// of a camera or a microphone.
pub proof fn the_first_sign_decides(hits: Seq<bool>)
    ensures
        hits.len() == 5 ==> {
            let c = chosen_category(hits, DeviceKind::Video);
            &&& hits[0] ==> c == "screen"@
            &&& !hits[0] && hits[1] ==> c == "capture_card"@
            &&& !hits[0] && !hits[1] && hits[2] ==> c == "ndi"@
            &&& !hits[0] && !hits[1] && !hits[2] && hits[3] ==> c == "iphone"@
            &&& !hits[0] && !hits[1] && !hits[2] && !hits[3] && hits[4] ==> c == "virtual"@
            &&& !hits[0] && !hits[1] && !hits[2] && !hits[3] && !hits[4] ==> c == "camera"@
        },
        hits.len() == 2 ==> {
            let c = chosen_category(hits, DeviceKind::Audio);
            &&& hits[0] ==> c == "ndi"@
            &&& !hits[0] && hits[1] ==> c == "virtual"@
            &&& !hits[0] && !hits[1] ==> c == "microphone"@
        },
{
}

/// A marker tells what a device captures: video, audio or both; one that says neither counts
/// as video. Without a marker the heading tells.
pub proof fn markers_tell_the_kind(m: Seq<char>, section: Option<DeviceKind>)
    ensures
        dshow_kinds(Some(m), section).audio <==> marked(m, "audio"@),
        marked(m, "video"@) ==> dshow_kinds(Some(m), section).video,
        !marked(m, "video"@) && marked(m, "audio"@) ==> !dshow_kinds(Some(m), section).video,
        !marked(m, "video"@) && !marked(m, "audio"@) ==> (dshow_kinds(Some(m), section).video
            <==> marked(m, "none"@)),
        dshow_kinds(None, Some(DeviceKind::Video)).video,
        !dshow_kinds(None, Some(DeviceKind::Video)).audio,
        dshow_kinds(None, Some(DeviceKind::Audio)).audio,
        !dshow_kinds(None, Some(DeviceKind::Audio)).video,
{
}

/// The desktop stands before all devices, which move up by one and stay what they are.
pub proof fn the_desktop_stands_first(v: Seq<DeviceModel>, i: int)
    requires
        0 <= i < v.len(),
    ensures
        ({
            let w = with_desktop_models(v);
            &&& w.len() == v.len() + 1
            &&& w[0].index == 0 && w[0].category == "screen"@ && w[0].kind == DeviceKind::Video
            &&& w[i + 1].name == v[i].name && w[i + 1].index == v[i].index + 1 && w[i + 1].kind
                == v[i].kind && w[i + 1].category == v[i].category
        }),
{
}

proof fn first_on_is(v: Seq<bool>)
    ensures
        match first_on(v) {
            Some(i) => 0 <= i < v.len() && v[i] && forall|j: int| 0 <= j < i ==> !#[trigger] v[j],
            None => forall|j: int| 0 <= j < v.len() ==> !#[trigger] v[j],
        },
    decreases v.len(),
{
    if v.len() > 0 {
        let w = v.drop_last();
        first_on_is(w);
        assert forall|j: int| 0 <= j < w.len() implies w[j] == #[trigger] v[j] by {}
        assert(v[v.len() - 1] == v.last());
    }
}

/// What is preferred most and there is picked, the first if there are more. With nothing
/// preferred there, it is the first that is not to be passed over, or else the first.
pub proof fn the_most_preferred_is_picked(prefs: Seq<Seq<bool>>, skip: Seq<bool>, k: int)
    requires
        0 <= k <= prefs.len(),
        forall|a: int, b: int| 0 <= a < k && 0 <= b < prefs[a].len() ==> !#[trigger] prefs[a][b],
    ensures
        k < prefs.len() && (exists|b: int| 0 <= b < prefs[k].len() && #[trigger] prefs[k][b]) ==> (
        preferred(prefs, skip) matches Some(i) && 0 <= i < prefs[k].len() && prefs[k][i]
            && forall|j: int| 0 <= j < i ==> !#[trigger] prefs[k][j]),
        k == prefs.len() && (exists|b: int| 0 <= b < skip.len() && !#[trigger] skip[b]) ==> (
        preferred(prefs, skip) matches Some(i) && 0 <= i < skip.len() && !skip[i] && forall|j: int|
            0 <= j < i ==> #[trigger] skip[j]),
        k == prefs.len() && (forall|b: int| 0 <= b < skip.len() ==> #[trigger] skip[b])
            ==> preferred(prefs, skip) == (if skip.len() > 0 {
            Some(0int)
        } else {
            None
        }),
    decreases prefs.len(),
{
    if prefs.len() > 0 {
        first_on_is(prefs[0]);
        if k > 0 {
            let rest = prefs.drop_first();
            assert forall|a: int, b: int| 0 <= a < k - 1 && 0 <= b < rest[a].len() implies
                !#[trigger] rest[a][b] by {
                assert(!prefs[a + 1][b]);
            }
            if let Some(i) = first_on(prefs[0]) {
                assert(!prefs[0][i]);
            }
            the_most_preferred_is_picked(rest, skip, k - 1);
            if k < prefs.len() {
                assert(rest[k - 1] == prefs[k]);
            }
        }
    } else {
        let open = Seq::new(skip.len(), |i: int| !skip[i]);
        first_on_is(open);
        if exists|b: int| 0 <= b < skip.len() && !#[trigger] skip[b] {
            let b = choose|b: int| 0 <= b < skip.len() && !#[trigger] skip[b];
            assert(open[b]);
        }
        if let Some(i) = first_on(open) {
            assert forall|j: int| 0 <= j < i implies #[trigger] skip[j] by {
                assert(!open[j]);
            }
        }
    }
}

/// An encoder begins with the devices that are the defaults of the machine; if there is none,
/// it stays as it is.
pub proof fn encoders_begin_with_the_default_devices(
    s: EncoderModel,
    video: Seq<DeviceModel>,
    audio: Seq<DeviceModel>,
)
    ensures
        ({
            let r = with_default_devices(s, video, audio);
            &&& default_video(video) matches Some(i) ==> r.av_video_name == video[i].name
                && r.av_video_index == video[i].index as i32
            &&& default_audio(audio) matches Some(i) ==> r.av_audio_name == audio[i].name
                && r.av_audio_index == audio[i].index as i32
            &&& default_video(video) is None && default_audio(audio) is None ==> r == s
            &&& r == EncoderModel {
                av_video_index: r.av_video_index,
                av_video_name: r.av_video_name,
                av_audio_index: r.av_audio_index,
                av_audio_name: r.av_audio_name,
                ..s
            }
        }),
{
}

/// An OMT address gives the host and then, in brackets, the name.
pub proof fn addresses_give_host_and_name(host: Seq<char>, name: Seq<char>)
    requires
        lacks(host, ' '),
        name.len() > 0,
        name.last() != ')',
    ensures
        omt_host(host + " ("@ + name + ")"@) == Some(host),
        omt_name(host + " ("@ + name + ")"@) == name,
{
    reveal_strlit(" (");
    reveal_strlit(")");
    let a = host + " ("@ + name + ")"@;
    let n = host.len() as int;
    assert(a.subrange(n, n + 2) =~= " ("@);
    found_at(a, n, 0);
    assert(a.take(n) =~= host);
    let t = a.skip(n + 2);
    assert(t =~= name + ")"@);
    assert(t.last() == ')');
    assert(t.drop_last() =~= name);
    reveal_with_fuel(without_last, 3);
}

proof fn found_at(a: Seq<char>, n: int, from: int)
    requires
        0 <= from <= n,
        matches_at(a, " ("@, n),
        forall|j: int| 0 <= j < n ==> a[j] != ' ',
    ensures
        found_from(a, " ("@, from) == Some(n),
    decreases n - from,
{
    reveal_strlit(" (");
    if from < n {
        if matches_at(a, " ("@, from) {
            assert(a.subrange(from, from + 2)[0] == a[from]);
        }
        found_at(a, n, from + 1);
    }
}

/// A sender is found by its name: the first address that has it.
pub proof fn senders_are_found_by_name(v: Seq<Seq<char>>, name: Seq<char>)
    ensures
        match address_named(v, name) {
            Some(i) => 0 <= i < v.len() && omt_name(v[i]) == name && forall|j: int|
                0 <= j < i ==> omt_name(#[trigger] v[j]) != name,
            None => forall|j: int| 0 <= j < v.len() ==> omt_name(#[trigger] v[j]) != name,
        },
    decreases v.len(),
{
    if v.len() > 0 {
        let w = v.drop_last();
        senders_are_found_by_name(w, name);
        assert forall|j: int| 0 <= j < w.len() implies w[j] == #[trigger] v[j] by {}
        assert(v[v.len() - 1] == v.last());
    }
}

// ---------------------------------------------------------------------------
// Programs, ports and times
// ---------------------------------------------------------------------------

/// The program that was named goes before the one beside the encoder, if it exists; that one
/// goes before the one that the system finds.
pub proof fn named_programs_go_first(
    named: Option<Seq<char>>,
    exists_there: bool,
    beside: Option<Seq<char>>,
    found: Option<Seq<char>>,
)
    ensures
        ({
            let usable = exists_there && (named matches Some(n) && n.len() > 0);
            let r = picked_program(named, exists_there, beside, found);
            &&& usable ==> r == named
            &&& !usable && beside is Some ==> r == beside
            &&& !usable && beside is None ==> r == found
        }),
        bundled("ffmpeg"@, true)[0] == "sidecar/"@ + "ffmpeg"@ + ".exe"@,
        bundled("ffmpeg"@, false)[1] == "ffmpeg"@,
{
    assert("ffmpeg"@ + Seq::<char>::empty() =~= "ffmpeg"@);
}

/// The ports of the encoders lie four apart, as far as there are ports.
pub proof fn ports_lie_four_apart(start: u16, i: int)
    requires
        0 <= i,
        start + 4 * (i + 1) <= u16::MAX,
    ensures
        tile_port(start, 0) == start,
        tile_port(start, i + 1) == tile_port(start, i) + 4,
{
}

/// The title tells both ports, and the instance if it has a name.
pub proof fn titles_tell_the_ports(name: Seq<char>, http: u16, bmd: u16)
    ensures
        finishes(
            title(name, http, bmd),
            "  ·  http :"@ + decimal(http as nat) + "  ·  bmd :"@ + decimal(bmd as nat),
        ),
        name == "default"@ ==> title(name, http, bmd) == "ATEM IP Patchbay"@ + ("  ·  http :"@
            + decimal(http as nat) + "  ·  bmd :"@ + decimal(bmd as nat)),
        name != "default"@ ==> begins(
            title(name, http, bmd),
            "ATEM IP Patchbay"@ + " ["@ + name + "]"@,
        ),
{
    let t = title(name, http, bmd);
    let tail = "  ·  http :"@ + decimal(http as nat) + "  ·  bmd :"@ + decimal(bmd as nat);
    assert(t.subrange(t.len() - tail.len(), t.len() as int) =~= tail);
    if name == "default"@ {
        assert(t =~= "ATEM IP Patchbay"@ + tail);
    } else {
        let head = "ATEM IP Patchbay"@ + " ["@ + name + "]"@;
        assert(t.subrange(0, head.len() as int) =~= head);
    }
}

/// A file with a name before the ending is one of a service.
pub proof fn service_files_are_known_by_their_ending(stem: Seq<char>)
    ensures
        names_xml(stem + ".xml"@) <==> stem.len() > 0,
{
    reveal_strlit(".xml");
    reveal_strlit("xml");
    let n = stem + ".xml"@;
    last_position_is(n, '.', stem.len() as int);
    assert(n.skip(stem.len() as int + 1) =~= "xml"@);
}

/// A moment is read in the order of its parts, from the year to the second; a day has eighty-six
/// thousand four hundred seconds, an hour thirty-six hundred, a minute sixty.
pub proof fn moments_are_read_in_order(d: Seq<Seq<char>>, t: Seq<Seq<char>>, a: Moment, b: Moment)
    ensures
        moment_of(d, t) matches Some(m) ==> {
            &&& parsed_signed(d[0]) == Some(m.year)
            &&& parsed_signed(d[1]) == Some(m.month)
            &&& parsed_signed(d[2]) == Some(m.day)
            &&& parsed_signed(t[0]) == Some(m.hour)
            &&& parsed_signed(t[1]) == Some(m.minute)
            &&& t.len() > 2 && parsed_signed(t[2]) is Some
                ==> parsed_signed(t[2]) == Some(m.second)
        },
        a.year == b.year && a.month == b.month && a.day == b.day ==> second_number(a)
            - second_number(b) == (a.hour - b.hour) * 3600 + (a.minute - b.minute) * 60 + (a.second
            - b.second),
{
}

// ---------------------------------------------------------------------------
// Cards on trial
// ---------------------------------------------------------------------------

/// A trial plays the test picture at the rate of the mode, for the time, to the device, in the
/// mode.
#[verifier::rlimit(60)]
pub proof fn trials_play_to_the_card(device: Seq<char>, secs: u64, code: Seq<char>)
    ensures
        ({
            let a = trial_args(device, secs, code);
            let b = a.skip(1);
            &&& a.last() == device
            &&& told(b, "-format_code"@) == seq![code]
            &&& told(b, "-t"@) == seq![decimal(secs as nat)]
            &&& told(b, "-i"@).len() == 2
            &&& begins(
                told(b, "-i"@)[0],
                "testsrc2=size=1920x1080:rate="@ + mode_rate(code) + ":duration="@ + decimal(
                    secs as nat,
                ),
            )
        }),
        mode_rate("Hp25"@) == "25"@ && mode_rate("Hp30"@) == "30"@ && mode_rate("Hp50"@) == "50"@
            && mode_rate("Hp60"@) == "60"@ && mode_rate("Hp59"@) == "60000/1001"@ && mode_rate(
            "Hp29"@,
        ) == "30000/1001"@,
{
    trial_flags_differ();
    codes_differ();
    reveal_with_fuel(told_from, 16);
    let a = trial_args(device, secs, code);
    let b = a.skip(1);
    assert(b.len() == 29);
    assert(b[0] == "-loglevel"@);
    assert(b[2] == "-stats_period"@);
    assert(b[4] == "-f"@);
    assert(b[6] == "-i"@);
    assert(b[8] == "-f"@);
    assert(b[10] == "-i"@);
    assert(b[12] == "-vf"@);
    assert(b[14] == "-c:v"@);
    assert(b[16] == "-c:a"@);
    assert(b[18] == "-ar"@);
    assert(b[20] == "-ac"@);
    assert(b[22] == "-t"@);
    assert(b[24] == "-f"@);
    assert(b[26] == "-format_code"@);
    assert(told(b, "-format_code"@) =~= seq![b[27]]);
    assert(told(b, "-t"@) =~= seq![b[23]]);
    assert(told(b, "-i"@) =~= seq![b[7], b[11]]);
    let x = b[7];
    assert(x.subrange(0, x.len() as int) =~= x);
}

proof fn trial_flags_differ()
    ensures
        "-format_code"@ != "-loglevel"@,
        "-format_code"@ != "-stats_period"@,
        "-format_code"@ != "-f"@,
        "-format_code"@ != "-i"@,
        "-format_code"@ != "-vf"@,
        "-format_code"@ != "-c:v"@,
        "-format_code"@ != "-c:a"@,
        "-format_code"@ != "-ar"@,
        "-format_code"@ != "-ac"@,
        "-format_code"@ != "-t"@,
        "-t"@ != "-loglevel"@,
        "-t"@ != "-stats_period"@,
        "-t"@ != "-f"@,
        "-t"@ != "-i"@,
        "-t"@ != "-vf"@,
        "-t"@ != "-c:v"@,
        "-t"@ != "-c:a"@,
        "-t"@ != "-ar"@,
        "-t"@ != "-ac"@,
        "-i"@ != "-loglevel"@,
        "-i"@ != "-stats_period"@,
        "-i"@ != "-f"@,
        "-i"@ != "-vf"@,
        "-i"@ != "-c:v"@,
        "-i"@ != "-c:a"@,
        "-i"@ != "-ar"@,
        "-i"@ != "-ac"@,
{
    reveal_strlit("-format_code");
    reveal_strlit("-t");
    reveal_strlit("-i");
    reveal_strlit("-loglevel");
    reveal_strlit("-stats_period");
    reveal_strlit("-f");
    reveal_strlit("-vf");
    reveal_strlit("-c:v");
    reveal_strlit("-c:a");
    reveal_strlit("-ar");
    reveal_strlit("-ac");
    assert("-format_code"@.len() == 12);
    assert("-t"@.len() == 2);
    assert("-i"@.len() == 2);
    assert("-loglevel"@.len() == 9);
    assert("-stats_period"@.len() == 13);
    assert("-f"@.len() == 2);
    assert("-vf"@.len() == 3);
    assert("-c:v"@.len() == 4);
    assert("-c:a"@.len() == 4);
    assert("-ar"@.len() == 3);
    assert("-ac"@.len() == 3);
    assert("-t"@[1] == 't');
    assert("-f"@[1] == 'f');
    assert("-i"@[1] == 'i');
}

proof fn codes_differ()
    ensures
        "Hp25"@ != "Hp30"@,
        "Hp25"@ != "Hp50"@,
        "Hp25"@ != "Hp60"@,
        "Hp25"@ != "Hp59"@,
        "Hp25"@ != "Hp29"@,
        "Hp30"@ != "Hp50"@,
        "Hp30"@ != "Hp60"@,
        "Hp30"@ != "Hp59"@,
        "Hp30"@ != "Hp29"@,
        "Hp50"@ != "Hp60"@,
        "Hp50"@ != "Hp59"@,
        "Hp50"@ != "Hp29"@,
        "Hp60"@ != "Hp59"@,
        "Hp60"@ != "Hp29"@,
        "Hp59"@ != "Hp29"@,
{
    reveal_strlit("Hp25");
    reveal_strlit("Hp30");
    reveal_strlit("Hp50");
    reveal_strlit("Hp60");
    reveal_strlit("Hp59");
    reveal_strlit("Hp29");
    assert("Hp25"@.len() == 4);
    assert("Hp30"@.len() == 4);
    assert("Hp50"@.len() == 4);
    assert("Hp60"@.len() == 4);
    assert("Hp59"@.len() == 4);
    assert("Hp29"@.len() == 4);
    assert("Hp25"@[2] == '2');
    assert("Hp30"@[2] == '3');
    assert("Hp50"@[2] == '5');
    assert("Hp60"@[2] == '6');
    assert("Hp59"@[2] == '5');
    assert("Hp25"@[3] == '5');
    assert("Hp29"@[3] == '9');
    assert("Hp29"@[2] == '2');
    assert("Hp50"@[3] == '0');
    assert("Hp59"@[3] == '9');
}

/// Each word of a line of progress goes to the figure of its name.
pub proof fn words_go_to_their_figure(m: WordsModel, value: Seq<char>, n: u64)
    ensures
        assigned(m, "frame"@, decimal(n as nat)) == (WordsModel { frames: n, ..m }),
        is_float_text(value) ==> assigned(m, "fps"@, value) == (WordsModel {
            fps: Some(value),
            ..m
        }),
        is_float_text(value) ==> assigned(m, "bitrate"@, value + "kbits/s"@) == (WordsModel {
            bitrate: Some(value),
            ..m
        }),
{
    figure_words_differ();
    parsed_decimal(n as nat, u64::MAX as int);
    let k = "kbits/s"@;
    let v = value + k;
    assert(v.subrange(v.len() - k.len(), v.len() as int) =~= k);
    assert(v.take(v.len() - k.len()) =~= value);
}

proof fn figure_words_differ()
    ensures
        "frame"@ != "fps"@,
        "frame"@ != "bitrate"@,
        "fps"@ != "bitrate"@,
{
    reveal_strlit("frame");
    reveal_strlit("fps");
    reveal_strlit("bitrate");
    assert("frame"@.len() == 5);
    assert("fps"@.len() == 3);
    assert("bitrate"@.len() == 7);
}

/// A line of a trial changes what it tells of, and no more: frames never go back, and a line
/// that tells of a fault is no progress.
pub proof fn trials_follow_their_lines(m: TileModel, told_line: SpikeLine, has_rate: bool, now: u64)
    ensures
        ({
            let r = after_line(m, told_line, has_rate, now);
            &&& r.frames >= m.frames
            &&& r.device == m.device && r.idx == m.idx && r.alive == m.alive && r.exit_status
                == m.exit_status && r.started_at == m.started_at
            &&& told_line is Negotiated ==> r.decklink_negotiated && r.last_progress == now
            &&& told_line matches SpikeLine::Progress(p) ==> {
                &&& p.frames >= m.frames ==> r.frames == p.frames
                &&& r.fps == opt_text(p.fps)
                &&& has_rate ==> r.bitrate_kbps == opt_text(p.bitrate)
                &&& !has_rate ==> r.bitrate_kbps == m.bitrate_kbps
                &&& r.last_progress == now
            }
            &&& told_line matches SpikeLine::Fault(e) ==> r.last_err_line == Some(e@)
                && r.last_progress == m.last_progress && r.frames == m.frames
            &&& told_line is Other ==> r == m
        }),
{
}

/// A card has stalled if it has made no progress for fifteen seconds; one that was given up
/// cannot. A card is given up once, for the first reason.
pub proof fn stalled_cards_are_given_up(m: TileModel, now: u64, why: Seq<char>, other: Seq<char>)
    requires
        m.last_progress <= now,
    ensures
        m.alive ==> (is_stalled(m, now) <==> now - m.last_progress >= 15_000_000_000),
        !m.alive ==> !is_stalled(m, now) && given_up(m, why) == m,
        m.alive ==> !given_up(m, why).alive && given_up(m, why).exit_status == Some(why),
        given_up(given_up(m, why), other) == given_up(m, why),
        !is_stalled(fresh_tile(m.idx, m.device, now), now),
        fresh_tile(m.idx, m.device, now).alive,
{
}

// ---------------------------------------------------------------------------
// What is listed and printed
// ---------------------------------------------------------------------------

/// The devices of DirectShow are numbered as they are listed, and all are of the kind that is
/// asked for.
pub proof fn windows_devices_are_numbered(
    lines: Seq<Seq<char>>,
    section: Option<DeviceKind>,
    kind: DeviceKind,
    n: int,
)
    ensures
        forall|i: int|
            0 <= i < dshow_devices(lines, section, kind, n).len() ==> (#[trigger] dshow_devices(
                lines,
                section,
                kind,
                n,
            )[i]).index == n + i && dshow_devices(lines, section, kind, n)[i].kind == kind,
    decreases lines.len(),
{
    if lines.len() > 0 {
        let rest = lines.drop_first();
        let next = match dshow_header(lines[0]) {
            Some(k) => Some(k),
            None => section,
        };
        windows_devices_are_numbered(rest, next, kind, n);
        windows_devices_are_numbered(rest, next, kind, n + 1);
        let v = dshow_devices(lines, section, kind, n);
        let w = dshow_devices(rest, next, kind, n + 1);
        assert forall|i: int| 0 <= i < v.len() implies (#[trigger] v[i]).index == n + i
            && v[i].kind == kind by {
            if v.len() == w.len() + 1 && v.skip(1) =~= w {
                if i > 0 {
                    assert(v[i] == w[i - 1]);
                }
            }
        }
    }
}

/// A heading of DirectShow tells the kind of the devices under it.
pub proof fn windows_headings_tell_the_kind(line: Seq<char>)
    ensures
        holds(lowered(line), "directshow video devices"@) ==> dshow_header(line) == Some(
            DeviceKind::Video,
        ),
        !holds(lowered(line), "directshow video devices"@) && holds(
            lowered(line),
            "directshow audio devices"@,
        ) ==> dshow_header(line) == Some(DeviceKind::Audio),
        !holds(lowered(line), "directshow video devices"@) && !holds(
            lowered(line),
            "directshow audio devices"@,
        ) ==> dshow_header(line) is None,
{
}

/// A device has the category of the first sign that its name shows, whichever way it is found.
pub proof fn names_show_their_category(name: Seq<char>)
    ensures
        category_of(name, DeviceKind::Video) == chosen_category(
            seq![
                pattern_matches(r"(?i)capture screen|desk view|screen capture|desktop"@, name),
                pattern_matches(
                    r"(?i)ultrastudio|decklink|intensity|aja|magewell|elgato|epiphan|wdm capture|blackmagic"@,
                    name,
                ),
                pattern_matches(r"(?i)\bndi\b"@, name),
                pattern_matches(r"(?i)iphone|ipad"@, name),
                pattern_matches(r"(?i)virtual|obs|sysram|loopback|syphon|vmix"@, name),
            ],
            DeviceKind::Video,
        ),
        category_of(name, DeviceKind::Audio) == chosen_category(
            seq![
                pattern_matches(r"(?i)\bndi\b"@, name),
                pattern_matches(
                    r"(?i)virtual|loopback|aggregate|blackhole|soundflower|background music|stereo mix|vmix"@,
                    name,
                ),
            ],
            DeviceKind::Audio,
        ),
{
}

/// A number is written with a point: whole before it, and then the decimals.
pub open spec fn is_with_point(s: Seq<char>, whole: nat, decimals: Seq<char>) -> bool {
    s == decimal(whole) + "."@ + decimals
}

/// A rate that is a whole number, or less than a thousandth more, is printed as that number.
/// One that is not near a whole number is printed with three decimals, which are right to half
/// a thousandth.
#[verifier::rlimit(60)]
pub proof fn rates_are_printed_to_the_thousandth(fps: u64)
    ensures
        fps % 1_000_000 < 1_000 ==> rate_text(fps) == decimal(fps as nat / 1_000_000),
        1_000 <= fps % 1_000_000 <= 999_000 ==> exists|w: nat, f: Seq<char>|
            {
                &&& #[trigger] is_with_point(rate_text(fps), w, f)
                &&& f.len() == 3 && all_digits(f)
                &&& -500 <= (w * 1_000 + digits_value(f)) * 1_000 - fps <= 500
            },
{
    if 1_000 <= fps % 1_000_000 <= 999_000 {
        let t = (fps as nat + 500) / 1_000;
        let r = t % 1_000;
        let d = decimal(1_000 + r);
        reveal_with_fuel(decimal, 5);
        let f = d.skip(1);
        decimal_is_digits(1_000 + r);
        assert(d.len() == 4);
        assert(f =~= seq![d[1], d[2], d[3]]);
        assert(d[3] == digit(r % 10));
        assert(d[2] == digit((r / 10) % 10));
        assert(d[1] == digit(r / 100));
        assert(seq![d[1], d[2], d[3]].drop_last() =~= seq![d[1], d[2]]);
        assert(seq![d[1], d[2]].drop_last() =~= seq![d[1]]);
        assert(seq![d[1]].drop_last().len() == 0);
        reveal_with_fuel(digits_value, 5);
        assert(digits_value(f) == r);
        let w = t / 1_000;
        assert(w * 1_000 + r == t);
        assert(is_with_point(rate_text(fps), w, f));
    }
}

/// An encoder is known if and only if a line of the list gives it: its second word, where the
/// first tells of video.
pub proof fn listed_encoders_are_known(lines: Seq<Seq<char>>, name: Seq<char>)
    ensures
        encoders_on(lines).contains(name) <==> exists|i: int|
            0 <= i < lines.len() && encoder_on(#[trigger] lines[i]) == Some(name),
    decreases lines.len(),
{
    if lines.len() > 0 {
        let w = lines.drop_last();
        listed_encoders_are_known(w, name);
        let a = encoders_on(lines);
        let b = encoders_on(w);
        assert(lines[lines.len() - 1] == lines.last());
        assert forall|i: int| 0 <= i < w.len() implies w[i] == #[trigger] lines[i] by {}
        if a.contains(name) {
            let k = choose|k: int| 0 <= k < a.len() && a[k] == name;
            if k < b.len() {
                assert(b[k] == name);
                assert(b.contains(name));
                let i = choose|i: int| 0 <= i < w.len() && encoder_on(#[trigger] w[i]) == Some(name);
                assert(encoder_on(lines[i]) == Some(name));
            } else {
                assert(encoder_on(lines[lines.len() - 1]) == Some(name));
            }
        }
        if exists|i: int| 0 <= i < lines.len() && encoder_on(#[trigger] lines[i]) == Some(name) {
            let i = choose|i: int|
                0 <= i < lines.len() && encoder_on(#[trigger] lines[i]) == Some(name);
            if i < w.len() {
                assert(encoder_on(w[i]) == Some(name));
                let k = choose|k: int| 0 <= k < b.len() && b[k] == name;
                assert(a[k] == name);
            } else {
                assert(a[b.len() as int] == name);
            }
        }
    }
}

/// The encoder on a line is its second word, and the first begins with the sign for video.
pub proof fn encoders_stand_behind_their_sign(line: Seq<char>)
    ensures
        encoder_on(line) matches Some(n) ==> words_of(line).len() >= 2 && words_of(line)[1] == n
            && words_of(line)[0].len() > 0 && words_of(line)[0][0] == 'V',
{
}

/// A moment is read as it is written: the date with hyphens, a T, the time with colons, a Z.
#[verifier::rlimit(60)]
pub proof fn moments_are_read_as_written(m: Moment)
    requires
        0 <= m.year <= 9999,
        0 <= m.month <= 99,
        0 <= m.day <= 99,
        0 <= m.hour <= 99,
        0 <= m.minute <= 99,
        0 <= m.second <= 99,
    ensures
        ({
            let date = decimal(m.year as nat) + seq!['-'] + (decimal(m.month as nat) + seq!['-']
                + decimal(m.day as nat));
            let time = decimal(m.hour as nat) + seq![':'] + (decimal(m.minute as nat) + seq![':']
                + decimal(m.second as nat));
            told_moment(date + seq!['T'] + time + seq!['Z']) == Some(m)
        }),
{
    let (y, o, d) = (decimal(m.year as nat), decimal(m.month as nat), decimal(m.day as nat));
    let (h, n, s) = (decimal(m.hour as nat), decimal(m.minute as nat), decimal(m.second as nat));
    number_is_read(m.year);
    number_is_read(m.month);
    number_is_read(m.day);
    number_is_read(m.hour);
    number_is_read(m.minute);
    number_is_read(m.second);
    let a = seq!['-'];
    let c = seq![':'];
    let date = y + a + (o + a + d);
    let time = h + c + (n + c + s);
    let head = date + seq!['T'] + time;
    let all = head + seq!['Z'];
    assert forall|i: int| 0 <= i < all.len() implies all[i] != '.' && all[i] != '+' by {
        written_char(y, o, d, h, n, s, i);
    }
    position_is(all, '.', all.len() as int);
    assert(all.take(all.len() as int) =~= all);
    assert(up_to(all, '.') == all);
    assert(all.last() == 'Z');
    assert(all.drop_last() =~= head);
    reveal_with_fuel(without_last, 3);
    let last = head.last();
    assert(last == s[s.len() - 1]);
    assert(is_digit(s[s.len() - 1]));
    assert(without_last(all, 'Z') == head);
    assert(without_last(head, '+') == head);
    assert(without_last(head, '-') == head);
    assert forall|i: int| 0 <= i < head.len() implies head[i] != '+' by {
        assert(head[i] == all[i]);
    }
    position_is(head, '+', head.len() as int);
    assert(head.take(head.len() as int) =~= head);
    assert(up_to(head, '+') == head);
    let k = date.len() as int;
    assert forall|i: int| 0 <= i < k implies head[i] != 'T' by {
        assert(head[i] == date[i]);
        written_char(y, o, d, h, n, s, i);
        assert(all[i] == date[i]);
    }
    assert(head[k] == 'T');
    position_is(head, 'T', k);
    assert(head.take(k) =~= date);
    assert(head.skip(k + 1) =~= time);
    first_piece_is(y, o + a + d, '-');
    first_piece_is(o, d, '-');
    only_piece_is(d, '-');
    first_piece_is(h, n + c + s, ':');
    first_piece_is(n, s, ':');
    only_piece_is(s, ':');
    assert(pieces(date, '-') =~= seq![y, o, d]);
    assert(pieces(time, ':') =~= seq![h, n, s]);
}

/// What a written moment is made of.
#[verifier::rlimit(60)]
proof fn written_char(
    y: Seq<char>,
    o: Seq<char>,
    d: Seq<char>,
    h: Seq<char>,
    n: Seq<char>,
    s: Seq<char>,
    i: int,
)
    requires
        all_digits(y) && all_digits(o) && all_digits(d) && all_digits(h) && all_digits(n)
            && all_digits(s),
        ({
            let date = y + seq!['-'] + (o + seq!['-'] + d);
            let time = h + seq![':'] + (n + seq![':'] + s);
            0 <= i < (date + seq!['T'] + time + seq!['Z']).len()
        }),
    ensures
        ({
            let date = y + seq!['-'] + (o + seq!['-'] + d);
            let time = h + seq![':'] + (n + seq![':'] + s);
            let x = (date + seq!['T'] + time + seq!['Z'])[i];
            &&& is_digit(x) || x == '-' || x == ':' || x == 'T' || x == 'Z'
            &&& i < date.len() ==> is_digit(x) || x == '-'
        }),
{
    let date = y + seq!['-'] + (o + seq!['-'] + d);
    let time = h + seq![':'] + (n + seq![':'] + s);
    let all = date + seq!['T'] + time + seq!['Z'];
    let l = date.len() as int;
    if i < l {
        assert(all[i] == date[i]);
        if i < y.len() {
            assert(date[i] == y[i]);
        } else if i > y.len() && i < y.len() + 1 + o.len() {
            assert(date[i] == o[i - y.len() - 1]);
        } else if i > y.len() + 1 + o.len() {
            assert(date[i] == d[i - y.len() - 2 - o.len()]);
        }
    } else if i > l && i < l + 1 + time.len() {
        let j = i - l - 1;
        assert(all[i] == time[j]);
        if j < h.len() {
            assert(time[j] == h[j]);
        } else if j > h.len() && j < h.len() + 1 + n.len() {
            assert(time[j] == n[j - h.len() - 1]);
        } else if j > h.len() + 1 + n.len() {
            assert(time[j] == s[j - h.len() - 2 - n.len()]);
        }
    }
}

proof fn number_is_read(n: int)
    requires
        0 <= n <= 9999,
    ensures
        parsed_signed(decimal(n as nat)) == Some(n),
        all_digits(decimal(n as nat)),
        decimal(n as nat).len() > 0,
        lacks(decimal(n as nat), '-'),
        lacks(decimal(n as nat), ':'),
{
    decimal_is_digits(n as nat);
    parsed_decimal(n as nat, i64::MAX as int);
    assert(!is_digit('-') && !is_digit(':'));
    assert(is_digit(decimal(n as nat)[0]));
}

/// A trial passes if and only if no card was given up; else it tells how many were, and of how
/// many.
pub proof fn trials_end_with_a_verdict(v: Seq<TileModel>, secs: u64)
    ensures
        dead_count(v) == 0 ==> begins(
            verdict_lines(v, secs)[0],
            "PASS: all "@ + decimal(v.len()) + " child(ren) held"@,
        ),
        dead_count(v) > 0 ==> begins(
            verdict_lines(v, secs)[0],
            "FAIL: "@ + decimal(dead_count(v)) + " of "@ + decimal(v.len()),
        ),
        dead_count(v) <= v.len(),
{
    dead_are_some(v);
    let t = verdict_lines(v, secs)[0];
    if dead_count(v) == 0 {
        reveal_strlit(" child(ren) held");
        reveal_strlit(" child(ren) held their DeckLink output for the full ");
        let h = "PASS: all "@ + decimal(v.len()) + " child(ren) held"@;
        assert(t.subrange(0, h.len() as int) =~= h);
    } else {
        let h = "FAIL: "@ + decimal(dead_count(v)) + " of "@ + decimal(v.len());
        assert(t.subrange(0, h.len() as int) =~= h);
    }
}

proof fn dead_are_some(v: Seq<TileModel>)
    ensures
        dead_count(v) <= v.len(),
        dead_count(v) == 0 <==> forall|i: int| 0 <= i < v.len() ==> (#[trigger] v[i]).alive,
    decreases v.len(),
{
    if v.len() > 0 {
        let w = v.drop_last();
        dead_are_some(w);
        assert forall|i: int| 0 <= i < w.len() implies w[i] == #[trigger] v[i] by {}
        assert(v[v.len() - 1] == v.last());
    }
}

/// An option of a trial has the value that follows the first time it is named.
pub proof fn trial_options_have_their_value(v: Seq<Seq<char>>, name: Seq<char>, i: int)
    requires
        0 <= i < v.len(),
        v[i] == name,
        forall|j: int| 0 <= j < i ==> #[trigger] v[j] != name,
    ensures
        value_of(v, name) == (if i + 1 < v.len() {
            Some(v[i + 1])
        } else {
            None
        }),
    decreases v.len(),
{
    if i > 0 {
        let w = v.drop_first();
        assert(v[0] != name);
        assert forall|j: int| 0 <= j < i - 1 implies #[trigger] w[j] != name by {
            assert(w[j] == v[j + 1]);
        }
        trial_options_have_their_value(w, name, i - 1);
    }
}

/// A scan is used for a minute, and no longer.
pub proof fn scans_are_used_for_a_minute(at: u64, now: u64)
    requires
        at <= now,
    ensures
        is_fresh(Some(at), now) <==> now - at < 60,
        !is_fresh(None, now),
{
}

/// The modes of a card are found by its name, the latest if there are more.
pub proof fn card_modes_are_found_by_name(v: Seq<CardModes>, name: Seq<char>, i: int)
    requires
        0 <= i < v.len(),
        v[i].name@ == name,
        forall|j: int| i < j < v.len() ==> (#[trigger] v[j]).name@ != name,
    ensures
        known_modes(v, name) == Some(mode_models(v[i].modes@)),
    decreases v.len(),
{
    if i < v.len() - 1 {
        let w = v.drop_last();
        assert(v[v.len() - 1].name@ != name);
        assert forall|j: int| i < j < w.len() implies (#[trigger] w[j]).name@ != name by {
            assert(w[j] == v[j]);
        }
        card_modes_are_found_by_name(w, name, i);
    }
}

/// A card that is listed is added once, by its name; a heading and an empty name are not.
pub proof fn listed_cards_are_added_once(
    names: Seq<Seq<char>>,
    c: Seq<Option<Seq<char>>>,
    headings: Seq<Seq<char>>,
)
    ensures
        ({
            let name = trimmed(group_text(c, 1));
            let heading = exists|i: int|
                0 <= i < headings.len() && same_ignoring_case(name, #[trigger] headings[i]);
            &&& name.len() > 0 && !heading && !names.contains(name) ==> name_added(
                names,
                Some(c),
                headings,
            ) == names.push(name)
            &&& name.len() == 0 || heading || names.contains(name) ==> name_added(
                names,
                Some(c),
                headings,
            ) == names
            &&& name_added(names, None, headings) == names
        }),
{
}

/// A name that would break a path is one with a slash of either kind, a colon or a null.
pub proof fn some_names_break_paths(s: Seq<char>, i: int)
    ensures
        0 <= i < s.len() && (s[i] == '/' || s[i] == '\\' || s[i] == ':' || s[i] == '\0')
            ==> has_bad_char(s),
        (forall|j: int|
            0 <= j < s.len() ==> #[trigger] s[j] != '/' && s[j] != '\\' && s[j] != ':' && s[j]
                != '\0') ==> !has_bad_char(s),
{
    if 0 <= i < s.len() && (s[i] == '/' || s[i] == '\\' || s[i] == ':' || s[i] == '\0') {
        assert(breaks_paths(s[i]));
    }
}

/// What is noted of a card on trial: why it was given up if it was, else its last fault, else
/// nothing once it has taken the mode.
pub proof fn notes_tell_the_trouble(m: TileModel)
    ensures
        !m.alive && m.exit_status is None ==> tile_note(m) == "dead"@,
        !m.alive ==> (m.exit_status matches Some(e) ==> (e.len() <= 60 ==> tile_note(m) == e)),
        m.alive ==> (m.last_err_line matches Some(e) ==> (e.len() <= 50 ==> tile_note(m)
            == "err: "@ + e)),
        m.alive && m.last_err_line is None && m.decklink_negotiated ==> tile_note(m).len() == 0,
        m.alive && m.last_err_line is None && !m.decklink_negotiated ==> begins(
            tile_note(m),
            "negotiating"@,
        ),
{
    reveal_strlit("negotiating decklink…");
    reveal_strlit("negotiating");
    if m.alive && m.last_err_line is None && !m.decklink_negotiated {
        assert(tile_note(m).subrange(0, 11) =~= "negotiating"@);
    }
}

/// A line of a trial that grows too long is cut where it has as many bytes as a line may have.
pub proof fn long_lines_are_cut(l: Lines, b: u8)
    requires
        l.rest.len() < 4096,
    ensures
        ({
            let r = limited_step(l, b);
            let ends = b == 10 || b == 13;
            &&& r.rest.len() < 4096
            &&& ends && l.rest.len() > 0 ==> r.lines == l.lines.push(l.rest) && r.rest.len() == 0
            &&& ends && l.rest.len() == 0 ==> r == l
            &&& !ends && l.rest.len() < 4095 ==> r.lines == l.lines && r.rest == l.rest.push(b)
            &&& !ends && l.rest.len() == 4095 ==> r.lines == l.lines.push(l.rest.push(b))
                && r.rest.len() == 0
        }),
{
}

} // verus!
