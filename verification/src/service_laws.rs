//! What holds of the services and of what a client is shown: each value is read from the
//! element that holds it, and shown under its own name.
use vstd::prelude::*;

use crate::loading::{file_name, pasted_name, registered};
use crate::number::{
    all_digits, decimal, decimal_is_digits, digits_value, parsed, parsed_decimal, two_digits,
};
use crate::reading::{first_piece_is, lacks, only_piece_is};
use crate::scan::{begins, finishes, pieces, trimmed};
use crate::services::{comes_before, lookup, service_names};
use crate::settings::video_modes;
use crate::snapshot::{
    active_config, active_server, duration_text, offered_servers, option_models, quality_levels,
    server_models, shows_choices, shows_settings, shows_stats, Snapshot, StatsSnapshot,
};
use crate::state::{EncoderModel, StreamStats};
use crate::text::{opt_text, texts};
use crate::xml::{
    attribute_or, config_at, configs_from, is_child, next_child, next_element, profile_at,
    profile_named, profiles_from, scheme_of, server_at, servers_from, service_at, service_place,
    srt_places, text_in, AttributeModel, ConfigModel, NodeModel, ProfileModel, ServerModel,
    ServiceModel,
};

verus! {

// ---------------------------------------------------------------------------
// What a client is shown
// ---------------------------------------------------------------------------

/// A client is shown each setting under its own name.
pub proof fn settings_are_shown_by_name(s: EncoderModel, n: Snapshot)
    requires
        shows_settings(s, n),
    ensures
        n.label@ == s.label,
        n.model@ == s.model,
        n.unique_id@ == s.unique_id,
        n.device_uuid@ == s.device_uuid,
        n.video_mode@ == s.video_mode,
        n.quality_level@ == s.quality_level,
        n.source_id@ == s.source_id,
        n.current_service_name@ == s.current_service_name,
        n.current_server_name@ == s.current_server_name,
        n.custom_url@ == s.custom_url,
        n.stream_key@ == s.stream_key,
        n.passphrase@ == s.passphrase,
        n.srt_mode@ == s.srt_mode,
        n.srt_latency_us == s.srt_latency_us,
        n.srt_listen_port == s.srt_listen_port,
        n.streamid_override@ == s.streamid_override,
        n.streamid_legacy == s.streamid_legacy,
        n.video_codec@ == s.video_codec,
        n.av_video_index == s.av_video_index,
        n.av_audio_index == s.av_audio_index,
        n.av_video_name@ == s.av_video_name,
        n.av_audio_name@ == s.av_audio_name,
        n.audio_mode@ == s.audio_mode,
        n.audio_output_mono == s.audio_output_mono,
        n.audio_pan_l == s.audio_pan_l,
        n.audio_pan_r == s.audio_pan_r,
        n.pipe_path@ == s.pipe_path,
        n.ndi_source_name@ == s.ndi_source_name,
        n.omt_source_name@ == s.omt_source_name,
        n.omt_output_enabled == s.omt_output_enabled,
        n.omt_output_name@ == s.omt_output_name,
        n.destination_type@ == s.destination_type,
        n.decklink_device_name@ == s.decklink_device_name,
        n.decklink_output_mode@ == s.decklink_output_mode,
        n.decklink_format_code@ == s.decklink_format_code,
        n.decklink_pixel_format@ == s.decklink_pixel_format,
        n.video_encoder@ == s.video_encoder,
        n.encoder_extra_flags@ == s.encoder_extra_flags,
        n.audio_codec@ == s.audio_codec,
        n.audio_bitrate_kbps == s.audio_bitrate_kbps,
        n.audio_sample_rate == s.audio_sample_rate,
        n.audio_channels == s.audio_channels,
        n.auto_reconnect == s.auto_reconnect,
        n.auto_reconnect_max_attempts == s.auto_reconnect_max_attempts,
        n.meters_enabled == s.meters_enabled,
        n.relay.bind_host@ == s.relay_bind_host,
        n.relay.srt_port == s.relay_srt_port,
        n.relay.srt_latency_us == s.relay_srt_latency_us,
        n.relay.srt_passphrase@ == s.relay_srt_passphrase,
        n.relay.rtmp_port == s.relay_rtmp_port,
        n.relay.rtmp_app@ == s.relay_rtmp_app,
        n.relay.rtmp_key@ == s.relay_rtmp_key,
        n.overlay.title@ == s.overlay_title,
        n.overlay.subtitle@ == s.overlay_subtitle,
        n.overlay.logo_path@ == s.overlay_logo_path,
        n.overlay.clock == s.overlay_clock,
{
}

/// A client is shown each figure of the stream under its own name.
pub proof fn figures_are_shown_by_name(s: StreamStats, now: u64, n: StatsSnapshot)
    requires
        shows_stats(s, now, n),
    ensures
        n.status@ == s.status@,
        n.bitrate == s.bitrate,
        n.cache_used == s.cache_used_pct,
        opt_text(n.error) == opt_text(s.error),
        n.fps_tenths == s.fps_tenths,
        n.speed_hundredths == s.speed_hundredths,
        n.frames_sent == s.frames_sent,
        n.frames_dropped == s.frames_dropped,
        n.quality_tenths == s.quality_tenths,
        n.duration@ == duration_text(s.started_at, now),
{
}

/// `part` is the number `n`, with at least two digits.
pub open spec fn is_count(part: Seq<char>, n: int) -> bool {
    part.len() >= 2 && all_digits(part) && digits_value(part) == n
}

/// A number with at least two digits is read as the number.
pub proof fn two_digits_count(n: nat)
    ensures
        is_count(two_digits(n), n as int),
        lacks(two_digits(n), ':'),
{
    parsed_decimal(n, n as int);
    decimal_is_digits(n);
    let d = decimal(n);
    if n < 10 {
        let t = seq!['0'] + d;
        assert(d.len() == 1);
        assert(t.drop_last() =~= seq!['0']);
        assert(seq!['0'].drop_last().len() == 0);
        reveal_with_fuel(digits_value, 3);
        assert(t.last() == d[0]);
        assert(seq!['0'].last() == '0');
        assert(d.drop_last().len() == 0);
    } else {
        decimal_is_digits(n / 10);
    }
}

/// The parts of a time are the days, the hours, the minutes and the seconds.
pub open spec fn are_counts(v: Seq<Seq<char>>, d: int, h: int, m: int, s: int) -> bool {
    v.len() == 4 && is_count(v[0], d) && is_count(v[1], h) && is_count(v[2], m) && is_count(v[3], s)
}

/// The time that a stream has run can be read: days, hours, minutes and seconds, of which
/// the last three stay below a day, an hour and a minute, and which add up to the time since
/// the start.
#[verifier::rlimit(60)]
pub proof fn durations_add_up(start: u64, now: u64)
    ensures
        ({
            let v = pieces(duration_text(Some(start), now), ':');
            let t: int = if now > start {
                now - start
            } else {
                0
            };
            exists|d: int, h: int, m: int, s: int|
                {
                    &&& #[trigger] are_counts(v, d, h, m, s)
                    &&& 0 <= h < 24 && 0 <= m < 60 && 0 <= s < 60
                    &&& d * 86_400 + h * 3_600 + m * 60 + s == t
                }
        }),
        pieces(duration_text(None, now), ':') == pieces(duration_text(Some(start), start), ':'),
{
    let t: nat = if now > start {
        (now - start) as nat
    } else {
        0
    };
    let d = t / 86_400;
    let h = (t % 86_400) / 3_600;
    let m = (t % 3_600) / 60;
    let s = t % 60;
    four_parts(d, h, m, s);
    parts_add_up(t);
    assert(are_counts(
        pieces(duration_text(Some(start), now), ':'),
        d as int,
        h as int,
        m as int,
        s as int,
    ));
}

proof fn four_parts(d: nat, h: nat, m: nat, s: nat)
    ensures
        are_counts(
            pieces(
                two_digits(d) + ":"@ + two_digits(h) + ":"@ + two_digits(m) + ":"@ + two_digits(s),
                ':',
            ),
            d as int,
            h as int,
            m as int,
            s as int,
        ),
{
    two_digits_count(d);
    two_digits_count(h);
    two_digits_count(m);
    two_digits_count(s);
    let c = seq![':'];
    reveal_strlit(":");
    assert(":"@ =~= c);
    let f = two_digits(d) + ":"@ + two_digits(h) + ":"@ + two_digits(m) + ":"@ + two_digits(s);
    assert(f =~= two_digits(d) + c + (two_digits(h) + c + (two_digits(m) + c + two_digits(s))));
    first_piece_is(two_digits(d), two_digits(h) + c + (two_digits(m) + c + two_digits(s)), ':');
    first_piece_is(two_digits(h), two_digits(m) + c + two_digits(s), ':');
    first_piece_is(two_digits(m), two_digits(s), ':');
    only_piece_is(two_digits(s), ':');
    assert(pieces(f, ':') =~= seq![two_digits(d), two_digits(h), two_digits(m), two_digits(s)]);
}

#[verifier::spinoff_prover]
proof fn parts_add_up(t: nat)
    ensures
        (t / 86_400) * 86_400 + ((t % 86_400) / 3_600) * 3_600 + ((t % 3_600) / 60) * 60 + t % 60
            == t,
        (t % 86_400) / 3_600 < 24,
        (t % 3_600) / 60 < 60,
{
}

// ---------------------------------------------------------------------------
// The order of names
// ---------------------------------------------------------------------------

/// The first character that differs decides which of two texts comes first; a text comes
/// before those that go on where it ends.
pub proof fn the_first_difference_decides(a: Seq<char>, b: Seq<char>, i: int)
    requires
        0 <= i <= a.len(),
        i < b.len(),
        forall|j: int| 0 <= j < i ==> #[trigger] a[j] == b[j],
        i < a.len() ==> a[i] < b[i],
    ensures
        comes_before(a, b),
    decreases i,
{
    if i > 0 {
        assert(a[0] == b[0]);
        let x = a.drop_first();
        let y = b.drop_first();
        assert forall|j: int| 0 <= j < i - 1 implies #[trigger] x[j] == y[j] by {
            assert(a[j + 1] == b[j + 1]);
        }
        the_first_difference_decides(x, y, i - 1);
    }
}

// ---------------------------------------------------------------------------
// Reading a service
// ---------------------------------------------------------------------------

/// The element at `j` is the first called `tag` in the element at `p`.
pub open spec fn is_first(nodes: Seq<NodeModel>, p: int, tag: Seq<char>, j: int) -> bool {
    is_child(nodes, p, tag, j) && forall|i: int| 0 <= i < j ==> !#[trigger] is_child(nodes, p, tag, i)
}

/// The element at `p` has an element called `tag`, and the first of them holds `text`.
pub open spec fn holds_text(nodes: Seq<NodeModel>, p: int, tag: Seq<char>, text: Seq<char>) -> bool {
    exists|j: int| #[trigger] is_first(nodes, p, tag, j) && nodes[j].text == Some(text)
}

proof fn first_is_next(nodes: Seq<NodeModel>, p: int, tag: Seq<char>, from: int, j: int)
    requires
        0 <= from <= j,
        is_child(nodes, p, tag, j),
        forall|i: int| from <= i < j ==> !#[trigger] is_child(nodes, p, tag, i),
    ensures
        next_child(nodes, p, tag, from) == j,
    decreases j - from,
{
    if from < j {
        assert(!is_child(nodes, p, tag, from));
        first_is_next(nodes, p, tag, from + 1, j);
    }
}

proof fn no_next(nodes: Seq<NodeModel>, p: int, tag: Seq<char>, from: int)
    requires
        0 <= from <= nodes.len(),
        forall|i: int| from <= i < nodes.len() ==> !#[trigger] is_child(nodes, p, tag, i),
    ensures
        next_child(nodes, p, tag, from) == nodes.len(),
    decreases nodes.len() - from,
{
    if from < nodes.len() {
        assert(!is_child(nodes, p, tag, from));
        no_next(nodes, p, tag, from + 1);
    }
}

proof fn text_is_read(nodes: Seq<NodeModel>, p: int, tag: Seq<char>, text: Seq<char>)
    requires
        holds_text(nodes, p, tag, text),
    ensures
        text_in(nodes, p, tag) == trimmed(text),
{
    let j = choose|j: int| #[trigger]
        is_first(nodes, p, tag, j) && nodes[j].text == Some(text);
    first_is_next(nodes, p, tag, 0, j);
}

/// The name and the key of a service are what its elements of these names hold, and so are
/// the name and the address of a server, and the name of a profile.
pub proof fn texts_are_read_by_name(nodes: Seq<NodeModel>, p: int, text: Seq<char>)
    ensures
        holds_text(nodes, p, "name"@, text) ==> service_at(nodes, p).name == trimmed(text)
            && server_at(nodes, p).name == trimmed(text) && profile_at(nodes, p).name == trimmed(
            text,
        ),
        holds_text(nodes, p, "key"@, text) ==> service_at(nodes, p).key == trimmed(text),
        holds_text(nodes, p, "url"@, text) ==> server_at(nodes, p).url == trimmed(text),
{
    if holds_text(nodes, p, "name"@, text) {
        text_is_read(nodes, p, "name"@, text);
    }
    if holds_text(nodes, p, "key"@, text) {
        text_is_read(nodes, p, "key"@, text);
    }
    if holds_text(nodes, p, "url"@, text) {
        text_is_read(nodes, p, "url"@, text);
    }
}

/// The numbers of an encoding are what its elements of these names hold.
pub proof fn numbers_are_read_by_name(
    nodes: Seq<NodeModel>,
    p: int,
    bitrate: Seq<char>,
    audio: Seq<char>,
    keyframes: Seq<char>,
)
    requires
        holds_text(nodes, p, "bitrate"@, bitrate),
        holds_text(nodes, p, "audio-bitrate"@, audio),
        holds_text(nodes, p, "keyframe-interval"@, keyframes),
    ensures
        config_at(nodes, p) matches Some(c) ==> {
            &&& parsed(trimmed(bitrate), u64::MAX as int) == Some(c.bitrate as nat)
            &&& parsed(trimmed(audio), u64::MAX as int) == Some(c.audio_bitrate as nat)
            &&& parsed(trimmed(keyframes), u32::MAX as int) == Some(c.keyframe_interval as nat)
            &&& c.resolution == attribute_or(nodes[p].attributes, "resolution"@, ""@)
            &&& c.codec == attribute_or(nodes[p].attributes, "codec"@, ""@)
            &&& parsed(attribute_or(nodes[p].attributes, "fps"@, "0"@), u32::MAX as int) == Some(
                c.fps as nat,
            )
        },
        config_at(nodes, p) is None <==> parsed(trimmed(bitrate), u64::MAX as int) is None
            || parsed(trimmed(audio), u64::MAX as int) is None || parsed(
            trimmed(keyframes),
            u32::MAX as int,
        ) is None || parsed(attribute_or(nodes[p].attributes, "fps"@, "0"@), u32::MAX as int)
            is None,
{
    text_is_read(nodes, p, "bitrate"@, bitrate);
    text_is_read(nodes, p, "audio-bitrate"@, audio);
    text_is_read(nodes, p, "keyframe-interval"@, keyframes);
}

/// `x` is what one of the elements for servers in the element at `p` holds, at `from` or later.
pub open spec fn is_held(nodes: Seq<NodeModel>, p: int, from: int, x: ServerModel) -> bool {
    exists|i: int|
        from <= i && #[trigger] is_child(nodes, p, "server"@, i) && x == server_at(nodes, i)
}

proof fn servers_are(nodes: Seq<NodeModel>, p: int, from: int, x: ServerModel)
    requires
        0 <= from,
    ensures
        servers_from(nodes, p, from).contains(x) <==> is_held(nodes, p, from, x),
    decreases nodes.len() - from,
{
    if from < nodes.len() {
        servers_are(nodes, p, from + 1, x);
        let rest = servers_from(nodes, p, from + 1);
        let v = servers_from(nodes, p, from);
        if is_child(nodes, p, "server"@, from) {
            assert(v =~= seq![server_at(nodes, from)] + rest);
            if v.contains(x) {
                let k = choose|k: int| 0 <= k < v.len() && v[k] == x;
                if k > 0 {
                    assert(rest[k - 1] == x);
                    assert(rest.contains(x));
                } else {
                    assert(x == server_at(nodes, from));
                }
            }
            if is_held(nodes, p, from, x) {
                let i = choose|i: int|
                    from <= i && #[trigger] is_child(nodes, p, "server"@, i) && x == server_at(
                        nodes,
                        i,
                    );
                if i == from {
                    assert(v[0] == x);
                } else {
                    assert(is_held(nodes, p, from + 1, x));
                    let k = choose|k: int| 0 <= k < rest.len() && rest[k] == x;
                    assert(v[k + 1] == x);
                }
            }
        } else {
            assert(v == rest);
            if is_held(nodes, p, from, x) {
                assert(is_held(nodes, p, from + 1, x));
            }
            if is_held(nodes, p, from + 1, x) {
                assert(is_held(nodes, p, from, x));
            }
        }
    }
}

/// The servers of a service are those in its element for them, all of them and no others; and
/// the first comes first.
pub proof fn all_servers_are_read(
    nodes: Seq<NodeModel>,
    j: int,
    p: int,
    x: ServerModel,
    first: int,
)
    requires
        is_first(nodes, j, "servers"@, p),
    ensures
        ({
            let v = service_at(nodes, j).servers;
            &&& v.contains(x) <==> is_held(nodes, p, 0, x)
            &&& is_first(nodes, p, "server"@, first) ==> v.len() > 0 && v[0] == server_at(
                nodes,
                first,
            )
        }),
{
    first_is_next(nodes, j, "servers"@, 0, p);
    servers_are(nodes, p, 0, x);
    if is_first(nodes, p, "server"@, first) {
        the_first_server_is(nodes, p, 0, first);
    }
}

proof fn the_first_server_is(nodes: Seq<NodeModel>, p: int, from: int, i: int)
    requires
        0 <= from <= i,
        is_first(nodes, p, "server"@, i),
    ensures
        servers_from(nodes, p, from).len() > 0,
        servers_from(nodes, p, from)[0] == server_at(nodes, i),
    decreases i - from,
{
    if from < i {
        assert(!is_child(nodes, p, "server"@, from));
        the_first_server_is(nodes, p, from + 1, i);
    }
}

/// A service without an element for servers has none; without one for profiles it has none
/// of those and no default.
pub proof fn missing_parts_are_empty(nodes: Seq<NodeModel>, j: int)
    ensures
        (forall|i: int| !#[trigger] is_child(nodes, j, "servers"@, i)) ==> service_at(
            nodes,
            j,
        ).servers.len() == 0,
        (forall|i: int| !#[trigger] is_child(nodes, j, "profiles"@, i)) ==> service_at(
            nodes,
            j,
        ).profiles.len() == 0 && service_at(nodes, j).default_profile.len() == 0,
        (forall|i: int| !#[trigger] is_child(nodes, j, "key"@, i)) ==> service_at(nodes, j).key.len()
            == 0,
{
    if forall|i: int| !#[trigger] is_child(nodes, j, "servers"@, i) {
        no_next(nodes, j, "servers"@, 0);
    }
    if forall|i: int| !#[trigger] is_child(nodes, j, "profiles"@, i) {
        no_next(nodes, j, "profiles"@, 0);
    }
    if forall|i: int| !#[trigger] is_child(nodes, j, "key"@, i) {
        no_next(nodes, j, "key"@, 0);
    }
}

/// An attribute without a namespace is found by its name, the first if there are two; one that
/// is not there has the value that was given for it.
pub proof fn attributes_are_read_by_name(nodes: Seq<NodeModel>, p: int, name: Seq<char>, default: Seq<char>, i: int)
    ensures
        ({
            let a = nodes[p].attributes;
            &&& 0 <= i < a.len() && a[i].namespace is None && a[i].name == name && (forall|j: int|
                0 <= j < i ==> (#[trigger] a[j]).name != name || a[j].namespace is Some)
                ==> attribute_or(a, name, default) == a[i].value
            &&& (forall|j: int|
                0 <= j < a.len() ==> (#[trigger] a[j]).name != name || a[j].namespace is Some)
                ==> attribute_or(a, name, default) == default
        }),
{
    let a = nodes[p].attributes;
    if 0 <= i < a.len() && a[i].namespace is None && a[i].name == name && (forall|j: int|
        0 <= j < i ==> (#[trigger] a[j]).name != name || a[j].namespace is Some) {
        attribute_found(a, name, default, i);
    }
    if forall|j: int|
        0 <= j < a.len() ==> (#[trigger] a[j]).name != name || a[j].namespace is Some {
        attribute_missed(a, name, default);
    }
}

proof fn attribute_found(a: Seq<AttributeModel>, name: Seq<char>, default: Seq<char>, i: int)
    requires
        0 <= i < a.len(),
        a[i].namespace is None,
        a[i].name == name,
        forall|j: int| 0 <= j < i ==> (#[trigger] a[j]).name != name || a[j].namespace is Some,
    ensures
        attribute_or(a, name, default) == a[i].value,
    decreases a.len(),
{
    if i > 0 {
        let r = a.drop_first();
        assert(a[0].name != name || a[0].namespace is Some);
        assert(r[i - 1] == a[i]);
        assert forall|j: int| 0 <= j < i - 1 implies (#[trigger] r[j]).name != name
            || r[j].namespace is Some by {
            assert(r[j] == a[j + 1]);
        }
        attribute_found(r, name, default, i - 1);
    }
}

proof fn attribute_missed(a: Seq<AttributeModel>, name: Seq<char>, default: Seq<char>)
    requires
        forall|j: int| 0 <= j < a.len() ==> (#[trigger] a[j]).name != name || a[j].namespace is Some,
    ensures
        attribute_or(a, name, default) == default,
    decreases a.len(),
{
    if a.len() > 0 {
        let r = a.drop_first();
        assert(a[0].name != name || a[0].namespace is Some);
        assert forall|j: int| 0 <= j < r.len() implies (#[trigger] r[j]).name != name
            || r[j].namespace is Some by {
            assert(r[j] == a[j + 1]);
        }
        attribute_missed(r, name, default);
    }
}

// ---------------------------------------------------------------------------
// Loading a service
// ---------------------------------------------------------------------------

proof fn srt_places_are(v: Seq<ServerModel>)
    ensures
        ({
            let r = srt_places(v);
            &&& forall|k: int|
                0 <= k < r.len() ==> 0 <= #[trigger] r[k] < v.len() && scheme_of(v[r[k]].url)
                    == "srt"@
            &&& r.len() > 0 ==> forall|i: int|
                0 <= i < r[0] ==> scheme_of((#[trigger] v[i]).url) != "srt"@
            &&& r.len() == 0 ==> forall|i: int|
                0 <= i < v.len() ==> scheme_of((#[trigger] v[i]).url) != "srt"@
        }),
    decreases v.len(),
{
    if v.len() > 0 {
        let w = v.drop_last();
        srt_places_are(w);
        assert forall|i: int| 0 <= i < w.len() implies w[i] == #[trigger] v[i] by {}
        let r = srt_places(v);
        assert forall|k: int| 0 <= k < r.len() implies 0 <= #[trigger] r[k] < v.len() && scheme_of(
            v[r[k]].url,
        ) == "srt"@ by {
            if k < srt_places(w).len() {
                assert(r[k] == srt_places(w)[k]);
            }
        }
    }
}

/// `name` is that of the server that a service is first used with: the first that is reached
/// over SRT, or else the first of all.
pub open spec fn is_first_choice(v: Seq<ServerModel>, name: Seq<char>) -> bool {
    ||| exists|i: int|
        {
            &&& 0 <= i < v.len()
            &&& name == (#[trigger] v[i]).name
            &&& scheme_of(v[i].url) == "srt"@
            &&& forall|j: int| 0 <= j < i ==> scheme_of((#[trigger] v[j]).url) != "srt"@
        }
    ||| (forall|j: int| 0 <= j < v.len() ==> scheme_of((#[trigger] v[j]).url) != "srt"@) && v.len()
        > 0 && name == v[0].name
}

/// A service that is loaded is picked if that is asked for, or if nothing is said and none was
/// picked. With it come its key and the server that it is first used with, and, of its
/// profiles, the one with the default name if there is one. Else only the services change.
/// Only a service that is asked for takes the place of a custom address.
pub proof fn loaded_services_are_picked(
    o: EncoderModel,
    svc: ServiceModel,
    make_active: Option<bool>,
    n: EncoderModel,
)
    requires
        registered(o, svc, make_active, n),
    ensures
        ({
            let picked = make_active == Some(true) || (make_active is None
                && o.current_service_name.len() == 0);
            &&& picked ==> n.current_service_name == svc.name && n.stream_key == svc.key
            &&& picked && svc.servers.len() > 0 ==> is_first_choice(
                svc.servers,
                n.current_server_name,
            )
            &&& picked && (exists|i: int|
                0 <= i < svc.profiles.len() && (#[trigger] svc.profiles[i]).name
                    == svc.default_profile) ==> n.quality_level == svc.default_profile
            &&& picked && svc.profiles.len() > 0 && !(exists|i: int|
                0 <= i < svc.profiles.len() && (#[trigger] svc.profiles[i]).name
                    == svc.default_profile) ==> n.quality_level == svc.profiles[0].name
            &&& !picked ==> n == EncoderModel { services: n.services, ..o }
            &&& make_active == Some(true) ==> n.custom_url.len() == 0
            &&& make_active != Some(true) ==> n.custom_url == o.custom_url
            &&& lookup(n.services, svc.name) == Some(svc)
            &&& n == EncoderModel {
                services: n.services,
                current_service_name: n.current_service_name,
                stream_key: n.stream_key,
                quality_level: n.quality_level,
                current_server_name: n.current_server_name,
                custom_url: n.custom_url,
                ..o
            }
        }),
{
    srt_places_are(svc.servers);
    named_profile(svc.profiles, svc.default_profile);
    if srt_places(svc.servers).len() > 0 {
        let i = srt_places(svc.servers)[0];
        assert(0 <= i < svc.servers.len());
        assert(svc.servers[i].name == svc.servers[i].name);
    }
}

proof fn named_profile(v: Seq<ProfileModel>, name: Seq<char>)
    ensures
        match profile_named(v, name) {
            Some(i) => 0 <= i < v.len() && v[i].name == name,
            None => forall|j: int| 0 <= j < v.len() ==> (#[trigger] v[j]).name != name,
        },
    decreases v.len(),
{
    if v.len() > 0 {
        let w = v.drop_last();
        named_profile(w, name);
        assert forall|j: int| 0 <= j < w.len() implies w[j] == #[trigger] v[j] by {}
    }
}

// ---------------------------------------------------------------------------
// Profiles and encodings
// ---------------------------------------------------------------------------

/// `x` is what one of the elements for profiles holds in the element at `p`, at `from` or later.
pub open spec fn profile_is_held(nodes: Seq<NodeModel>, p: int, from: int, x: ProfileModel) -> bool {
    exists|i: int|
        from <= i && #[trigger] is_child(nodes, p, "profile"@, i) && x == profile_at(nodes, i)
}

proof fn profiles_are(nodes: Seq<NodeModel>, p: int, from: int, x: ProfileModel)
    requires
        0 <= from,
    ensures
        profiles_from(nodes, p, from).contains(x) <==> profile_is_held(nodes, p, from, x),
    decreases nodes.len() - from,
{
    if from < nodes.len() {
        profiles_are(nodes, p, from + 1, x);
        let rest = profiles_from(nodes, p, from + 1);
        let v = profiles_from(nodes, p, from);
        if v != rest {
            assert(v =~= seq![v[0]] + rest);
            if v.contains(x) {
                let k = choose|k: int| 0 <= k < v.len() && v[k] == x;
                if k > 0 {
                    assert(rest[k - 1] == x);
                    assert(rest.contains(x));
                } else {
                    assert(is_child(nodes, p, "profile"@, from));
                }
            }
            if profile_is_held(nodes, p, from, x) {
                let i = choose|i: int|
                    from <= i && #[trigger] is_child(nodes, p, "profile"@, i) && x == profile_at(nodes, i);
                if i == from {
                    assert(v[0] == x);
                } else {
                    assert(profile_is_held(nodes, p, from + 1, x));
                    let k = choose|k: int| 0 <= k < rest.len() && rest[k] == x;
                    assert(v[k + 1] == x);
                }
            }
        } else {
            if profile_is_held(nodes, p, from, x) {
                let i = choose|i: int|
                    from <= i && #[trigger] is_child(nodes, p, "profile"@, i) && x == profile_at(nodes, i);
                if i == from {
                    assert(v.len() == rest.len());
                } else {
                    assert(profile_is_held(nodes, p, from + 1, x));
                }
            }
            if profile_is_held(nodes, p, from + 1, x) {
                assert(profile_is_held(nodes, p, from, x));
            }
        }
    }
}

/// `x` is an encoding that one of the elements for them holds in the element at `p`, at `from` or later.
pub open spec fn config_is_held(nodes: Seq<NodeModel>, p: int, from: int, x: ConfigModel) -> bool {
    exists|i: int|
        from <= i && #[trigger] is_child(nodes, p, "config"@, i) && config_at(nodes, i) == Some(x)
}

proof fn configs_are(nodes: Seq<NodeModel>, p: int, from: int, x: ConfigModel)
    requires
        0 <= from,
    ensures
        configs_from(nodes, p, from).contains(x) <==> config_is_held(nodes, p, from, x),
    decreases nodes.len() - from,
{
    if from < nodes.len() {
        configs_are(nodes, p, from + 1, x);
        let rest = configs_from(nodes, p, from + 1);
        let v = configs_from(nodes, p, from);
        if v != rest {
            assert(v =~= seq![v[0]] + rest);
            if v.contains(x) {
                let k = choose|k: int| 0 <= k < v.len() && v[k] == x;
                if k > 0 {
                    assert(rest[k - 1] == x);
                    assert(rest.contains(x));
                } else {
                    assert(is_child(nodes, p, "config"@, from));
                }
            }
            if config_is_held(nodes, p, from, x) {
                let i = choose|i: int|
                    from <= i && #[trigger] is_child(nodes, p, "config"@, i) && config_at(nodes, i) == Some(x);
                if i == from {
                    assert(v[0] == x);
                } else {
                    assert(config_is_held(nodes, p, from + 1, x));
                    let k = choose|k: int| 0 <= k < rest.len() && rest[k] == x;
                    assert(v[k + 1] == x);
                }
            }
        } else {
            if config_is_held(nodes, p, from, x) {
                let i = choose|i: int|
                    from <= i && #[trigger] is_child(nodes, p, "config"@, i) && config_at(nodes, i) == Some(x);
                if i == from {
                    assert(v.len() == rest.len());
                } else {
                    assert(config_is_held(nodes, p, from + 1, x));
                }
            }
            if config_is_held(nodes, p, from + 1, x) {
                assert(config_is_held(nodes, p, from, x));
            }
        }
    }
}

/// The profiles of a service are those in its element for them, all of them and no others; the
/// default one is named there. The encodings of a profile are those in it that can be read.
pub proof fn all_profiles_are_read(
    nodes: Seq<NodeModel>,
    j: int,
    p: int,
    x: ProfileModel,
    q: int,
    y: ConfigModel,
)
    requires
        is_first(nodes, j, "profiles"@, p),
    ensures
        service_at(nodes, j).profiles.contains(x) <==> profile_is_held(nodes, p, 0, x),
        service_at(nodes, j).default_profile == attribute_or(
            nodes[p].attributes,
            "default"@,
            ""@,
        ),
        profile_at(nodes, q).configs.contains(y) <==> config_is_held(nodes, q, 0, y),
{
    first_is_next(nodes, j, "profiles"@, 0, p);
    profiles_are(nodes, p, 0, x);
    configs_are(nodes, q, 0, y);
}

/// A profile is one for low delay if and only if it has an element that says so.
pub proof fn low_delay_is_said(nodes: Seq<NodeModel>, j: int, i: int)
    ensures
        is_first(nodes, j, "low-latency"@, i) ==> profile_at(nodes, j).low_latency,
        (forall|k: int| !#[trigger] is_child(nodes, j, "low-latency"@, k)) ==> !profile_at(
            nodes,
            j,
        ).low_latency,
{
    if is_first(nodes, j, "low-latency"@, i) {
        first_is_next(nodes, j, "low-latency"@, 0, i);
    }
    if forall|k: int| !#[trigger] is_child(nodes, j, "low-latency"@, k) {
        no_next(nodes, j, "low-latency"@, 0);
    }
}

/// The service of a document is its root element if that is one, or else the first in it.
pub proof fn services_stand_at_the_root(nodes: Seq<NodeModel>, root: int, j: int)
    requires
        0 <= root < nodes.len(),
        nodes[root].parent == Some(0usize) && nodes[root].element,
        forall|i: int|
            0 <= i < root ==> (#[trigger] nodes[i]).parent != Some(0usize) || !nodes[i].element,
    ensures
        nodes[root].tag == "service"@ ==> service_place(nodes) == Some(root),
        nodes[root].tag != "service"@ && is_first(nodes, root, "service"@, j) ==> service_place(
            nodes,
        ) == Some(j),
        nodes[root].tag != "service"@ && (forall|i: int|
            !#[trigger] is_child(nodes, root, "service"@, i)) ==> service_place(nodes) is None,
{
    root_is_next(nodes, root, 0);
    if is_first(nodes, root, "service"@, j) {
        first_is_next(nodes, root, "service"@, 0, j);
    }
    if forall|i: int| !#[trigger] is_child(nodes, root, "service"@, i) {
        no_next(nodes, root, "service"@, 0);
    }
}

proof fn root_is_next(nodes: Seq<NodeModel>, root: int, from: int)
    requires
        0 <= from <= root < nodes.len(),
        nodes[root].parent == Some(0usize) && nodes[root].element,
        forall|i: int|
            0 <= i < root ==> (#[trigger] nodes[i]).parent != Some(0usize) || !nodes[i].element,
    ensures
        next_element(nodes, 0, from) == root,
    decreases root - from,
{
    if from < root {
        assert(nodes[from].parent != Some(0usize) || !nodes[from].element);
        root_is_next(nodes, root, from + 1);
    }
}

/// A client is offered the services that are loaded, the servers and the quality levels of the
/// picked one, and every output format; the address and the encoding that it is shown are those
/// that are active.
#[verifier::rlimit(60)]
pub proof fn choices_are_shown(s: EncoderModel, n: Snapshot)
    requires
        shows_choices(s, n),
    ensures
        texts(n.available_video_modes@) == video_modes(),
        n.available_services@.len() == s.services.len(),
        forall|i: int|
            0 <= i < s.services.len() ==> (#[trigger] n.available_services@[i])@
                == s.services[i].name,
        lookup(s.services, s.current_service_name) matches Some(svc) ==> {
            &&& n.available_servers@.len() == svc.servers.len()
            &&& forall|i: int|
                0 <= i < svc.servers.len() ==> (#[trigger] n.available_servers@[i]).name@
                    == svc.servers[i].name && n.available_servers@[i].url@ == svc.servers[i].url
                    && n.available_servers@[i].protocol@ == scheme_of(svc.servers[i].url)
            &&& n.quality_options@.len() == svc.profiles.len()
            &&& forall|i: int|
                0 <= i < svc.profiles.len() ==> (#[trigger] n.quality_options@[i]).name@
                    == svc.profiles[i].name
        },
        active_server(s) matches Some(d) ==> n.current_url@ == d.1 && n.current_protocol@ == d.2,
        active_server(s) is None ==> n.current_url@.len() == 0 && n.current_protocol@.len() == 0,
        active_config(s) matches Some(c) ==> (n.active_config matches Some(a) && a@ == c),
{
    let names = texts(n.available_services@);
    assert(names.len() == service_names(s.services).len());
    assert forall|i: int| 0 <= i < s.services.len() implies (
    #[trigger] n.available_services@[i])@ == s.services[i].name by {
        assert(names[i] == n.available_services@[i]@);
        assert(names[i] == service_names(s.services)[i]);
    }
    if let Some(svc) = lookup(s.services, s.current_service_name) {
        let a = server_models(n.available_servers@);
        assert(a.len() == offered_servers(s).len());
        assert forall|i: int| 0 <= i < svc.servers.len() implies (
        #[trigger] n.available_servers@[i]).name@ == svc.servers[i].name
            && n.available_servers@[i].url@ == svc.servers[i].url
            && n.available_servers@[i].protocol@ == scheme_of(svc.servers[i].url) by {
            assert(a[i] == offered_servers(s)[i]);
        }
        let b = option_models(n.quality_options@);
        assert(b.len() == quality_levels(s).len());
        assert forall|i: int| 0 <= i < svc.profiles.len() implies (
        #[trigger] n.quality_options@[i]).name@ == svc.profiles[i].name by {
            assert(b[i] == quality_levels(s)[i]);
        }
    }
}

/// A service that is loaded under a name that is taken gets another: a pasted one a number, one
/// of a file the name of the file.
pub proof fn taken_names_are_added_to(name: Seq<char>, n: nat, stem: Seq<char>)
    ensures
        begins(pasted_name(name, n), name),
        finishes(pasted_name(name, n), " (pasted "@ + decimal(n) + ")"@),
        begins(file_name(name, stem), name),
        finishes(file_name(name, stem), " ["@ + stem + "]"@),
{
    let a = pasted_name(name, n);
    let x = " (pasted "@ + decimal(n) + ")"@;
    assert(a.subrange(0, name.len() as int) =~= name);
    assert(a.subrange(a.len() - x.len(), a.len() as int) =~= x);
    let b = file_name(name, stem);
    let y = " ["@ + stem + "]"@;
    assert(b.subrange(0, name.len() as int) =~= name);
    assert(b.subrange(b.len() - y.len(), b.len() as int) =~= y);
}

} // verus!
