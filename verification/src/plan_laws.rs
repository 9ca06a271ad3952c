//! What holds of every plan: it goes where the settings say, with the key, the source and
//! the encoding that they name.
use vstd::prelude::*;
use vstd::string::*;
use vstd::utf8::*;

use crate::number::{decimal, decimal_is_digits, is_digit, lowered, parsed_decimal};
use crate::plan::{
    audio_filter, audio_steps, channel_number, machine_source, plan_error_text, planned,
    video_filter, Machine, PlanErrorModel, PlanModel,
};
use crate::reading::{
    first_piece_is, joined_reads_back, lacks, lacks_concat, only_piece_is, parameter, query_is,
    value_in,
};
use crate::scan::{
    begins, finishes, holds, is_blank, last_position, last_position_is, not_blank, pieces, position_facts, up_to,
    without_last, without_last_ends,
};
use crate::services::lookup;
use crate::snapshot::{
    active_config, active_server, mode_dimensions, picked_server, server_named,
};
use crate::state::EncoderModel;
use crate::streamid::{
    authority, authority_is, host_and_port_read_back, host_part, missing_ports_are_given, percent_decoded, percent_encoded,
    percent_encoded_is_plain, percent_round_trip, port_part, replaced, safe_key, safe_name,
    srt_query, srt_url, streamid_text, url_streamid, SrtUrlModel,
};
use crate::text::between_quotes;
use crate::xml::{scheme_of, srt_places, ServerModel};

verus! {

// ---------------------------------------------------------------------------
// SRT URLs
// ---------------------------------------------------------------------------

/// A parameter of the URL stands for the bytes of a text.
pub open spec fn tells(url: Seq<char>, head: Seq<char>, text: Seq<char>) -> bool {
    parameter(url, head) matches Some(v) && percent_decoded(v) == encode_utf8(text)
}

proof fn plain_lacks(bytes: Seq<u8>)
    ensures
        lacks(percent_encoded(bytes), '&'),
        lacks(percent_encoded(bytes), '?'),
{
    percent_encoded_is_plain(bytes);
    let e = percent_encoded(bytes);
    assert forall|i: int| 0 <= i < e.len() implies #[trigger] e[i] != '&' && e[i] != '?' by {}
}

proof fn digits_lack(n: nat)
    ensures
        lacks(decimal(n), '&'),
        lacks(decimal(n), '?'),
{
    decimal_is_digits(n);
    assert forall|i: int| 0 <= i < decimal(n).len() implies #[trigger] decimal(n)[i] != '&'
        && decimal(n)[i] != '?' by {
        assert(is_digit(decimal(n)[i]));
    }
}

/// The parts of the query of an SRT URL.
spec fn query_parts(p: SrtUrlModel) -> Seq<Seq<char>> {
    let a = seq![
        "latency="@ + decimal(p.latency_us as nat),
        "mode="@ + percent_encoded(encode_utf8(p.mode)),
    ];
    let b = match p.passphrase {
        Some(w) => if w.len() > 0 {
            seq!["passphrase="@ + percent_encoded(encode_utf8(w))]
        } else {
            Seq::empty()
        },
        None => Seq::empty(),
    };
    let id = url_streamid(p);
    let c = if p.mode != "listener"@ && !is_blank(id) {
        seq!["streamid="@ + percent_encoded(encode_utf8(id))]
    } else {
        Seq::empty()
    };
    a + b + c
}

proof fn reveal_heads()
    ensures
        "latency="@ == seq!['l', 'a', 't', 'e', 'n', 'c', 'y', '='],
        "mode="@ == seq!['m', 'o', 'd', 'e', '='],
        "passphrase="@ == seq!['p', 'a', 's', 's', 'p', 'h', 'r', 'a', 's', 'e', '='],
        "streamid="@ == seq!['s', 't', 'r', 'e', 'a', 'm', 'i', 'd', '='],
        "&mode="@ == seq!['&'] + "mode="@,
        "&passphrase="@ == seq!['&'] + "passphrase="@,
        "&streamid="@ == seq!['&'] + "streamid="@,
{
    reveal_strlit("latency=");
    reveal_strlit("mode=");
    reveal_strlit("passphrase=");
    reveal_strlit("streamid=");
    reveal_strlit("&mode=");
    reveal_strlit("&passphrase=");
    reveal_strlit("&streamid=");
    assert("latency="@ =~= seq!['l', 'a', 't', 'e', 'n', 'c', 'y', '=']);
    assert("mode="@ =~= seq!['m', 'o', 'd', 'e', '=']);
    assert("passphrase="@ =~= seq!['p', 'a', 's', 's', 'p', 'h', 'r', 'a', 's', 'e', '=']);
    assert("streamid="@ =~= seq!['s', 't', 'r', 'e', 'a', 'm', 'i', 'd', '=']);
    assert("&mode="@ =~= seq!['&'] + "mode="@);
    assert("&passphrase="@ =~= seq!['&'] + "passphrase="@);
    assert("&streamid="@ =~= seq!['&'] + "streamid="@);
}

proof fn query_has_parts(p: SrtUrlModel)
    ensures
        pieces(srt_query(p), '&') == query_parts(p),
{
    reveal_heads();
    let latency = "latency="@ + decimal(p.latency_us as nat);
    let mode = "mode="@ + percent_encoded(encode_utf8(p.mode));
    digits_lack(p.latency_us as nat);
    plain_lacks(encode_utf8(p.mode));
    lacks_concat("latency="@, decimal(p.latency_us as nat), '&');
    lacks_concat("mode="@, percent_encoded(encode_utf8(p.mode)), '&');
    let id = url_streamid(p);
    let sid = "streamid="@ + percent_encoded(encode_utf8(id));
    plain_lacks(encode_utf8(id));
    lacks_concat("streamid="@, percent_encoded(encode_utf8(id)), '&');
    let with_sid = p.mode != "listener"@ && !is_blank(id);
    let with_pass = p.passphrase matches Some(w) && w.len() > 0;
    let w = p.passphrase->0;
    let pass = "passphrase="@ + percent_encoded(encode_utf8(w));
    plain_lacks(encode_utf8(w));
    lacks_concat("passphrase="@, percent_encoded(encode_utf8(w)), '&');
    only_piece_is(sid, '&');
    only_piece_is(pass, '&');
    only_piece_is(mode, '&');
    let c = seq!['&'];
    if with_pass && with_sid {
        assert(srt_query(p) =~= latency + c + (mode + c + (pass + c + sid)));
        first_piece_is(pass, sid, '&');
        first_piece_is(mode, pass + c + sid, '&');
        first_piece_is(latency, mode + c + (pass + c + sid), '&');
    } else if with_pass {
        assert(srt_query(p) =~= latency + c + (mode + c + pass));
        first_piece_is(mode, pass, '&');
        first_piece_is(latency, mode + c + pass, '&');
    } else if with_sid {
        assert(srt_query(p) =~= latency + c + (mode + c + sid));
        first_piece_is(mode, sid, '&');
        first_piece_is(latency, mode + c + sid, '&');
    } else {
        assert(srt_query(p) =~= latency + c + mode);
        first_piece_is(latency, mode, '&');
    }
    assert(pieces(srt_query(p), '&') =~= query_parts(p));
}

proof fn part_begins(head: Seq<char>, rest: Seq<char>)
    ensures
        begins(head + rest, head),
        (head + rest).skip(head.len() as int) == rest,
{
    assert((head + rest).take(head.len() as int) =~= head);
    assert((head + rest).skip(head.len() as int) =~= rest);
}

/// What an SRT URL was made of can be read from its query: the latency, the mode, the
/// passphrase if there is one, and for a caller the stream id.
#[verifier::rlimit(60)]
pub proof fn srt_urls_read_back(p: SrtUrlModel)
    requires
        p.mode != "listener"@ ==> lacks(p.host, '?'),
    ensures
        parameter(srt_url(p), "latency="@) == Some(decimal(p.latency_us as nat)),
        tells(srt_url(p), "mode="@, p.mode),
        match p.passphrase {
            Some(w) if w.len() > 0 => tells(srt_url(p), "passphrase="@, w),
            _ => parameter(srt_url(p), "passphrase="@) is None,
        },
        if p.mode != "listener"@ && !is_blank(url_streamid(p)) {
            tells(srt_url(p), "streamid="@, url_streamid(p))
        } else {
            parameter(srt_url(p), "streamid="@) is None
        },
{
    reveal_heads();
    reveal_strlit("srt://0.0.0.0:");
    reveal_strlit("srt://");
    reveal_strlit(":");
    reveal_strlit("listener");
    query_has_parts(p);
    digits_lack(p.port as nat);
    digits_lack(p.listen_port as nat);
    if p.mode == "listener"@ {
        lacks_concat("srt://0.0.0.0:"@, decimal(p.listen_port as nat), '?');
        query_is("srt://0.0.0.0:"@ + decimal(p.listen_port as nat), srt_query(p));
    } else {
        lacks_concat("srt://"@, p.host, '?');
        lacks_concat("srt://"@ + p.host, ":"@, '?');
        lacks_concat("srt://"@ + p.host + ":"@, decimal(p.port as nat), '?');
        query_is("srt://"@ + p.host + ":"@ + decimal(p.port as nat), srt_query(p));
    }
    let parts = query_parts(p);
    let id = url_streamid(p);
    let w = p.passphrase->0;
    part_begins("latency="@, decimal(p.latency_us as nat));
    part_begins("mode="@, percent_encoded(encode_utf8(p.mode)));
    part_begins("passphrase="@, percent_encoded(encode_utf8(w)));
    part_begins("streamid="@, percent_encoded(encode_utf8(id)));
    percent_round_trip(encode_utf8(p.mode));
    percent_round_trip(encode_utf8(w));
    percent_round_trip(encode_utf8(id));
    reveal_with_fuel(value_in, 5);
    assert(parts[0][0] == 'l' && parts[1][0] == 'm');
    let with_sid = p.mode != "listener"@ && !is_blank(id);
    let with_pass = p.passphrase matches Some(w) && w.len() > 0;
    let p1 = parts.drop_first();
    let p2 = p1.drop_first();
    let p3 = p2.drop_first();
    assert(p1[0] == parts[1]);
    if with_pass {
        assert(p2[0] == parts[2] && parts[2][0] == 'p');
        if with_sid {
            assert(p3[0] == parts[3] && parts[3][0] == 's');
        }
    } else if with_sid {
        assert(p2[0] == parts[2] && parts[2][0] == 's');
    }
    assert(forall|t: Seq<char>|
        #![trigger begins(t, "latency="@)]
        begins(t, "latency="@) ==> t[0] == t.take(8)[0]);
    assert(forall|t: Seq<char>|
        #![trigger begins(t, "mode="@)]
        begins(t, "mode="@) ==> t[0] == t.take(5)[0]);
    assert(forall|t: Seq<char>|
        #![trigger begins(t, "passphrase="@)]
        begins(t, "passphrase="@) ==> t[0] == t.take(11)[0]);
    assert(forall|t: Seq<char>|
        #![trigger begins(t, "streamid="@)]
        begins(t, "streamid="@) ==> t[0] == t.take(9)[0]);
}

// ---------------------------------------------------------------------------
// Where a plan goes
// ---------------------------------------------------------------------------

/// `k` is the key as receivers take it: its slashes are underscores, and nothing else is
/// changed.
pub open spec fn is_key_of(k: Seq<char>, key: Seq<char>) -> bool {
    k.len() == key.len() && forall|i: int|
        0 <= i < key.len() ==> #[trigger] k[i] == (if key[i] == '/' {
            '_'
        } else {
            key[i]
        })
}

/// `n` is the name as receivers take it: commas and equals signs are spaces, and nothing
/// else is changed.
pub open spec fn is_name_of(n: Seq<char>, name: Seq<char>) -> bool {
    n.len() == name.len() && forall|i: int|
        0 <= i < name.len() ==> #[trigger] n[i] == (if name[i] == ',' || name[i] == '=' {
            ' '
        } else {
            name[i]
        })
}

proof fn authority_is_plain(url: Seq<char>)
    ensures
        lacks(authority(url), '/'),
        lacks(authority(url), '?'),
        lacks(host_part(authority(url)), '/'),
        lacks(host_part(authority(url)), '?'),
{
    let rest = match crate::scan::found_from(url, "://"@, 0) {
        Some(i) => url.skip(i + 3),
        None => url,
    };
    let a = up_to(rest, '/');
    position_facts(rest, '/');
    position_facts(a, '?');
    let b = up_to(a, '?');
    assert forall|i: int| 0 <= i < b.len() implies #[trigger] b[i] != '/' && b[i] != '?' by {
        assert(b[i] == a[i] && a[i] == rest[i]);
    }
    let h = host_part(b);
    assert forall|i: int| 0 <= i < h.len() implies #[trigger] h[i] != '/' && h[i] != '?' by {
        last_is_before_end(b, ':');
        assert(h[i] == b[i]);
    }
}

proof fn last_is_before_end(s: Seq<char>, c: char)
    ensures
        -1 <= last_position(s, c) < s.len(),
    decreases s.len(),
{
    if s.len() > 0 && s.last() != c {
        last_is_before_end(s.drop_last(), c);
    }
}

proof fn sent_forms(key: Seq<char>, name: Seq<char>)
    ensures
        is_key_of(safe_key(key), key),
        is_name_of(safe_name(name), name),
{
    let half = replaced(name, ',', ' ');
    assert forall|i: int| 0 <= i < name.len() implies #[trigger] safe_name(name)[i] == (if name[i]
        == ',' || name[i] == '=' {
        ' '
    } else {
        name[i]
    }) by {
        assert(half[i] == (if name[i] == ',' {
            ' '
        } else {
            name[i]
        }));
    }
}

proof fn made_up_ids_are_not_blank(key: Seq<char>, name: Seq<char>, uuid: Seq<char>, legacy: bool)
    ensures
        !is_blank(streamid_text(key, name, uuid, legacy)),
{
    reveal_strlit("#!::r=");
    reveal_strlit("#!::bmd_uuid=");
    let t = streamid_text(key, name, uuid, legacy);
    assert(t[0] == '#');
    not_blank(t, 0);
}

proof fn srt_is_no_card()
    ensures
        "srt"@ != "decklink"@,
        "srt"@ != "rtmp"@,
        "srt"@ != "rtmps"@,
{
    reveal_strlit("srt");
    reveal_strlit("decklink");
    reveal_strlit("rtmp");
    reveal_strlit("rtmps");
    assert("srt"@.len() == 3 && "decklink"@.len() == 8 && "rtmp"@.len() == 4);
}

/// The plan of a stream over SRT as a caller goes to the host and the port of the active
/// destination and tells the receiver who streams and with which key: in the form of
/// Blackmagic's encoders the key of the settings is the `u=` field at the end, in the legacy
/// form the `r=` field at the front. An override is told in place of all that.
#[verifier::rlimit(60)]
pub proof fn srt_plans_tell_the_key(s: EncoderModel, m: Machine, p: PlanModel)
    requires
        planned(s, m) == Ok::<PlanModel, PlanErrorModel>(p),
        p.protocol == "srt"@,
        s.srt_mode != "listener"@,
    ensures
        s.streamid_override.len() == 0 && !s.streamid_legacy ==> exists|n: Seq<char>, k: Seq<char>|
            is_name_of(n, s.label) && is_key_of(k, s.stream_key) && #[trigger] tells(
                p.output_url,
                "streamid="@,
                "#!::bmd_uuid="@ + s.device_uuid + ",bmd_name="@ + n + ",u="@ + k,
            ),
        s.streamid_override.len() == 0 && s.streamid_legacy ==> exists|n: Seq<char>, k: Seq<char>|
            is_name_of(n, s.label) && is_key_of(k, s.stream_key) && #[trigger] tells(
                p.output_url,
                "streamid="@,
                "#!::r="@ + k + ",m=publish,bmd_uuid="@ + s.device_uuid + ",bmd_name="@ + n,
            ),
        !is_blank(s.streamid_override) ==> tells(p.output_url, "streamid="@, s.streamid_override),
        s.streamid_override.len() > 0 && is_blank(s.streamid_override) ==> parameter(
            p.output_url,
            "streamid="@,
        ) is None,
        active_server(s) matches Some(d) && host_part(authority(p.output_url)) == host_part(
            authority(d.1),
        ) && port_part(authority(p.output_url), 0) == port_part(authority(d.1), 1935),
{
    let d = active_server(s)->0;
    let a = authority(d.1);
    authority_is_plain(d.1);
    let u = SrtUrlModel {
        host: host_part(a),
        port: port_part(a, 1935),
        stream_key: s.stream_key,
        device_name: s.label,
        device_uuid: s.device_uuid,
        latency_us: s.srt_latency_us,
        passphrase: if s.passphrase.len() == 0 {
            None
        } else {
            Some(s.passphrase)
        },
        mode: s.srt_mode,
        streamid_override: s.streamid_override,
        listen_port: s.srt_listen_port,
        legacy_streamid: s.streamid_legacy,
    };
    srt_is_no_card();
    assert(p.output_url == srt_url(u));
    srt_urls_read_back(u);
    host_and_port_read_back(u, 0);
    sent_forms(s.stream_key, s.label);
    made_up_ids_are_not_blank(s.stream_key, s.label, s.device_uuid, s.streamid_legacy);
    if s.streamid_override.len() == 0 {
        let n = safe_name(s.label);
        let k = safe_key(s.stream_key);
        if s.streamid_legacy {
            assert(tells(
                p.output_url,
                "streamid="@,
                "#!::r="@ + k + ",m=publish,bmd_uuid="@ + s.device_uuid + ",bmd_name="@ + n,
            ));
        } else {
            assert(tells(
                p.output_url,
                "streamid="@,
                "#!::bmd_uuid="@ + s.device_uuid + ",bmd_name="@ + n + ",u="@ + k,
            ));
        }
    }
}

/// The plan of a stream over SRT tells the latency, the mode and the passphrase of the
/// settings. A listener listens on the port of the settings, on every address.
pub proof fn srt_plans_tell_the_line(s: EncoderModel, m: Machine, p: PlanModel)
    requires
        planned(s, m) == Ok::<PlanModel, PlanErrorModel>(p),
        p.protocol == "srt"@,
    ensures
        parameter(p.output_url, "latency="@) == Some(decimal(s.srt_latency_us as nat)),
        tells(p.output_url, "mode="@, s.srt_mode),
        s.passphrase.len() > 0 ==> tells(p.output_url, "passphrase="@, s.passphrase),
        s.passphrase.len() == 0 ==> parameter(p.output_url, "passphrase="@) is None,
        s.srt_mode == "listener"@ ==> begins(
            p.output_url,
            "srt://0.0.0.0:"@ + decimal(s.srt_listen_port as nat) + "?"@,
        ) && parameter(p.output_url, "streamid="@) is None,
        s.srt_mode != "listener"@ ==> begins(p.output_url, "srt://"@),
{
    let d = active_server(s)->0;
    let a = authority(d.1);
    authority_is_plain(d.1);
    let u = SrtUrlModel {
        host: host_part(a),
        port: port_part(a, 1935),
        stream_key: s.stream_key,
        device_name: s.label,
        device_uuid: s.device_uuid,
        latency_us: s.srt_latency_us,
        passphrase: if s.passphrase.len() == 0 {
            None
        } else {
            Some(s.passphrase)
        },
        mode: s.srt_mode,
        streamid_override: s.streamid_override,
        listen_port: s.srt_listen_port,
        legacy_streamid: s.streamid_legacy,
    };
    srt_is_no_card();
    assert(p.output_url == srt_url(u));
    srt_urls_read_back(u);
    if s.srt_mode == "listener"@ {
        part_begins(
            "srt://0.0.0.0:"@ + decimal(s.srt_listen_port as nat) + "?"@,
            srt_query(u),
        );
    } else {
        let rest = u.host + ":"@ + decimal(u.port as nat) + "?"@ + srt_query(u);
        assert(p.output_url =~= "srt://"@ + rest);
        part_begins("srt://"@, rest);
    }
}

/// Two settings that differ in their keys only stream to different places: as long as the
/// keys still differ when slashes are underscores, so do the URLs.
#[verifier::rlimit(60)]
pub proof fn keys_tell_srt_plans_apart(
    s: EncoderModel,
    key: Seq<char>,
    m: Machine,
    p: PlanModel,
    q: PlanModel,
    i: int,
)
    requires
        planned(s, m) == Ok::<PlanModel, PlanErrorModel>(p),
        planned(EncoderModel { stream_key: key, ..s }, m) == Ok::<PlanModel, PlanErrorModel>(q),
        p.protocol == "srt"@,
        s.srt_mode != "listener"@,
        s.streamid_override.len() == 0,
        s.stream_key.len() != key.len() || (0 <= i < key.len() && s.stream_key[i] != key[i] && !(
        s.stream_key[i] == '/' && key[i] == '_') && !(s.stream_key[i] == '_' && key[i] == '/')),
    ensures
        p.output_url != q.output_url,
{
    let t = EncoderModel { stream_key: key, ..s };
    assert(q.protocol == "srt"@);
    srt_plans_tell_the_key(s, m, p);
    srt_plans_tell_the_key(t, m, q);
    if p.output_url == q.output_url {
        let uuid = s.device_uuid;
        if s.streamid_legacy {
            let (n1, k1) = choose|n: Seq<char>, k: Seq<char>|
                is_name_of(n, s.label) && is_key_of(k, s.stream_key) && #[trigger] tells(
                    p.output_url,
                    "streamid="@,
                    "#!::r="@ + k + ",m=publish,bmd_uuid="@ + uuid + ",bmd_name="@ + n,
                );
            let (n2, k2) = choose|n: Seq<char>, k: Seq<char>|
                is_name_of(n, s.label) && is_key_of(k, key) && #[trigger] tells(
                    q.output_url,
                    "streamid="@,
                    "#!::r="@ + k + ",m=publish,bmd_uuid="@ + uuid + ",bmd_name="@ + n,
                );
            let a = "#!::r="@ + k1 + ",m=publish,bmd_uuid="@ + uuid + ",bmd_name="@ + n1;
            let b = "#!::r="@ + k2 + ",m=publish,bmd_uuid="@ + uuid + ",bmd_name="@ + n2;
            encode_utf8_decode_utf8(a);
            encode_utf8_decode_utf8(b);
            assert(a == b);
            let h = "#!::r="@.len();
            assert(a.len() == b.len());
            assert(k1.len() == k2.len());
            assert(a[h + i] == k1[i] && b[h + i] == k2[i]);
        } else {
            let (n1, k1) = choose|n: Seq<char>, k: Seq<char>|
                is_name_of(n, s.label) && is_key_of(k, s.stream_key) && #[trigger] tells(
                    p.output_url,
                    "streamid="@,
                    "#!::bmd_uuid="@ + uuid + ",bmd_name="@ + n + ",u="@ + k,
                );
            let (n2, k2) = choose|n: Seq<char>, k: Seq<char>|
                is_name_of(n, s.label) && is_key_of(k, key) && #[trigger] tells(
                    q.output_url,
                    "streamid="@,
                    "#!::bmd_uuid="@ + uuid + ",bmd_name="@ + n + ",u="@ + k,
                );
            let ha = "#!::bmd_uuid="@ + uuid + ",bmd_name="@ + n1 + ",u="@;
            let hb = "#!::bmd_uuid="@ + uuid + ",bmd_name="@ + n2 + ",u="@;
            let a = ha + k1;
            let b = hb + k2;
            encode_utf8_decode_utf8(a);
            encode_utf8_decode_utf8(b);
            assert(a == b);
            assert(ha.len() == hb.len());
            assert(k1.len() == k2.len());
            assert(a[ha.len() + i] == k1[i] && b[ha.len() + i] == k2[i]);
        }
    }
}

/// The plan of a stream over RTMP goes to the active destination without slashes at its end,
/// and ends with the key of the settings.
pub proof fn rtmp_plans_end_with_the_key(s: EncoderModel, m: Machine, p: PlanModel)
    requires
        planned(s, m) == Ok::<PlanModel, PlanErrorModel>(p),
        p.protocol == "rtmp"@ || p.protocol == "rtmps"@,
    ensures
        s.stream_key.len() > 0,
        finishes(p.output_url, "/"@ + s.stream_key),
        active_server(s) matches Some(d) && exists|n: int|
            {
                &&& 0 <= n <= d.1.len()
                &&& n > 0 ==> d.1[n - 1] != '/'
                &&& forall|i: int| n <= i < d.1.len() ==> d.1[i] == '/'
                &&& p.output_url == #[trigger] d.1.take(n) || p.output_url == d.1.take(n) + "/"@
                    + s.stream_key
            },
{
    reveal_strlit("srt");
    reveal_strlit("rtmp");
    reveal_strlit("rtmps");
    reveal_strlit("decklink");
    reveal_strlit("/");
    assert("rtmp"@.len() == 4 && "rtmps"@.len() == 5 && "srt"@.len() == 3);
    assert("decklink"@.len() == 8);
    let d = active_server(s)->0;
    let b = without_last(d.1, '/');
    without_last_ends(d.1, '/');
    without_last_is(d.1, '/');
    let n = b.len() as int;
    assert(d.1.take(n) == b);
    assert(n > 0 ==> b[n - 1] == d.1[n - 1]);
    let tail = "/"@ + s.stream_key;
    if !finishes(b, tail) {
        let u = b + "/"@ + s.stream_key;
        assert(u.skip(u.len() - tail.len()) =~= tail);
    }
}

proof fn without_last_is(s: Seq<char>, c: char)
    ensures
        without_last(s, c).len() <= s.len(),
        without_last(s, c) == s.take(without_last(s, c).len() as int),
        forall|i: int| without_last(s, c).len() <= i < s.len() ==> s[i] == c,
    decreases s.len(),
{
    if s.len() > 0 && s.last() == c {
        let t = s.drop_last();
        without_last_is(t, c);
        let n = without_last(s, c).len();
        assert(t.take(n as int) =~= s.take(n as int));
        assert forall|i: int| n <= i < s.len() implies s[i] == c by {
            if i < t.len() {
                assert(t[i] == s[i]);
            }
        }
    } else {
        assert(s.take(s.len() as int) =~= s);
    }
}

// ---------------------------------------------------------------------------
// Which destination is active
// ---------------------------------------------------------------------------

/// A custom URL with a scheme that can be streamed to goes before every service. Without one
/// the active server is one of the picked service: the one with the picked name if there is
/// one, else the first over SRT if there is one, else the first.
pub proof fn the_picked_server_is_active(s: EncoderModel)
    ensures
        s.custom_url.len() > 0 && (scheme_of(s.custom_url) == "srt"@ || scheme_of(s.custom_url)
            == "rtmp"@ || scheme_of(s.custom_url) == "rtmps"@) ==> active_server(s) == Some(
            ("Custom"@, s.custom_url, scheme_of(s.custom_url)),
        ),
        s.custom_url.len() == 0 ==> match lookup(s.services, s.current_service_name) {
            None => active_server(s) is None,
            Some(svc) => {
                let v = svc.servers;
                &&& active_server(s) is None <==> v.len() == 0
                &&& active_server(s) matches Some(d) ==> exists|i: int|
                    {
                        &&& 0 <= i < v.len()
                        &&& d == (#[trigger] v[i].name, v[i].url, scheme_of(v[i].url))
                        &&& v[i].name == s.current_server_name ==> forall|j: int|
                            0 <= j < i ==> (#[trigger] v[j]).name != s.current_server_name
                        &&& v[i].name != s.current_server_name ==> {
                            &&& forall|j: int|
                                0 <= j < v.len() ==> (#[trigger] v[j]).name
                                    != s.current_server_name
                            &&& if scheme_of(v[i].url) == "srt"@ {
                                forall|j: int|
                                    0 <= j < i ==> scheme_of((#[trigger] v[j]).url) != "srt"@
                            } else {
                                i == 0 && forall|j: int|
                                    0 <= j < v.len() ==> scheme_of((#[trigger] v[j]).url)
                                        != "srt"@
                            }
                        }
                    }
            },
        },
{
    if s.custom_url.len() == 0 {
        if let Some(svc) = lookup(s.services, s.current_service_name) {
            let v = svc.servers;
            server_found(v, s.current_server_name);
            first_srt_server(v);
            if v.len() > 0 {
                let i = picked_server(v, s.current_server_name)->0;
                assert(v[i].name == v[i].name);
            }
        }
    }
}

proof fn server_found(v: Seq<ServerModel>, name: Seq<char>)
    ensures
        match server_named(v, name) {
            Some(i) => 0 <= i < v.len() && v[i].name == name && forall|j: int|
                0 <= j < i ==> (#[trigger] v[j]).name != name,
            None => forall|j: int| 0 <= j < v.len() ==> (#[trigger] v[j]).name != name,
        },
    decreases v.len(),
{
    if v.len() > 0 {
        let w = v.drop_last();
        server_found(w, name);
        assert forall|j: int| 0 <= j < w.len() implies w[j] == #[trigger] v[j] by {}
    }
}

proof fn first_srt_server(v: Seq<ServerModel>)
    ensures
        srt_places(v).len() > 0 ==> ({
            let i = srt_places(v)[0];
            0 <= i < v.len() && scheme_of(v[i].url) == "srt"@ && forall|j: int|
                0 <= j < i ==> scheme_of((#[trigger] v[j]).url) != "srt"@
        }),
        srt_places(v).len() == 0 ==> forall|j: int|
            0 <= j < v.len() ==> scheme_of((#[trigger] v[j]).url) != "srt"@,
    decreases v.len(),
{
    if v.len() > 0 {
        let w = v.drop_last();
        first_srt_server(w);
        assert forall|j: int| 0 <= j < w.len() implies w[j] == #[trigger] v[j] by {}
    }
}

// ---------------------------------------------------------------------------
// The encoding
// ---------------------------------------------------------------------------

/// A stream to the network has the size and the rate of the mode, the bitrate and the key
/// frames of the active encoding, and the codec, the encoder, the flags, the audio and the
/// source of the settings. The audio bitrate of the settings, told in thousands, goes before
/// that of the encoding.
pub proof fn network_plans_follow_the_settings(s: EncoderModel, m: Machine, p: PlanModel)
    requires
        planned(s, m) == Ok::<PlanModel, PlanErrorModel>(p),
        s.destination_type != "decklink"@,
    ensures
        (p.width, p.height, p.fps) == mode_dimensions(s.video_mode),
        active_config(s) matches Some(c) && p.video_bitrate == c.bitrate && p.keyframe_seconds
            == c.keyframe_interval && (s.audio_bitrate_kbps == 0 ==> p.audio_bitrate
            == c.audio_bitrate),
        s.audio_bitrate_kbps > 0 ==> p.audio_bitrate == s.audio_bitrate_kbps * 1000,
        machine_source(s, m) == Some(p.source),
        p.video_codec == lowered(s.video_codec),
        p.video_encoder == s.video_encoder,
        p.encoder_extra_flags == s.encoder_extra_flags,
        p.audio_codec == s.audio_codec,
        p.audio_sample_rate == s.audio_sample_rate,
        p.audio_channels == s.audio_channels,
        p.audio_bitrate_kbps == s.audio_bitrate_kbps,
        p.audio_output_mono <==> s.audio_channels == 1,
        active_server(s) matches Some(d) && p.protocol == lowered(d.2),
        p.video_filter == video_filter(s, p.width, p.height, p.fps),
        p.audio_filter == audio_filter(s),
{
}

/// A stream to the network can be made if and only if a server with an address is picked, it
/// speaks one of the three protocols, there is a key, the kind of source is known, and the
/// switcher is not asked to play audio that it cannot. Else what is missing is told.
#[verifier::rlimit(60)]
pub proof fn network_plans_are_refused_for_cause(s: EncoderModel, m: Machine)
    requires
        s.destination_type != "decklink"@,
    ensures
        ({
            let url = match active_server(s) {
                Some(d) => d.1,
                None => Seq::empty(),
            };
            let scheme = match active_server(s) {
                Some(d) => d.2,
                None => Seq::empty(),
            };
            let spoken = lowered(scheme) == "srt"@ || lowered(scheme) == "rtmp"@ || lowered(scheme)
                == "rtmps"@;
            let reachable = url.len() > 0 && scheme.len() > 0;
            let too_efficient = s.destination_type == "atem"@ && (s.audio_codec == "aac_he"@
                || s.audio_codec == "aac_he_v2"@);
            let known = machine_source(s, m) is Some;
            let r = planned(s, m);
            &&& r is Ok <==> active_config(s) is Some && reachable && s.stream_key.len() > 0
                && spoken && known && !too_efficient
            &&& r == Err::<PlanModel, PlanErrorModel>(PlanErrorModel::NoProfile) <==> active_config(
                s,
            ) is None
            &&& r == Err::<PlanModel, PlanErrorModel>(PlanErrorModel::NoServer) <==> active_config(
                s,
            ) is Some && !reachable
            &&& r == Err::<PlanModel, PlanErrorModel>(PlanErrorModel::NoStreamKey)
                <==> active_config(s) is Some && reachable && s.stream_key.len() == 0
            &&& r matches Err(PlanErrorModel::UnsupportedProtocol(w)) ==> w == lowered(scheme)
                && !spoken
            &&& r matches Err(PlanErrorModel::UnknownSource(w)) ==> w == s.source_id && !known
            &&& r matches Err(PlanErrorModel::HighEfficiencyAudio(second)) ==> too_efficient && (
            second <==> s.audio_codec == "aac_he_v2"@)
        }),
{
    high_efficiency_differs();
}

proof fn high_efficiency_differs()
    ensures
        "aac_he"@ != "aac_he_v2"@,
{
    reveal_strlit("aac_he");
    reveal_strlit("aac_he_v2");
    assert("aac_he"@.len() == 6);
    assert("aac_he_v2"@.len() == 9);
}

// ---------------------------------------------------------------------------
// The filters
// ---------------------------------------------------------------------------

/// The picture of a screen is brought to the size and the rate of the plan, in this order:
/// scaled, padded, at a steady rate, with square pixels. Other pictures are left as they are.
#[verifier::rlimit(60)]
pub proof fn screens_are_fitted(s: EncoderModel, w: u32, h: u32, fps: u32)
    ensures
        video_filter(s, w, h, fps) is Some <==> s.source_id == "avfoundation"@ && (holds(
            lowered(s.av_video_name),
            "capture screen"@,
        ) || holds(lowered(s.av_video_name), "desk view"@)),
        video_filter(s, w, h, fps) matches Some(f) ==> {
            let size = decimal(w as nat) + ":"@ + decimal(h as nat);
            pieces(f, ',') == seq![
                "scale="@ + size + ":force_original_aspect_ratio=decrease:flags=lanczos"@,
                "pad="@ + size + ":(ow-iw)/2:(oh-ih)/2:color=black"@,
                "fps="@ + decimal(fps as nat),
                "setsar=1"@,
            ]
        },
{
    if let Some(f) = video_filter(s, w, h, fps) {
        let size = decimal(w as nat) + ":"@ + decimal(h as nat);
        let a = "scale="@ + size + ":force_original_aspect_ratio=decrease:flags=lanczos"@;
        let b = "pad="@ + size + ":(ow-iw)/2:(oh-ih)/2:color=black"@;
        let c = "fps="@ + decimal(fps as nat);
        let d = "setsar=1"@;
        reveal_strlit("scale=");
        reveal_strlit(":");
        reveal_strlit(":force_original_aspect_ratio=decrease:flags=lanczos");
        reveal_strlit(":force_original_aspect_ratio=decrease:flags=lanczos,pad=");
        reveal_strlit("pad=");
        reveal_strlit(":(ow-iw)/2:(oh-ih)/2:color=black");
        reveal_strlit(":(ow-iw)/2:(oh-ih)/2:color=black,fps=");
        reveal_strlit("fps=");
        reveal_strlit("setsar=1");
        reveal_strlit(",setsar=1");
        number_lacks(w as nat, ',');
        number_lacks(h as nat, ',');
        number_lacks(fps as nat, ',');
        lacks_concat(decimal(w as nat), ":"@, ',');
        lacks_concat(decimal(w as nat) + ":"@, decimal(h as nat), ',');
        lacks_concat("scale="@, size, ',');
        lacks_concat(
            "scale="@ + size,
            ":force_original_aspect_ratio=decrease:flags=lanczos"@,
            ',',
        );
        lacks_concat("pad="@, size, ',');
        lacks_concat("pad="@ + size, ":(ow-iw)/2:(oh-ih)/2:color=black"@, ',');
        lacks_concat("fps="@, decimal(fps as nat), ',');
        assert(":force_original_aspect_ratio=decrease:flags=lanczos,pad="@
            =~= ":force_original_aspect_ratio=decrease:flags=lanczos"@ + seq![','] + "pad="@);
        assert(":(ow-iw)/2:(oh-ih)/2:color=black,fps="@ =~= ":(ow-iw)/2:(oh-ih)/2:color=black"@
            + seq![','] + "fps="@);
        assert(",setsar=1"@ =~= seq![','] + d);
        assert(f =~= a + seq![','] + (b + seq![','] + (c + seq![','] + d)));
        first_piece_is(a, b + seq![','] + (c + seq![','] + d), ',');
        first_piece_is(b, c + seq![','] + d, ',');
        first_piece_is(c, d, ',');
        only_piece_is(d, ',');
        assert(pieces(f, ',') =~= seq![a, b, c, d]);
    }
}

proof fn number_lacks(n: nat, c: char)
    requires
        !is_digit(c),
    ensures
        lacks(decimal(n), c),
{
    decimal_is_digits(n);
}

/// A step that takes two channels of a device as left and right.
pub open spec fn takes_channels(step: Seq<char>, l: nat, r: nat) -> bool {
    step == "pan=stereo|c0=c"@ + decimal(l) + "|c1=c"@ + decimal(r)
}

/// The audio goes through a filter if there is anything to do, and the steps of it can be
/// read: it is muted if and only if silence is wanted, pulled to the clock of a card if and
/// only if it goes to one, and measured, last of all, if and only if the meters are on.
/// Channels are taken, before all else, if and only if the audio of a device with many is
/// wanted; the first channel of the settings is the one that FFmpeg calls zero.
#[verifier::rlimit(60)]
pub proof fn the_audio_filter_does_what_is_wanted(s: EncoderModel)
    ensures
        ({
            let many = s.audio_mode == "custom"@ && (holds(lowered(s.av_audio_name), "dante"@)
                || holds(lowered(s.av_audio_name), "aggregate"@));
            let muted = s.audio_mode == "silent"@;
            let card = s.destination_type == "decklink"@;
            let l: nat = if s.audio_pan_l > 0 {
                (s.audio_pan_l - 1) as nat
            } else {
                0
            };
            let r: nat = if s.audio_pan_r > 0 {
                (s.audio_pan_r - 1) as nat
            } else {
                0
            };
            let a: int = if many {
                1
            } else {
                0
            };
            let b: int = if muted {
                1
            } else {
                0
            };
            let c: int = if card {
                1
            } else {
                0
            };
            let d: int = if s.meters_enabled {
                2
            } else {
                0
            };
            &&& audio_filter(s) is None <==> !many && !muted && !card && !s.meters_enabled
            &&& audio_filter(s) matches Some(f) ==> {
                let v = pieces(f, ',');
                &&& v.len() == a + b + c + d
                &&& many ==> takes_channels(v[0], l, r)
                &&& muted ==> v[a] == "volume=0"@
                &&& card ==> v[a + b] == "aresample=async=1000:first_pts=0"@
                &&& s.meters_enabled ==> v[a + b + c] == "astats=metadata=1:reset=1:length=0.25"@
                    && v[a + b + c + 1] == "ametadata=mode=print:direct=1"@
            }
        }),
{
    let v = audio_steps(s);
    let l = channel_number(s.audio_pan_l);
    let r = channel_number(s.audio_pan_r);
    number_lacks(l, ',');
    number_lacks(r, ',');
    reveal_strlit("pan=stereo|c0=c");
    reveal_strlit("|c1=c");
    reveal_strlit("volume=0");
    reveal_strlit("aresample=async=1000:first_pts=0");
    reveal_strlit("astats=metadata=1:reset=1:length=0.25");
    reveal_strlit("ametadata=mode=print:direct=1");
    reveal_strlit(",");
    let pan = "pan=stereo|c0=c"@ + decimal(l) + "|c1=c"@ + decimal(r);
    lacks_concat("pan=stereo|c0=c"@, decimal(l), ',');
    lacks_concat("pan=stereo|c0=c"@ + decimal(l), "|c1=c"@, ',');
    lacks_concat("pan=stereo|c0=c"@ + decimal(l) + "|c1=c"@, decimal(r), ',');
    assert(lacks(pan, ','));
    assert forall|i: int| 0 <= i < v.len() implies lacks(#[trigger] v[i], ',') by {
        assert(v[i] == pan || v[i] == "volume=0"@ || v[i] == "aresample=async=1000:first_pts=0"@
            || v[i] == "astats=metadata=1:reset=1:length=0.25"@ || v[i]
            == "ametadata=mode=print:direct=1"@);
    }
    assert(","@ =~= seq![',']);
    if v.len() > 0 {
        joined_reads_back(v, ',');
    }
}

/// What the operator is told of a plan that cannot be made names what is wrong: the source, or
/// the mode and the card.
pub proof fn errors_name_what_is_wrong(a: Seq<char>, b: Seq<char>)
    ensures
        plan_error_text(PlanErrorModel::UnsupportedProtocol(a)) == "Unsupported protocol: "@
            + between_quotes(a),
        plan_error_text(PlanErrorModel::UnknownSource(a))
            == "Source resolve failed: Unknown source id: "@ + between_quotes(a),
        begins(
            plan_error_text(PlanErrorModel::NotACardMode(a, b)),
            "DeckLink mode '"@ + a + "' not supported by device '"@ + b + "'"@,
        ),
        begins(plan_error_text(PlanErrorModel::HighEfficiencyAudio(false)), "AAC-HE "@),
        begins(plan_error_text(PlanErrorModel::HighEfficiencyAudio(true)), "AAC-HEv2 "@),
{
    let t = plan_error_text(PlanErrorModel::NotACardMode(a, b));
    let h = "DeckLink mode '"@ + a + "' not supported by device '"@ + b + "'"@;
    reveal_strlit("'");
    reveal_strlit("'. Re-pick a mode from the dropdown.");
    assert(t.subrange(0, h.len() as int) =~= h);
    reveal_strlit("AAC-");
    reveal_strlit("HE");
    reveal_strlit("HEv2");
    reveal_strlit("AAC-HE ");
    reveal_strlit("AAC-HEv2 ");
    reveal_strlit(" not supported by the ATEM SRT decoder. Use AAC-LC or switch destination.");
    let u = plan_error_text(PlanErrorModel::HighEfficiencyAudio(false));
    assert(u.subrange(0, 7) =~= "AAC-HE "@);
    let w = plan_error_text(PlanErrorModel::HighEfficiencyAudio(true));
    assert(w.subrange(0, 9) =~= "AAC-HEv2 "@);
}

/// A stream over SRT to a server goes to the host and the port of its address, whatever follows
/// them there; an address without a port means the usual one.
#[verifier::rlimit(60)]
pub proof fn srt_plans_go_to_the_server(
    s: EncoderModel,
    m: Machine,
    p: PlanModel,
    host: Seq<char>,
    port: u16,
    rest: Seq<char>,
)
    requires
        planned(s, m) == Ok::<PlanModel, PlanErrorModel>(p),
        p.protocol == "srt"@,
        s.srt_mode != "listener"@,
        lacks(host, '/'),
        lacks(host, '?'),
        rest.len() == 0 || rest[0] == '/' || rest[0] == '?',
    ensures
        (active_server(s)->0).1 == "srt://"@ + (host + ":"@ + decimal(port as nat)) + rest
            ==> begins(p.output_url, "srt://"@ + host + ":"@ + decimal(port as nat) + "?"@),
        lacks(host, ':') && (active_server(s)->0).1 == "srt://"@ + host + rest ==> begins(
            p.output_url,
            "srt://"@ + host + ":"@ + decimal(1935) + "?"@,
        ),
{
    let d = active_server(s)->0;
    let a = authority(d.1);
    let u = SrtUrlModel {
        host: host_part(a),
        port: port_part(a, 1935),
        stream_key: s.stream_key,
        device_name: s.label,
        device_uuid: s.device_uuid,
        latency_us: s.srt_latency_us,
        passphrase: if s.passphrase.len() == 0 {
            None
        } else {
            Some(s.passphrase)
        },
        mode: s.srt_mode,
        streamid_override: s.streamid_override,
        listen_port: s.srt_listen_port,
        legacy_streamid: s.streamid_legacy,
    };
    srt_is_no_card();
    assert(p.output_url == srt_url(u));
    let head = "srt://"@ + u.host + ":"@ + decimal(u.port as nat) + "?"@;
    assert(p.output_url =~= head + srt_query(u));
    part_begins(head, srt_query(u));
    if d.1 == "srt://"@ + (host + ":"@ + decimal(port as nat)) + rest {
        let t = decimal(port as nat);
        let w = host + ":"@ + t;
        reveal_strlit(":");
        number_lacks(port as nat, '/');
        number_lacks(port as nat, '?');
        number_lacks(port as nat, ':');
        assert forall|i: int| 0 <= i < w.len() implies #[trigger] w[i] != '/' && w[i] != '?' by {
            if i < host.len() {
                assert(w[i] == host[i]);
            } else if i > host.len() {
                assert(w[i] == t[i - host.len() - 1]);
            }
        }
        authority_is(w, rest);
        let n = host.len() as int;
        assert forall|j: int| n < j < w.len() implies w[j] != ':' by {
            assert(w[j] == t[j - n - 1]);
        }
        last_position_is(w, ':', n);
        assert(w.take(n) =~= host);
        assert(w.skip(n + 1) =~= t);
        parsed_decimal(port as nat, 0xFFFF);
    }
    if lacks(host, ':') && d.1 == "srt://"@ + host + rest {
        missing_ports_are_given(host, rest, 1935);
    }
}

} // verus!
