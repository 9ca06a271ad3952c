//! What holds of the watching of a destination: a packet is read in the order in which its
//! fields were asked for, and what is printed of a try can be read again.
use vstd::prelude::*;
use vstd::utf8::*;

use crate::flows::{
    ack_of, capture_args, default_ports, field16, field32, field_size, first_true, flow_of,
    flow_place, flow_stream, noted_in, packet_of, port_conditions, printed_bool, row_of,
    seen_within, sid_of, with_info, with_packet, Flow, FlowKeyModel, FlowModel, PacketModel,
};
use crate::number::{decimal, decimal_is_digits, is_digit, two_digits};
use crate::probe::{
    clock, csv_heading, csv_line, noted, outcome_label, outcome_word, probe_streamid, probe_url,
    summary, try_args, try_line, ProbeOutcome, Stats, TrackModel,
};
use crate::reading::{
    first_piece_is, lacks, lacks_concat, only_piece_is, parameter, query_is, told, told_from,
    value_in,
};
use crate::scan::{begins, finishes, pieces, position_facts, trimmed, up_to};
use crate::service_laws::{is_count, two_digits_count};
use crate::srt_handshake::key_in;
use crate::streamid::{percent_decoded, percent_encoded, percent_encoded_is_plain, percent_round_trip};
use crate::text::opt_text;

verus! {

// ---------------------------------------------------------------------------
// Packets
// ---------------------------------------------------------------------------

/// The fields that a capture asks for, in order.
pub open spec fn asked(iface: Seq<char>, filter: Seq<char>) -> Seq<Seq<char>> {
    told(capture_args(iface, filter).skip(9), "-e"@)
}

#[verifier::rlimit(60)]
proof fn fields_asked(iface: Seq<char>, filter: Seq<char>)
    ensures
        asked(iface, filter) == seq![
            "frame.time_relative"@,
            "ip.src"@,
            "tcp.srcport"@,
            "udp.srcport"@,
            "ip.dst"@,
            "tcp.dstport"@,
            "udp.dstport"@,
            "_ws.col.Protocol"@,
            "frame.len"@,
            "srt.iscontrol"@,
            "srt.bw"@,
            "srt.rate"@,
            "srt.rtt"@,
            "srt.rttvar"@,
            "srt.bufavail"@,
            "udp.payload"@,
        ],
{
    let a = capture_args(iface, filter).skip(9);
    assert(a.len() == 32);
    reveal_with_fuel(told_from, 17);
    assert(a[0] == "-e"@);
    assert(a[2] == "-e"@);
    assert(a[4] == "-e"@);
    assert(a[6] == "-e"@);
    assert(a[8] == "-e"@);
    assert(a[10] == "-e"@);
    assert(a[12] == "-e"@);
    assert(a[14] == "-e"@);
    assert(a[16] == "-e"@);
    assert(a[18] == "-e"@);
    assert(a[20] == "-e"@);
    assert(a[22] == "-e"@);
    assert(a[24] == "-e"@);
    assert(a[26] == "-e"@);
    assert(a[28] == "-e"@);
    assert(a[30] == "-e"@);
    assert(told(a, "-e"@) =~= seq![
        a[1], a[3], a[5], a[7], a[9], a[11], a[13], a[15], a[17], a[19], a[21], a[23], a[25],
        a[27], a[29], a[31],
    ]);
}

/// A capture listens on the interface with the filter.
pub proof fn captures_listen_where_asked(iface: Seq<char>, filter: Seq<char>)
    ensures
        capture_args(iface, filter)[0] == "-i"@,
        capture_args(iface, filter)[1] == iface,
        capture_args(iface, filter)[3] == "-f"@,
        capture_args(iface, filter)[4] == filter,
        asked(iface, filter).len() == 16,
{
    fields_asked(iface, filter);
}

/// Each part of a packet is read from the field of that name: the two ends and their ports, of
/// UDP or of TCP, the protocol and the length.
pub proof fn packets_are_read_as_asked(
    f: Seq<Seq<char>>,
    iface: Seq<char>,
    filter: Seq<char>,
    p: PacketModel,
)
    requires
        f.len() >= 9,
        packet_of(f) == Some(p),
    ensures
        ({
            let v = asked(iface, filter);
            &&& v[1] == "ip.src"@ && p.key.src_ip == trimmed(f[1]) && f[1].len() > 0
            &&& v[4] == "ip.dst"@ && p.key.dst_ip == trimmed(f[4])
            &&& p.key.is_udp ==> v[3] == "udp.srcport"@ && field16(f[3]) == Some(p.key.src_port)
                && v[6] == "udp.dstport"@ && field16(f[6]) == Some(p.key.dst_port)
            &&& !p.key.is_udp ==> v[2] == "tcp.srcport"@ && field16(f[2]) == Some(p.key.src_port)
                && v[5] == "tcp.dstport"@ && field16(f[5]) == Some(p.key.dst_port)
            &&& v[7] == "_ws.col.Protocol"@ && p.key.protocol == trimmed(f[7])
            &&& v[8] == "frame.len"@ && p.bytes == field_size(f[8])
        }),
{
    fields_asked(iface, filter);
}

/// What a receiver tells is read from the fields of these names; it tells nothing if none of
/// them can be read. The name of a stream is read from the payload of a control packet alone.
pub proof fn answers_are_read_as_asked(f: Seq<Seq<char>>, iface: Seq<char>, filter: Seq<char>)
    requires
        f.len() >= 16,
    ensures
        ({
            let v = asked(iface, filter);
            &&& v[9] == "srt.iscontrol"@ && v[10] == "srt.bw"@ && v[11] == "srt.rate"@ && v[12]
                == "srt.rtt"@ && v[13] == "srt.rttvar"@ && v[14] == "srt.bufavail"@ && v[15]
                == "udp.payload"@
            &&& ack_of(f) matches Some(a) ==> {
                &&& a.is_control <==> printed_bool(f[9]) == Some(true)
                &&& a.bw_pkts_s == field32(f[10])
                &&& a.rate_pkts_s == field32(f[11])
                &&& a.rtt_us == field32(f[12])
                &&& a.rttvar_us == field32(f[13])
                &&& a.buf_avail_pkts == field32(f[14])
            }
            &&& ack_of(f) is None <==> printed_bool(f[9]) is None && field32(f[10]) is None
                && field32(f[11]) is None && field32(f[12]) is None && field32(f[13]) is None
                && field32(f[14]) is None
            &&& sid_of(f) is Some ==> printed_bool(f[9]) == Some(true) && trimmed(f[15]).len() > 0
        }),
{
    fields_asked(iface, filter);
}

/// A packet is counted once, with its bytes, at its time; what a receiver tells in it is kept
/// and counted as well.
pub proof fn packets_are_noted(m: FlowModel, p: PacketModel, now: u64)
    requires
        m.total_bytes + p.bytes <= u64::MAX,
        m.total_packets < u64::MAX,
        m.control_packets < u64::MAX,
    ensures
        ({
            let n = with_info(m, p, now);
            &&& n.total_bytes == m.total_bytes + p.bytes
            &&& n.total_packets == m.total_packets + 1
            &&& n.last_seen == Some(now)
            &&& p.srt matches Some(a) ==> n.control_packets == m.control_packets + 1
                && n.last_srt_ack == Some(a) && n.last_srt_ack_at == Some(now)
            &&& p.srt is None ==> n.control_packets == m.control_packets && n.last_srt_ack
                == m.last_srt_ack && n.last_srt_ack_at == m.last_srt_ack_at
            &&& seen_within(n, now, 1)
        }),
{
}

/// A flow is seen for as long as the limit after its last packet, and no longer.
pub proof fn flows_are_forgotten(m: FlowModel, bytes: u64, at: u64, now: u64, limit: u64)
    requires
        at <= now,
    ensures
        seen_within(with_packet(m, bytes, at), now, limit) <==> now - at < limit,
        m.last_seen is None ==> !seen_within(m, now, limit),
{
}

/// A row shows each part of a flow in its column.
pub proof fn rows_show_their_flow(f: Flow, now: u64, window_secs: u64)
    ensures
        ({
            let r = row_of(f, now, window_secs);
            &&& r.source == f.key@.src_ip + ":"@ + decimal(f.key@.src_port as nat)
            &&& r.destination == f.key@.dst_ip + ":"@ + decimal(f.key@.dst_port as nat)
            &&& f.key@.protocol.len() > 0 ==> r.proto == f.key@.protocol
            &&& f.key@.protocol.len() == 0 ==> r.proto == (if f.key@.is_udp {
                "UDP"@
            } else {
                "TCP"@
            })
            &&& r.total_bytes == f.stats@.total_bytes
            &&& window_secs > 0 ==> r.rate * window_secs <= f.stats@.window_bytes < (r.rate + 1)
                * window_secs
            &&& r.moving <==> f.stats@.window_packets > 0
            &&& f.stats@.last_seen matches Some(t) ==> (t <= now ==> r.idle == Some((now - t) as u64))
        }),
{
    if window_secs > 0 {
        let n = f.stats@.window_bytes;
        let q = n / window_secs;
        vstd::arithmetic::div_mod::lemma_fundamental_div_mod(n as int, window_secs as int);
        vstd::arithmetic::div_mod::lemma_mod_bound(n as int, window_secs as int);
        assert(window_secs * q == q * window_secs) by (nonlinear_arith);
        assert((q + 1) * window_secs == q * window_secs + window_secs) by (nonlinear_arith);
    }
}

// ---------------------------------------------------------------------------
// Tries
// ---------------------------------------------------------------------------

/// A try reads from the address.
pub proof fn tries_read_the_address(url: Seq<char>)
    ensures
        told(try_args(url).skip(1), "-i"@) == seq![url],
        told(try_args(url).skip(1), "-f"@) == seq!["null"@],
        try_args(url).last() == "-"@,
{
    try_flags_differ();
    reveal_with_fuel(told_from, 7);
    let a = try_args(url).skip(1);
    assert(a.len() == 11);
    assert(a[0] == "-loglevel"@ && a[2] == "-timeout"@ && a[4] == "-i"@ && a[6] == "-t"@ && a[8]
        == "-f"@);
    assert(told(a, "-i"@) =~= seq![a[5]]);
    assert(told(a, "-f"@) =~= seq![a[9]]);
}

proof fn try_flags_differ()
    ensures
        "-i"@ != "-loglevel"@,
        "-i"@ != "-timeout"@,
        "-i"@ != "-t"@,
        "-i"@ != "-f"@,
        "-f"@ != "-loglevel"@,
        "-f"@ != "-timeout"@,
        "-f"@ != "-t"@,
{
    reveal_strlit("-i");
    reveal_strlit("-f");
    reveal_strlit("-loglevel");
    reveal_strlit("-timeout");
    reveal_strlit("-t");
    assert("-i"@.len() == 2);
    assert("-f"@.len() == 2);
    assert("-loglevel"@.len() == 9);
    assert("-timeout"@.len() == 8);
    assert("-t"@.len() == 2);
    assert("-i"@[1] == 'i');
    assert("-t"@[1] == 't');
    assert("-f"@[1] == 'f');
}

/// A try with a key goes to the destination without its own parameters, as a caller, and tells
/// the key.
#[verifier::rlimit(60)]
pub proof fn tries_tell_the_key(base: Seq<char>, key: Seq<char>)
    ensures
        begins(probe_url(base, key), up_to(base, '?') + "?"@),
        parameter(probe_url(base, key), "mode="@) == Some("caller"@),
        parameter(probe_url(base, key), "streamid="@) matches Some(v) && percent_decoded(v)
            == encode_utf8(probe_streamid(key)),
        finishes(probe_streamid(key), ",u="@ + key),
{
    let front = up_to(base, '?');
    position_facts(base, '?');
    assert(lacks(front, '?'));
    let bytes = encode_utf8(probe_streamid(key));
    let e = percent_encoded(bytes);
    percent_encoded_is_plain(bytes);
    percent_round_trip(bytes);
    reveal_strlit("?mode=caller&latency=500000&streamid=");
    reveal_strlit("?");
    reveal_strlit("mode=caller");
    reveal_strlit("latency=500000");
    reveal_strlit("streamid=");
    reveal_strlit("mode=");
    reveal_strlit("caller");
    let a = "mode=caller"@;
    let b = "latency=500000"@;
    let c = "streamid="@ + e;
    let q = a + seq!['&'] + (b + seq!['&'] + c);
    let u = probe_url(base, key);
    assert("?mode=caller&latency=500000&streamid="@ =~= "?"@ + a + seq!['&'] + b + seq!['&']
        + "streamid="@);
    assert(u =~= front + "?"@ + q);
    query_is(front, q);
    lacks_concat("streamid="@, e, '&');
    first_piece_is(a, b + seq!['&'] + c, '&');
    first_piece_is(b, c, '&');
    only_piece_is(c, '&');
    let v = pieces(q, '&');
    assert(v =~= seq![a, b, c]);
    reveal_with_fuel(value_in, 4);
    let v1 = v.drop_first();
    let v2 = v1.drop_first();
    assert(v[0] == a && v1[0] == b && v2[0] == c);
    assert(a.subrange(0, 5) =~= "mode="@);
    assert(a.skip(5) =~= "caller"@);
    assert(a[0] == 'm' && b[0] == 'l' && "streamid="@[0] == 's');
    assert(!begins(a, "streamid="@)) by {
        if begins(a, "streamid="@) {
            assert(a.subrange(0, 9)[0] == a[0]);
        }
    }
    assert(!begins(b, "streamid="@)) by {
        if begins(b, "streamid="@) {
            assert(b.subrange(0, 9)[0] == b[0]);
        }
    }
    assert(c.subrange(0, 9) =~= "streamid="@);
    assert(c.skip(9) =~= e);
    assert(u.subrange(0, front.len() as int + 1) =~= front + "?"@);
    let s = probe_streamid(key);
    let t = ",u="@ + key;
    assert(s.subrange(s.len() - t.len(), s.len() as int) =~= t);
}

/// A row of the table has the columns of its heading, in their order: the time, the time of
/// day, the key, the outcome and the latency.
#[verifier::rlimit(60)]
pub proof fn rows_have_their_columns(secs: u64, key: Seq<char>, outcome: ProbeOutcome, ms: u64)
    requires
        lacks(key, ','),
    ensures
        pieces(csv_heading(), ',') == seq![
            "unix_seconds"@,
            "clock"@,
            "key"@,
            "outcome"@,
            "latency_ms"@,
        ],
        pieces(csv_line(secs, key, outcome, ms), ',') == seq![
            decimal(secs as nat),
            clock(secs),
            key,
            outcome_word(outcome),
            decimal(ms as nat),
        ],
{
    let c = seq![','];
    reveal_strlit(",");
    assert(","@ =~= c);
    reveal_strlit("unix_seconds");
    reveal_strlit("clock");
    reveal_strlit("key");
    reveal_strlit("outcome");
    reveal_strlit("latency_ms");
    reveal_strlit("unix_seconds,clock,key,outcome,latency_ms");
    five_pieces("unix_seconds"@, "clock"@, "key"@, "outcome"@, "latency_ms"@);
    assert(csv_heading() =~= "unix_seconds"@ + c + ("clock"@ + c + ("key"@ + c + ("outcome"@ + c
        + "latency_ms"@))));
    reveal_strlit("connected");
    reveal_strlit("rejected");
    reveal_strlit("timeout");
    reveal_strlit(":");
    decimal_lacks(secs as nat);
    decimal_lacks(ms as nat);
    two_digits_lack(((secs / 3600) % 24) as nat);
    two_digits_lack(((secs / 60) % 60) as nat);
    two_digits_lack((secs % 60) as nat);
    let h = two_digits(((secs / 3600) % 24) as nat);
    let m = two_digits(((secs / 60) % 60) as nat);
    let s = two_digits((secs % 60) as nat);
    lacks_concat(h, ":"@, ',');
    lacks_concat(h + ":"@, m, ',');
    lacks_concat(h + ":"@ + m, ":"@, ',');
    lacks_concat(h + ":"@ + m + ":"@, s, ',');
    let w = outcome_word(outcome);
    assert(lacks(w, ','));
    five_pieces(decimal(secs as nat), clock(secs), key, w, decimal(ms as nat));
    assert(csv_line(secs, key, outcome, ms) =~= decimal(secs as nat) + c + (clock(secs) + c + (key
        + c + (w + c + decimal(ms as nat)))));
}

proof fn five_pieces(a: Seq<char>, b: Seq<char>, d: Seq<char>, e: Seq<char>, f: Seq<char>)
    requires
        lacks(a, ','),
        lacks(b, ','),
        lacks(d, ','),
        lacks(e, ','),
        lacks(f, ','),
    ensures
        pieces(
            a + seq![','] + (b + seq![','] + (d + seq![','] + (e + seq![','] + f))),
            ',',
        ) == seq![a, b, d, e, f],
{
    let c = seq![','];
    first_piece_is(a, b + c + (d + c + (e + c + f)), ',');
    first_piece_is(b, d + c + (e + c + f), ',');
    first_piece_is(d, e + c + f, ',');
    first_piece_is(e, f, ',');
    only_piece_is(f, ',');
    assert(seq![a] + (seq![b] + (seq![d] + (seq![e] + seq![f]))) =~= seq![a, b, d, e, f]);
}

proof fn decimal_lacks(n: nat)
    ensures
        lacks(decimal(n), ','),
{
    decimal_is_digits(n);
    assert(!is_digit(','));
}

proof fn two_digits_lack(n: nat)
    ensures
        lacks(two_digits(n), ','),
{
    decimal_lacks(n);
    lacks_concat(seq!['0'], decimal(n), ',');
}

/// A summary tells each figure after its name.
pub proof fn summaries_name_their_figures(s: Stats, pct: Seq<char>)
    ensures
        ({
            let t = summary(s, pct);
            let mean: nat = if s.total_probes > 0 {
                (s.latency_sum_ms / s.total_probes) as nat
            } else {
                0
            };
            &&& begins(
                t,
                "probes="@ + decimal(s.total_probes as nat) + "  ok="@ + decimal(
                    s.connected as nat,
                ) + " ("@ + pct + "%)  reject="@ + decimal(s.rejected as nat) + "  timeout="@
                    + decimal(s.timeout as nat),
            )
            &&& finishes(
                t,
                "  latency: min="@ + decimal(s.latency_min_ms as nat) + "ms avg="@ + decimal(mean)
                    + "ms max="@ + decimal(s.latency_max_ms as nat) + "ms"@,
            )
        }),
{
    let t = summary(s, pct);
    let mean: nat = if s.total_probes > 0 {
        (s.latency_sum_ms / s.total_probes) as nat
    } else {
        0
    };
    let a = "probes="@ + decimal(s.total_probes as nat) + "  ok="@ + decimal(s.connected as nat)
        + " ("@ + pct + "%)  reject="@ + decimal(s.rejected as nat) + "  timeout="@ + decimal(
        s.timeout as nat,
    );
    let b = "  latency: min="@ + decimal(s.latency_min_ms as nat) + "ms avg="@ + decimal(mean)
        + "ms max="@ + decimal(s.latency_max_ms as nat) + "ms"@;
    assert(t =~= a + b);
    assert(t.subrange(0, a.len() as int) =~= a);
    assert(t.subrange(t.len() - b.len(), t.len() as int) =~= b);
}

/// After a try its result is the last one, and the streak is how often the result has been the
/// same without a break: one more than before if it was the same, one if it was not.
pub proof fn streaks_count_equal_results(t: TrackModel, outcome: ProbeOutcome, ms: u64)
    requires
        t.streak < u32::MAX,
        t.last is None ==> t.streak == 0,
    ensures
        ({
            let good = outcome == ProbeOutcome::Connected;
            let n = noted(t, outcome, ms);
            &&& n.last == Some(good)
            &&& t.last == Some(good) ==> n.streak == t.streak + 1
            &&& t.last != Some(good) ==> n.streak == 1
        }),
{
}

/// A line of the log tells the key, the outcome and the time. A change is told as one.
pub proof fn lines_tell_the_try(key: Seq<char>, t: TrackModel, outcome: ProbeOutcome, ms: u64)
    ensures
        ({
            let line = try_line(key, t, outcome, ms);
            let change = t.last is Some && t.last != Some(outcome == ProbeOutcome::Connected);
            &&& change ==> begins(line, "=== STATE CHANGE === "@) && finishes(
                line,
                " -> "@ + outcome_label(outcome) + "   ("@ + decimal(ms as nat) + "ms)"@,
            )
            &&& !change && key.len() > 0 ==> begins(
                line,
                key + "  "@ + outcome_label(outcome) + "  ("@ + decimal(ms as nat) + "ms)"@,
            )
            &&& !change && key.len() == 0 ==> begins(
                line,
                outcome_label(outcome) + "  ("@ + decimal(ms as nat) + "ms)"@,
            )
        }),
{
    let line = try_line(key, t, outcome, ms);
    let change = t.last is Some && t.last != Some(outcome == ProbeOutcome::Connected);
    if change {
        let a = "=== STATE CHANGE === "@;
        let b = " -> "@ + outcome_label(outcome) + "   ("@ + decimal(ms as nat) + "ms)"@;
        assert(line.subrange(0, a.len() as int) =~= a);
        assert(line.subrange(line.len() - b.len(), line.len() as int) =~= b);
    } else if key.len() > 0 {
        let a = key + "  "@ + outcome_label(outcome) + "  ("@ + decimal(ms as nat) + "ms)"@;
        assert(line.subrange(0, a.len() as int) =~= a);
    } else {
        let a = outcome_label(outcome) + "  ("@ + decimal(ms as nat) + "ms)"@;
        assert(line.subrange(0, a.len() as int) =~= a);
    }
}

/// Outcomes are told apart by their names, in the log and in the table.
pub proof fn outcomes_have_their_names(a: ProbeOutcome, b: ProbeOutcome)
    ensures
        a == b <==> outcome_label(a) == outcome_label(b),
        a == b <==> outcome_word(a) == outcome_word(b),
        outcome_word(ProbeOutcome::Connected) == "connected"@,
        outcome_word(ProbeOutcome::Rejected) == "rejected"@,
        outcome_word(ProbeOutcome::Timeout) == "timeout"@,
{
    outcome_names_differ();
}

proof fn outcome_names_differ()
    ensures
        "CONNECTED"@ != "REJECTED "@,
        "CONNECTED"@ != "TIMEOUT  "@,
        "CONNECTED"@ != "connected"@,
        "CONNECTED"@ != "rejected"@,
        "CONNECTED"@ != "timeout"@,
        "REJECTED "@ != "TIMEOUT  "@,
        "REJECTED "@ != "connected"@,
        "REJECTED "@ != "rejected"@,
        "REJECTED "@ != "timeout"@,
        "TIMEOUT  "@ != "connected"@,
        "TIMEOUT  "@ != "rejected"@,
        "TIMEOUT  "@ != "timeout"@,
        "connected"@ != "rejected"@,
        "connected"@ != "timeout"@,
        "rejected"@ != "timeout"@,
{
    reveal_strlit("CONNECTED");
    reveal_strlit("REJECTED ");
    reveal_strlit("TIMEOUT  ");
    reveal_strlit("connected");
    reveal_strlit("rejected");
    reveal_strlit("timeout");
    assert("CONNECTED"@.len() == 9);
    assert("REJECTED "@.len() == 9);
    assert("TIMEOUT  "@.len() == 9);
    assert("connected"@.len() == 9);
    assert("rejected"@.len() == 8);
    assert("timeout"@.len() == 7);
    assert("CONNECTED"@[0] == 'C');
    assert("REJECTED "@[0] == 'R');
    assert("TIMEOUT  "@[0] == 'T');
    assert("connected"@[0] == 'c');
}

// ---------------------------------------------------------------------------
// The table of flows
// ---------------------------------------------------------------------------

/// A packet changes its own flow alone, and adds one if it is the first of its flow. The key of
/// its stream is kept if the packet tells it.
pub proof fn packets_change_their_flow_alone(
    a: Seq<Flow>,
    b: Seq<Flow>,
    p: PacketModel,
    now: u64,
    other: FlowKeyModel,
)
    requires
        noted_in(a, b, p, now, true),
        other != p.key,
    ensures
        flow_of(b, p.key) == with_info(flow_of(a, p.key), p, now),
        flow_of(b, other) == flow_of(a, other),
        flow_stream(b, other) == flow_stream(a, other),
        p.stream_id matches Some(sid) ==> flow_stream(b, p.key) == Some(
            match key_in(sid) {
                Some(k) => k,
                None => sid,
            },
        ),
        p.stream_id is None ==> flow_stream(b, p.key) == flow_stream(a, p.key),
        a.len() <= b.len() <= a.len() + 1,
{
}

/// A flow is found by all parts of its key.
pub proof fn flows_are_found_by_their_key(v: Seq<Flow>, key: FlowKeyModel, i: int)
    requires
        0 <= i < v.len(),
        v[i].key@ == key,
        forall|j: int| 0 <= j < i ==> (#[trigger] v[j]).key@ != key,
    ensures
        flow_of(v, key) == v[i].stats@,
        flow_stream(v, key) == opt_text(v[i].stream_key),
{
    place_is(v, key, i);
}

proof fn place_is(v: Seq<Flow>, key: FlowKeyModel, i: int)
    requires
        0 <= i < v.len(),
        v[i].key@ == key,
        forall|j: int| 0 <= j < i ==> (#[trigger] v[j]).key@ != key,
    ensures
        flow_place(v, key) == i,
    decreases v.len(),
{
    if i > 0 {
        let w = v.drop_first();
        assert(v[0].key@ != key);
        assert forall|j: int| 0 <= j < i - 1 implies (#[trigger] w[j]).key@ != key by {
            assert(w[j] == v[j + 1]);
        }
        place_is(w, key, i - 1);
    }
}

/// Each port is a condition of its own, by its number; without a choice the ports of RTMP, of
/// SRT and of the control are watched.
pub proof fn ports_are_watched(ports: Seq<u16>, i: int)
    requires
        0 <= i < ports.len(),
    ensures
        port_conditions(ports).len() == ports.len(),
        port_conditions(ports)[i] == "port "@ + decimal(ports[i] as nat),
        default_ports() == seq![1935u16, 9710u16, 9977u16, 1936u16],
{
}

/// The first program that is there is taken.
pub proof fn the_first_that_is_there_is_taken(v: Seq<bool>)
    ensures
        match first_true(v) {
            Some(i) => 0 <= i < v.len() && v[i] && forall|j: int| 0 <= j < i ==> !#[trigger] v[j],
            None => forall|j: int| 0 <= j < v.len() ==> !#[trigger] v[j],
        },
    decreases v.len(),
{
    if v.len() > 0 {
        let w = v.drop_last();
        the_first_that_is_there_is_taken(w);
        assert forall|j: int| 0 <= j < w.len() implies w[j] == #[trigger] v[j] by {}
        assert(v[v.len() - 1] == v.last());
    }
}

/// The parts of a time of day are the hours, the minutes and the seconds.
pub open spec fn are_three_counts(v: Seq<Seq<char>>, h: int, m: int, s: int) -> bool {
    v.len() == 3 && is_count(v[0], h) && is_count(v[1], m) && is_count(v[2], s)
}

/// A time of day is told in hours below twenty-four, minutes and seconds below sixty, which add
/// up to the seconds of the day.
pub proof fn clocks_tell_the_time(secs: u64)
    ensures
        ({
            let v = pieces(clock(secs), ':');
            exists|h: int, m: int, s: int|
                {
                    &&& #[trigger] are_three_counts(v, h, m, s)
                    &&& 0 <= h < 24 && 0 <= m < 60 && 0 <= s < 60
                    &&& h * 3600 + m * 60 + s == secs % 86_400
                }
        }),
{
    let h = ((secs / 3600) % 24) as nat;
    let m = ((secs / 60) % 60) as nat;
    let s = (secs % 60) as nat;
    three_parts(h, m, s);
    parts_of_the_day(secs as int);
    assert(are_three_counts(pieces(clock(secs), ':'), h as int, m as int, s as int));
}

proof fn three_parts(h: nat, m: nat, s: nat)
    ensures
        are_three_counts(
            pieces(two_digits(h) + ":"@ + two_digits(m) + ":"@ + two_digits(s), ':'),
            h as int,
            m as int,
            s as int,
        ),
{
    two_digits_count(h);
    two_digits_count(m);
    two_digits_count(s);
    let c = seq![':'];
    reveal_strlit(":");
    assert(":"@ =~= c);
    let t = two_digits(h) + ":"@ + two_digits(m) + ":"@ + two_digits(s);
    assert(t =~= two_digits(h) + c + (two_digits(m) + c + two_digits(s)));
    first_piece_is(two_digits(h), two_digits(m) + c + two_digits(s), ':');
    first_piece_is(two_digits(m), two_digits(s), ':');
    only_piece_is(two_digits(s), ':');
    assert(pieces(t, ':') =~= seq![two_digits(h), two_digits(m), two_digits(s)]);
}

#[verifier::spinoff_prover]
proof fn parts_of_the_day(t: int)
    requires
        t >= 0,
    ensures
        0 <= (t / 3600) % 24 < 24,
        0 <= (t / 60) % 60 < 60,
        0 <= t % 60 < 60,
        ((t / 3600) % 24) * 3600 + ((t / 60) % 60) * 60 + t % 60 == t % 86_400,
{
    let d = t / 86_400;
    let r = t % 86_400;
    assert(t == 86_400 * d + r);
    assert(t / 3600 == 24 * d + r / 3600);
    assert((t / 3600) % 24 == r / 3600);
    assert(t / 60 == 1_440 * d + r / 60);
    assert((t / 60) % 60 == (r / 60) % 60);
    assert(t % 60 == r % 60);
    assert(r / 60 == 60 * (r / 3600) + (r / 60) % 60);
}

} // verus!
