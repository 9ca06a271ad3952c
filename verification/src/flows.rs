//! Network traffic as a packet analyser reports it, gathered into flows.
use std::collections::VecDeque;
use vstd::prelude::*;
use vstd::string::*;
use vstd::utf8::*;

use crate::number::{decimal, parse_u16, parse_u32, parse_u64, parsed, show};
use crate::rank::{places, rank, ranked, ranked_is_an_order};
use crate::scan::{pieces, split, trim, trimmed};
use crate::srt_handshake::{
    extract_bmd_key, handshake_streamid, hex_bytes, hex_decode, key_in, parse_srt_handshake_streamid,
};
use crate::text::{args, cat2, cat3, join, joined, opt_text, same, str_texts, texts};

verus! {

// ---------------------------------------------------------------------------
// The analyser
// ---------------------------------------------------------------------------

/// The arguments with which the analyser captures, and the fields that it prints for
/// each packet.
pub open spec fn capture_args(iface: Seq<char>, filter: Seq<char>) -> Seq<Seq<char>> {
    seq![
        "-i"@, iface, "-l"@, "-f"@, filter,
        "-T"@, "fields"@, "-E"@, "separator=,"@,
        "-e"@, "frame.time_relative"@,
        "-e"@, "ip.src"@,
        "-e"@, "tcp.srcport"@,
        "-e"@, "udp.srcport"@,
        "-e"@, "ip.dst"@,
        "-e"@, "tcp.dstport"@,
        "-e"@, "udp.dstport"@,
        "-e"@, "_ws.col.Protocol"@,
        "-e"@, "frame.len"@,
        "-e"@, "srt.iscontrol"@,
        "-e"@, "srt.bw"@,
        "-e"@, "srt.rate"@,
        "-e"@, "srt.rtt"@,
        "-e"@, "srt.rttvar"@,
        "-e"@, "srt.bufavail"@,
        "-e"@, "udp.payload"@,
    ]
}

/// The arguments with which the analyser captures.
pub fn tshark_field_args(iface: &str, filter: &str) -> (r: Vec<String>)
    ensures
        texts(r@) == capture_args(iface@, filter@),
{
    let list: [&str; 41] = [
        "-i", iface, "-l", "-f", filter,
        "-T", "fields", "-E", "separator=,",
        "-e", "frame.time_relative",
        "-e", "ip.src",
        "-e", "tcp.srcport",
        "-e", "udp.srcport",
        "-e", "ip.dst",
        "-e", "tcp.dstport",
        "-e", "udp.dstport",
        "-e", "_ws.col.Protocol",
        "-e", "frame.len",
        "-e", "srt.iscontrol",
        "-e", "srt.bw",
        "-e", "srt.rate",
        "-e", "srt.rtt",
        "-e", "srt.rttvar",
        "-e", "srt.bufavail",
        "-e", "udp.payload",
    ];
    let mut out: Vec<String> = Vec::new();
    args(&mut out, &list);
    assert(str_texts(list@) =~= capture_args(iface@, filter@));
    assert(texts(out@) =~= capture_args(iface@, filter@));
    out
}

/// Where the analyser may be, the first place first.
pub open spec fn analyser_places() -> Seq<Seq<char>> {
    seq![
        "/Applications/Wireshark.app/Contents/MacOS/tshark"@,
        "/usr/local/bin/tshark"@,
        "/opt/homebrew/bin/tshark"@,
        "/usr/bin/tshark"@,
    ]
}

/// Where the analyser may be.
pub fn tshark_paths() -> (r: Vec<String>)
    ensures
        texts(r@) == analyser_places(),
{
    let list: [&str; 4] = [
        "/Applications/Wireshark.app/Contents/MacOS/tshark",
        "/usr/local/bin/tshark",
        "/opt/homebrew/bin/tshark",
        "/usr/bin/tshark",
    ];
    let mut out: Vec<String> = Vec::new();
    args(&mut out, &list);
    assert(str_texts(list@) =~= analyser_places());
    assert(texts(out@) =~= analyser_places());
    out
}

/// The place of the first `true`.
pub open spec fn first_true(v: Seq<bool>) -> Option<int>
    decreases v.len(),
{
    if v.len() == 0 {
        None
    } else {
        match first_true(v.drop_last()) {
            Some(i) => Some(i),
            None => if v.last() {
                Some(v.len() - 1)
            } else {
                None
            },
        }
    }
}

/// The analyser, given which of its places hold a file.
pub fn find_tshark(is_file: &Vec<bool>) -> (r: Option<String>)
    requires
        is_file@.len() == 4,
    ensures
        opt_text(r) == (match first_true(is_file@) {
            Some(i) => Some(analyser_places()[i]),
            None => None,
        }),
{
    let list: Vec<String> = tshark_paths();
    let mut found: Option<usize> = None;
    let mut i: usize = 0;
    assert(is_file@.take(0).len() == 0);
    while i < 4
        invariant
            i <= 4,
            is_file@.len() == 4,
            found is Some <==> first_true(is_file@.take(i as int)) is Some,
            found matches Some(k) ==> k < i && first_true(is_file@.take(i as int)) == Some(
                k as int,
            ),
        decreases 4 - i,
    {
        assert(is_file@.take(i + 1).drop_last() == is_file@.take(i as int));
        if found.is_none() && is_file[i] {
            found = Some(i);
        }
        i += 1;
    }
    assert(is_file@.take(4) == is_file@);
    match found {
        Some(k) => {
            assert(texts(list@).len() == 4);
            assert(texts(list@)[k as int] == list@[k as int]@);
            Some(list[k].clone())
        },
        None => None,
    }
}

/// The ports that are watched if none is given.
pub open spec fn default_ports() -> Seq<u16> {
    seq![1935u16, 9710u16, 9977u16, 1936u16]
}

/// The ports that are watched.
pub fn monitored_ports(ports: &Vec<u16>) -> (r: Vec<u16>)
    ensures
        r@ == (if ports@.len() == 0 {
            default_ports()
        } else {
            ports@
        }),
{
    let mut out: Vec<u16> = Vec::new();
    if ports.len() == 0 {
        out.push(1935);
        out.push(9710);
        out.push(9977);
        out.push(1936);
        assert(out@ =~= default_ports());
        return out;
    }
    let mut i: usize = 0;
    while i < ports.len()
        invariant
            i <= ports@.len(),
            out@ == ports@.take(i as int),
        decreases ports@.len() - i,
    {
        out.push(ports[i]);
        i += 1;
        assert(ports@.take(i as int) == ports@.take(i - 1).push(ports@[i - 1]));
    }
    assert(ports@.take(i as int) == ports@);
    out
}

/// The conditions for the ports.
pub open spec fn port_conditions(ports: Seq<u16>) -> Seq<Seq<char>> {
    Seq::new(ports.len(), |i: int| "port "@ + decimal(ports[i] as nat))
}

/// The condition under which a packet is captured: it is from or to one of the
/// ports.
pub fn capture_filter(ports: &Vec<u16>) -> (r: String)
    ensures
        r@ == joined(port_conditions(ports@), " or "@),
{
    let mut parts: Vec<String> = Vec::new();
    let mut i: usize = 0;
    while i < ports.len()
        invariant
            i <= ports@.len(),
            parts@.len() == i,
            forall|j: int|
                0 <= j < i ==> (#[trigger] parts@[j])@ == "port "@ + decimal(ports@[j] as nat),
        decreases ports@.len() - i,
    {
        let p: String = show(ports[i] as u64);
        parts.push(cat2("port ", p.as_str()));
        i += 1;
    }
    assert(texts(parts@) =~= port_conditions(ports@));
    join(&parts, " or ")
}

// ---------------------------------------------------------------------------
// Packets
// ---------------------------------------------------------------------------

/// What a receiver tells a sender of an SRT stream.
#[derive(Clone, Copy, Debug)]
pub struct SrtAck {
    pub is_control: bool,
    /// The bandwidth, in packets a second.
    pub bw_pkts_s: Option<u32>,
    /// The rate at which packets arrive, in packets a second.
    pub rate_pkts_s: Option<u32>,
    /// The time to the other end and back, in microseconds.
    pub rtt_us: Option<u32>,
    /// How much that varies, in microseconds.
    pub rttvar_us: Option<u32>,
    /// The room in the receiver's buffer, in packets.
    pub buf_avail_pkts: Option<u32>,
}

/// A packet.
#[derive(Debug)]
pub struct PacketInfo {
    pub src_ip: String,
    pub src_port: u16,
    pub dst_ip: String,
    pub dst_port: u16,
    pub is_udp: bool,
    pub protocol: String,
    pub bytes: u64,
    pub srt: Option<SrtAck>,
    /// The stream id, if the packet tells one.
    pub stream_id: Option<String>,
}

/// What makes a flow: the two ends, how they talk, and in which protocol.
#[derive(Debug)]
pub struct FlowKey {
    pub src_ip: String,
    pub src_port: u16,
    pub dst_ip: String,
    pub dst_port: u16,
    pub is_udp: bool,
    pub protocol: String,
}

/// What a `FlowKey` holds.
pub struct FlowKeyModel {
    pub src_ip: Seq<char>,
    pub src_port: u16,
    pub dst_ip: Seq<char>,
    pub dst_port: u16,
    pub is_udp: bool,
    pub protocol: Seq<char>,
}

impl View for FlowKey {
    type V = FlowKeyModel;

    open spec fn view(&self) -> FlowKeyModel {
        FlowKeyModel {
            src_ip: self.src_ip@,
            src_port: self.src_port,
            dst_ip: self.dst_ip@,
            dst_port: self.dst_port,
            is_udp: self.is_udp,
            protocol: self.protocol@,
        }
    }
}

/// What a `PacketInfo` holds.
pub struct PacketModel {
    pub key: FlowKeyModel,
    pub bytes: u64,
    pub srt: Option<SrtAck>,
    pub stream_id: Option<Seq<char>>,
}

impl View for PacketInfo {
    type V = PacketModel;

    open spec fn view(&self) -> PacketModel {
        PacketModel {
            key: FlowKeyModel {
                src_ip: self.src_ip@,
                src_port: self.src_port,
                dst_ip: self.dst_ip@,
                dst_port: self.dst_port,
                is_udp: self.is_udp,
                protocol: self.protocol@,
            },
            bytes: self.bytes,
            srt: self.srt,
            stream_id: opt_text(self.stream_id),
        }
    }
}

impl FlowKey {
    /// The same key again.
    pub fn duplicate(&self) -> (r: FlowKey)
        ensures
            r@ == self@,
    {
        FlowKey {
            src_ip: self.src_ip.clone(),
            src_port: self.src_port,
            dst_ip: self.dst_ip.clone(),
            dst_port: self.dst_port,
            is_udp: self.is_udp,
            protocol: self.protocol.clone(),
        }
    }

    /// Whether two keys are the same.
    pub fn is(&self, other: &FlowKey) -> (r: bool)
        ensures
            r == (self@ == other@),
    {
        self.src_port == other.src_port && self.dst_port == other.dst_port && self.is_udp
            == other.is_udp && same(self.src_ip.as_str(), other.src_ip.as_str()) && same(
            self.dst_ip.as_str(),
            other.dst_ip.as_str(),
        ) && same(self.protocol.as_str(), other.protocol.as_str())
    }
}

impl PacketInfo {
    /// The flow that the packet belongs to.
    pub fn flow_key(&self) -> (r: FlowKey)
        ensures
            r@ == self@.key,
    {
        FlowKey {
            src_ip: self.src_ip.clone(),
            src_port: self.src_port,
            dst_ip: self.dst_ip.clone(),
            dst_port: self.dst_port,
            is_udp: self.is_udp,
            protocol: self.protocol.clone(),
        }
    }
}

/// A truth value as the analyser prints it.
pub open spec fn printed_bool(field: Seq<char>) -> Option<bool> {
    let t = trimmed(field);
    if t == "1"@ || t == "True"@ || t == "true"@ {
        Some(true)
    } else if t == "0"@ || t == "False"@ || t == "false"@ {
        Some(false)
    } else {
        None
    }
}

/// A truth value as the analyser prints it.
pub fn parse_tshark_bool(field: &str) -> (r: Option<bool>)
    ensures
        r == printed_bool(field@),
{
    let t: String = trim(field);
    if same(t.as_str(), "1") || same(t.as_str(), "True") || same(t.as_str(), "true") {
        Some(true)
    } else if same(t.as_str(), "0") || same(t.as_str(), "False") || same(t.as_str(), "false") {
        Some(false)
    } else {
        None
    }
}

/// A number of sixteen bits in a field.
pub open spec fn field16(f: Seq<char>) -> Option<u16> {
    match parsed(trimmed(f), 0xFFFF) {
        Some(n) => Some(n as u16),
        None => None,
    }
}

/// A number of thirty-two bits in a field.
pub open spec fn field32(f: Seq<char>) -> Option<u32> {
    match parsed(trimmed(f), 0xFFFF_FFFF) {
        Some(n) => Some(n as u32),
        None => None,
    }
}

/// A size in a field; zero if there is none.
pub open spec fn field_size(f: Seq<char>) -> u64 {
    match parsed(trimmed(f), u64::MAX as int) {
        Some(n) => n as u64,
        None => 0,
    }
}

/// The ports of a packet, and whether they are those of UDP, which go first.
pub open spec fn ports_of(f: Seq<Seq<char>>) -> Option<(u16, u16, bool)> {
    if field16(f[3]) is Some && field16(f[6]) is Some {
        Some((field16(f[3])->0, field16(f[6])->0, true))
    } else if field16(f[2]) is Some && field16(f[5]) is Some {
        Some((field16(f[2])->0, field16(f[5])->0, false))
    } else {
        None
    }
}

/// What a receiver tells in a packet, if one of its fields is filled in.
pub open spec fn ack_of(f: Seq<Seq<char>>) -> Option<SrtAck> {
    if f.len() < 15 {
        None
    } else if printed_bool(f[9]) is None && field32(f[10]) is None && field32(f[11]) is None && field32(
        f[12],
    ) is None && field32(f[13]) is None && field32(f[14]) is None {
        None
    } else {
        Some(
            SrtAck {
                is_control: printed_bool(f[9]) == Some(true),
                bw_pkts_s: field32(f[10]),
                rate_pkts_s: field32(f[11]),
                rtt_us: field32(f[12]),
                rttvar_us: field32(f[13]),
                buf_avail_pkts: field32(f[14]),
            },
        )
    }
}

/// The stream id that a packet tells: only control packets do.
pub open spec fn sid_of(f: Seq<Seq<char>>) -> Option<Seq<char>> {
    match ack_of(f) {
        Some(a) => if a.is_control && f.len() >= 16 && trimmed(f[15]).len() > 0 {
            handshake_streamid(hex_bytes(encode_utf8(trimmed(f[15]))))
        } else {
            None
        },
        None => None,
    }
}

/// The packet that a line's fields describe; `None` if there are too few, or it is
/// not of an IP connection.
pub open spec fn packet_of(f: Seq<Seq<char>>) -> Option<PacketModel> {
    if f.len() < 9 || trimmed(f[1]).len() == 0 || trimmed(f[4]).len() == 0 {
        None
    } else {
        match ports_of(f) {
            None => None,
            Some(p) => Some(
                PacketModel {
                    key: FlowKeyModel {
                        src_ip: trimmed(f[1]),
                        src_port: p.0,
                        dst_ip: trimmed(f[4]),
                        dst_port: p.1,
                        is_udp: p.2,
                        protocol: trimmed(f[7]),
                    },
                    bytes: field_size(f[8]),
                    srt: ack_of(f),
                    stream_id: sid_of(f),
                },
            ),
        }
    }
}

/// What an optional packet holds.
pub open spec fn packet_model(p: Option<PacketInfo>) -> Option<PacketModel> {
    match p {
        Some(x) => Some(x@),
        None => None,
    }
}

fn read16(f: &str) -> (r: Option<u16>)
    ensures
        r == field16(f@),
{
    let t: String = trim(f);
    parse_u16(t.as_str())
}

fn read32(f: &str) -> (r: Option<u32>)
    ensures
        r == field32(f@),
{
    let t: String = trim(f);
    parse_u32(t.as_str())
}

fn read_ack(f: &Vec<String>) -> (r: Option<SrtAck>)
    ensures
        r == ack_of(texts(f@)),
{
    let ghost t = texts(f@);
    if f.len() < 15 {
        return None;
    }
    assert(t[9] == f@[9]@ && t[10] == f@[10]@ && t[11] == f@[11]@ && t[12] == f@[12]@ && t[13]
        == f@[13]@ && t[14] == f@[14]@);
    let control: Option<bool> = parse_tshark_bool(f[9].as_str());
    let bw: Option<u32> = read32(f[10].as_str());
    let rate: Option<u32> = read32(f[11].as_str());
    let rtt: Option<u32> = read32(f[12].as_str());
    let rttvar: Option<u32> = read32(f[13].as_str());
    let room: Option<u32> = read32(f[14].as_str());
    if control.is_none() && bw.is_none() && rate.is_none() && rtt.is_none() && rttvar.is_none()
        && room.is_none() {
        return None;
    }
    let is_control: bool = match control {
        Some(b) => b,
        None => false,
    };
    Some(
        SrtAck {
            is_control,
            bw_pkts_s: bw,
            rate_pkts_s: rate,
            rtt_us: rtt,
            rttvar_us: rttvar,
            buf_avail_pkts: room,
        },
    )
}

/// The packet that a line of the analyser's output describes.
pub fn parse_tshark_line(line: &str) -> (r: Option<PacketInfo>)
    ensures
        packet_model(r) == packet_of(pieces(line@, ',')),
{
    let f: Vec<String> = split(line, ',');
    let ghost t = texts(f@);
    if f.len() < 9 {
        return None;
    }
    assert(t[1] == f@[1]@ && t[2] == f@[2]@ && t[3] == f@[3]@ && t[4] == f@[4]@ && t[5] == f@[5]@
        && t[6] == f@[6]@ && t[7] == f@[7]@ && t[8] == f@[8]@);
    let src_ip: String = trim(f[1].as_str());
    let dst_ip: String = trim(f[4].as_str());
    if src_ip.as_str().is_empty() || dst_ip.as_str().is_empty() {
        return None;
    }
    let tcp_src: Option<u16> = read16(f[2].as_str());
    let udp_src: Option<u16> = read16(f[3].as_str());
    let tcp_dst: Option<u16> = read16(f[5].as_str());
    let udp_dst: Option<u16> = read16(f[6].as_str());
    let (src_port, dst_port, is_udp): (u16, u16, bool) = match (udp_src, udp_dst) {
        (Some(s), Some(d)) => (s, d, true),
        _ => match (tcp_src, tcp_dst) {
            (Some(s), Some(d)) => (s, d, false),
            _ => return None,
        },
    };
    let protocol: String = trim(f[7].as_str());
    let size: String = trim(f[8].as_str());
    let bytes: u64 = match parse_u64(size.as_str()) {
        Some(n) => n,
        None => 0,
    };
    let srt: Option<SrtAck> = read_ack(&f);
    let is_control: bool = match &srt {
        Some(a) => a.is_control,
        None => false,
    };
    let stream_id: Option<String> = if is_control && f.len() >= 16 {
        assert(t[15] == f@[15]@);
        let hex: String = trim(f[15].as_str());
        if hex.as_str().is_empty() {
            None
        } else {
            let payload: Vec<u8> = hex_decode(hex.as_str());
            parse_srt_handshake_streamid(payload.as_slice())
        }
    } else {
        None
    };
    Some(
        PacketInfo { src_ip, src_port, dst_ip, dst_port, is_udp, protocol, bytes, srt, stream_id },
    )
}

// ---------------------------------------------------------------------------
// Flows
// ---------------------------------------------------------------------------

/// The figures of a flow. Times are nanoseconds of one clock.
#[derive(Debug)]
pub struct FlowStats {
    pub total_bytes: u64,
    pub total_packets: u64,
    /// Since the figures were last shown.
    pub window_bytes: u64,
    pub window_packets: u64,
    pub control_packets: u64,
    pub last_seen: Option<u64>,
    pub first_seen: Option<u64>,
    pub last_srt_ack: Option<SrtAck>,
    pub last_srt_ack_at: Option<u64>,
    /// The bytes of each of the last seconds.
    pub bitrate_samples: VecDeque<u64>,
    pub bitrate_window_start: Option<u64>,
    pub bitrate_window_bytes: u64,
}

/// What a `FlowStats` holds.
pub struct FlowModel {
    pub total_bytes: u64,
    pub total_packets: u64,
    pub window_bytes: u64,
    pub window_packets: u64,
    pub control_packets: u64,
    pub last_seen: Option<u64>,
    pub first_seen: Option<u64>,
    pub last_srt_ack: Option<SrtAck>,
    pub last_srt_ack_at: Option<u64>,
    pub bitrate_samples: Seq<u64>,
    pub bitrate_window_start: Option<u64>,
    pub bitrate_window_bytes: u64,
}

impl View for FlowStats {
    type V = FlowModel;

    open spec fn view(&self) -> FlowModel {
        FlowModel {
            total_bytes: self.total_bytes,
            total_packets: self.total_packets,
            window_bytes: self.window_bytes,
            window_packets: self.window_packets,
            control_packets: self.control_packets,
            last_seen: self.last_seen,
            first_seen: self.first_seen,
            last_srt_ack: self.last_srt_ack,
            last_srt_ack_at: self.last_srt_ack_at,
            bitrate_samples: self.bitrate_samples@,
            bitrate_window_start: self.bitrate_window_start,
            bitrate_window_bytes: self.bitrate_window_bytes,
        }
    }
}

/// A second.
pub const SECOND_NANOS: u64 = 1_000_000_000;

/// So many samples are kept.
pub const SAMPLES_KEPT: usize = 60;

/// The time from one moment to another; nothing if the other is not later.
pub open spec fn since(now: u64, then_at: u64) -> int {
    if now >= then_at {
        now - then_at
    } else {
        0
    }
}

/// A flow in which no packet has been seen.
pub open spec fn no_packets() -> FlowModel {
    FlowModel {
        total_bytes: 0,
        total_packets: 0,
        window_bytes: 0,
        window_packets: 0,
        control_packets: 0,
        last_seen: None,
        first_seen: None,
        last_srt_ack: None,
        last_srt_ack_at: None,
        bitrate_samples: Seq::empty(),
        bitrate_window_start: None,
        bitrate_window_bytes: 0,
    }
}

/// There is room for one more packet.
pub open spec fn flow_has_room(m: FlowModel, bytes: u64) -> bool {
    &&& m.total_bytes + bytes <= u64::MAX
    &&& m.total_packets < u64::MAX
    &&& m.window_bytes + bytes <= u64::MAX
    &&& m.window_packets < u64::MAX
    &&& m.bitrate_window_bytes + bytes <= u64::MAX
}

/// The last of the samples, as many as are kept.
pub open spec fn kept_samples(s: Seq<u64>) -> Seq<u64> {
    if s.len() > SAMPLES_KEPT {
        s.skip(s.len() - SAMPLES_KEPT)
    } else {
        s
    }
}

/// A second has passed since the sample was begun.
pub open spec fn sample_is_full(m: FlowModel, now: u64) -> bool {
    m.bitrate_window_start is Some && since(now, m.bitrate_window_start->0) >= SECOND_NANOS
}

/// The flow after one more packet.
pub open spec fn with_packet(m: FlowModel, bytes: u64, now: u64) -> FlowModel {
    let full = sample_is_full(m, now);
    let begins_sample = full || m.bitrate_window_start is None;
    FlowModel {
        total_bytes: (m.total_bytes + bytes) as u64,
        total_packets: (m.total_packets + 1) as u64,
        window_bytes: (m.window_bytes + bytes) as u64,
        window_packets: (m.window_packets + 1) as u64,
        last_seen: Some(now),
        first_seen: if m.first_seen is None {
            Some(now)
        } else {
            m.first_seen
        },
        bitrate_samples: if full {
            kept_samples(m.bitrate_samples.push(m.bitrate_window_bytes))
        } else {
            m.bitrate_samples
        },
        bitrate_window_start: if begins_sample {
            Some(now)
        } else {
            m.bitrate_window_start
        },
        bitrate_window_bytes: if begins_sample {
            bytes
        } else {
            (m.bitrate_window_bytes + bytes) as u64
        },
        ..m
    }
}

impl Default for FlowStats {
    /// No packet has been seen.
    fn default() -> (r: Self)
        ensures
            r@ == no_packets(),
            r.valid(),
    {
        FlowStats {
            total_bytes: 0,
            total_packets: 0,
            window_bytes: 0,
            window_packets: 0,
            control_packets: 0,
            last_seen: None,
            first_seen: None,
            last_srt_ack: None,
            last_srt_ack_at: None,
            bitrate_samples: VecDeque::new(),
            bitrate_window_start: None,
            bitrate_window_bytes: 0,
        }
    }
}

impl FlowStats {
    /// No more samples are kept than can be shown.
    pub open spec fn valid(&self) -> bool {
        self@.bitrate_samples.len() <= SAMPLES_KEPT
    }

    /// Takes note of a packet.
    pub fn record(&mut self, bytes: u64, now: u64)
        requires
            old(self).valid(),
            flow_has_room(old(self)@, bytes),
        ensures
            final(self)@ == with_packet(old(self)@, bytes, now),
            final(self).valid(),
    {
        self.total_bytes = self.total_bytes + bytes;
        self.total_packets = self.total_packets + 1;
        self.window_bytes = self.window_bytes + bytes;
        self.window_packets = self.window_packets + 1;
        self.last_seen = Some(now);
        if self.first_seen.is_none() {
            self.first_seen = Some(now);
        }
        match self.bitrate_window_start {
            Some(start) => {
                let passed: u64 = if now >= start {
                    now - start
                } else {
                    0
                };
                if passed >= SECOND_NANOS {
                    self.bitrate_samples.push_back(self.bitrate_window_bytes);
                    if self.bitrate_samples.len() > SAMPLES_KEPT {
                        let _oldest: Option<u64> = self.bitrate_samples.pop_front();
                    }
                    self.bitrate_window_start = Some(now);
                    self.bitrate_window_bytes = bytes;
                } else {
                    self.bitrate_window_bytes = self.bitrate_window_bytes + bytes;
                }
            },
            None => {
                self.bitrate_window_start = Some(now);
                self.bitrate_window_bytes = bytes;
            },
        }
        assert(self@.bitrate_samples =~= with_packet(old(self)@, bytes, now).bitrate_samples);
    }

    /// Takes note of what a receiver told.
    pub fn record_srt_ack(&mut self, ack: SrtAck, now: u64)
        requires
            old(self).control_packets < u64::MAX,
        ensures
            final(self)@ == (FlowModel {
                control_packets: (old(self)@.control_packets + 1) as u64,
                last_srt_ack: Some(ack),
                last_srt_ack_at: Some(now),
                ..old(self)@
            }),
    {
        self.control_packets = self.control_packets + 1;
        self.last_srt_ack = Some(ack);
        self.last_srt_ack_at = Some(now);
    }

    /// The figures have been shown: counting starts again.
    pub fn end_window(&mut self)
        ensures
            final(self)@ == (FlowModel { window_bytes: 0, window_packets: 0, ..old(self)@ }),
    {
        self.window_bytes = 0;
        self.window_packets = 0;
    }

    /// Whether less than so much time has passed since a packet was seen.
    pub fn is_active(&self, now: u64, limit: u64) -> (r: bool)
        ensures
            r == seen_within(self@, now, limit),
    {
        match self.last_seen {
            Some(t) => {
                let passed: u64 = if now >= t {
                    now - t
                } else {
                    0
                };
                passed < limit
            },
            None => false,
        }
    }
}

/// Less than so much time has passed since a packet was seen.
pub open spec fn seen_within(m: FlowModel, now: u64, limit: u64) -> bool {
    m.last_seen is Some && since(now, m.last_seen->0) < limit
}

/// However many packets are noted, the samples never take more room than they may,
/// and their number grows by at most one with each packet.
pub proof fn samples_stay_few(m: FlowModel, bytes: u64, now: u64)
    requires
        m.bitrate_samples.len() <= SAMPLES_KEPT,
    ensures
        with_packet(m, bytes, now).bitrate_samples.len() <= SAMPLES_KEPT,
        with_packet(m, bytes, now).bitrate_samples.len() <= m.bitrate_samples.len() + 1,
{
}

/// The flow after some packets, each with its size and its time.
pub open spec fn after_packets(v: Seq<(u64, u64)>) -> FlowModel
    decreases v.len(),
{
    if v.len() == 0 {
        no_packets()
    } else {
        with_packet(after_packets(v.drop_last()), v.last().0, v.last().1)
    }
}

/// The bytes of all packets.
pub open spec fn packet_bytes(v: Seq<(u64, u64)>) -> nat
    decreases v.len(),
{
    if v.len() == 0 {
        0
    } else {
        packet_bytes(v.drop_last()) + v.last().0 as nat
    }
}

/// How many samples have been finished.
pub open spec fn finished_samples(v: Seq<(u64, u64)>) -> nat
    decreases v.len(),
{
    if v.len() == 0 {
        0
    } else if sample_is_full(after_packets(v.drop_last()), v.last().1) {
        finished_samples(v.drop_last()) + 1
    } else {
        finished_samples(v.drop_last())
    }
}

/// The bytes of all samples.
pub open spec fn sampled_bytes(s: Seq<u64>) -> nat
    decreases s.len(),
{
    if s.len() == 0 {
        0
    } else {
        sampled_bytes(s.drop_last()) + s.last() as nat
    }
}

/// After any number of packets the totals are those of all of them. No sample is lost while
/// there is room: as long as no more have been finished than are kept, the samples and the
/// one that is open hold all bytes. After that there are as many as are kept.
pub proof fn all_packets_are_counted(v: Seq<(u64, u64)>)
    requires
        v.len() <= u64::MAX,
        packet_bytes(v) <= u64::MAX,
    ensures
        ({
            let m = after_packets(v);
            &&& m.total_bytes == packet_bytes(v)
            &&& m.total_packets == v.len()
            &&& m.window_bytes == packet_bytes(v)
            &&& m.window_packets == v.len()
            &&& m.bitrate_window_bytes <= packet_bytes(v)
            &&& m.bitrate_window_start is Some <==> v.len() > 0
            &&& m.bitrate_samples.len() == (if finished_samples(v) <= SAMPLES_KEPT {
                finished_samples(v)
            } else {
                SAMPLES_KEPT as nat
            })
            &&& finished_samples(v) <= SAMPLES_KEPT ==> sampled_bytes(m.bitrate_samples)
                + m.bitrate_window_bytes == packet_bytes(v)
            &&& v.len() > 0 ==> m.first_seen == Some(v[0].1) && m.last_seen == Some(v.last().1)
        }),
    decreases v.len(),
{
    if v.len() > 0 {
        let w = v.drop_last();
        all_packets_are_counted(w);
        let b = after_packets(w);
        let more = b.bitrate_samples.push(b.bitrate_window_bytes);
        assert(more.drop_last() =~= b.bitrate_samples);
        assert(sampled_bytes(more) == sampled_bytes(b.bitrate_samples) + b.bitrate_window_bytes);
        if w.len() > 0 {
            assert(w[0] == v[0]);
        } else {
            assert(v.last() == v[0]);
        }
    }
}

// ---------------------------------------------------------------------------
// The table of flows
// ---------------------------------------------------------------------------

/// A flow with its figures.
#[derive(Debug)]
pub struct Flow {
    pub key: FlowKey,
    pub stats: FlowStats,
    /// The key of its stream, once a packet has told it.
    pub stream_key: Option<String>,
}

/// All flows.
#[derive(Debug)]
pub struct FlowTable {
    pub flows: Vec<Flow>,
}

/// The place of a flow; the number of flows if it is not there.
pub open spec fn flow_place(v: Seq<Flow>, key: FlowKeyModel) -> nat
    decreases v.len(),
{
    if v.len() == 0 || v[0].key@ == key {
        0
    } else {
        1 + flow_place(v.drop_first(), key)
    }
}

/// The figures of a flow.
pub open spec fn flow_of(v: Seq<Flow>, key: FlowKeyModel) -> FlowModel {
    let i = flow_place(v, key) as int;
    if i < v.len() {
        v[i].stats@
    } else {
        no_packets()
    }
}

/// The key of a flow's stream.
pub open spec fn flow_stream(v: Seq<Flow>, key: FlowKeyModel) -> Option<Seq<char>> {
    let i = flow_place(v, key) as int;
    if i < v.len() {
        opt_text(v[i].stream_key)
    } else {
        None
    }
}

/// The key in a stream id; the stream id itself if it holds none.
pub open spec fn shown_key(sid: Seq<char>) -> Seq<char> {
    match key_in(sid) {
        Some(k) => k,
        None => sid,
    }
}

/// The key in a stream id; the stream id itself if it holds none.
pub fn stream_key(sid: &str) -> (r: String)
    ensures
        r@ == shown_key(sid@),
{
    match extract_bmd_key(sid) {
        Some(k) => k,
        None => sid.to_owned(),
    }
}

/// One table has the flows of another at the same places, and one flow with the key
/// `key`, which may be new, at the end.
pub open spec fn same_flows(a: Seq<Flow>, b: Seq<Flow>, key: FlowKeyModel) -> bool {
    let n = flow_place(a, key);
    &&& b.len() == if n < a.len() {
        a.len()
    } else {
        a.len() + 1
    }
    &&& forall|i: int| 0 <= i < a.len() ==> (#[trigger] b[i]).key@ == a[i].key@
    &&& n < b.len() && b[n as int].key@ == key
}

/// The figures of a packet's flow after it: its size, and what a receiver told in
/// it.
pub open spec fn with_info(m: FlowModel, p: PacketModel, now: u64) -> FlowModel {
    let n = with_packet(m, p.bytes, now);
    match p.srt {
        Some(ack) => FlowModel {
            control_packets: (n.control_packets + 1) as u64,
            last_srt_ack: Some(ack),
            last_srt_ack_at: Some(now),
            ..n
        },
        None => n,
    }
}

proof fn flow_place_facts(v: Seq<Flow>, key: FlowKeyModel)
    ensures
        flow_place(v, key) <= v.len(),
        flow_place(v, key) < v.len() ==> v[flow_place(v, key) as int].key@ == key,
        forall|j: int| 0 <= j < flow_place(v, key) ==> (#[trigger] v[j]).key@ != key,
    decreases v.len(),
{
    if v.len() > 0 && v[0].key@ != key {
        let t = v.drop_first();
        flow_place_facts(t, key);
        assert forall|j: int| 0 <= j < flow_place(v, key) implies (#[trigger] v[j]).key@
            != key by {
            if j > 0 {
                assert(v[j] == t[j - 1]);
            }
        }
    }
}

proof fn flow_place_is(v: Seq<Flow>, key: FlowKeyModel, i: int)
    requires
        0 <= i <= v.len(),
        forall|j: int| 0 <= j < i ==> (#[trigger] v[j]).key@ != key,
        i < v.len() ==> v[i].key@ == key,
    ensures
        flow_place(v, key) == i,
{
    flow_place_facts(v, key);
}

/// Two tables have the same flows at the same places.
spec fn same_keys(a: Seq<Flow>, b: Seq<Flow>) -> bool {
    a.len() == b.len() && forall|i: int| 0 <= i < a.len() ==> (#[trigger] a[i]).key@ == b[i].key@
}

proof fn same_places(a: Seq<Flow>, b: Seq<Flow>, key: FlowKeyModel)
    requires
        same_keys(a, b),
    ensures
        flow_place(a, key) == flow_place(b, key),
{
    flow_place_facts(a, key);
    let p = flow_place(a, key) as int;
    assert forall|j: int| 0 <= j < p implies (#[trigger] b[j]).key@ != key by {
        assert(a[j].key@ != key);
    }
    if p < a.len() {
        assert(a[p].key@ == b[p].key@);
    }
    flow_place_is(b, key, p);
}

/// The flows after a packet has been noted: its own has changed, the others have not.
pub open spec fn noted_in(
    old_flows: Seq<Flow>,
    new_flows: Seq<Flow>,
    p: PacketModel,
    now: u64,
    in_full: bool,
) -> bool {
    &&& flow_of(new_flows, p.key) == if in_full {
        with_info(flow_of(old_flows, p.key), p, now)
    } else {
        with_packet(flow_of(old_flows, p.key), p.bytes, now)
    }
    &&& flow_stream(new_flows, p.key) == match p.stream_id {
        Some(sid) if in_full => Some(shown_key(sid)),
        _ => flow_stream(old_flows, p.key),
    }
    &&& forall|k: FlowKeyModel|
        k != p.key ==> #[trigger] flow_of(new_flows, k) == flow_of(old_flows, k)
    &&& forall|k: FlowKeyModel|
        k != p.key ==> #[trigger] flow_stream(new_flows, k) == flow_stream(old_flows, k)
    &&& same_flows(old_flows, new_flows, p.key)
}

impl FlowTable {
    /// Each flow is there once, and its figures are valid.
    pub open spec fn valid(&self) -> bool {
        &&& forall|i: int, j: int|
            0 <= i < j < self.flows@.len() ==> (#[trigger] self.flows@[i]).key@ != (
            #[trigger] self.flows@[j]).key@
        &&& forall|i: int| 0 <= i < self.flows@.len() ==> (#[trigger] self.flows@[i]).stats.valid()
    }

    /// No flow.
    pub fn new() -> (r: FlowTable)
        ensures
            r.flows@.len() == 0,
            r.valid(),
    {
        FlowTable { flows: Vec::new() }
    }

    fn place(&mut self, key: FlowKey) -> (r: usize)
        requires
            old(self).valid(),
        ensures
            final(self).valid(),
            r < final(self).flows@.len(),
            final(self).flows@[r as int].key@ == key@,
            forall|k: FlowKeyModel|
                #[trigger] flow_of(final(self).flows@, k) == flow_of(old(self).flows@, k),
            forall|k: FlowKeyModel|
                #[trigger] flow_stream(final(self).flows@, k) == flow_stream(old(self).flows@, k),
            same_flows(old(self).flows@, final(self).flows@, key@),
    {
        let ghost had = self.flows@;
        let mut i: usize = 0;
        while i < self.flows.len()
            invariant
                i <= self.flows@.len(),
                self.flows@ == had,
                self.valid(),
                forall|j: int| 0 <= j < i ==> (#[trigger] self.flows@[j]).key@ != key@,
            decreases self.flows@.len() - i,
        {
            if self.flows[i].key.is(&key) {
                proof {
                    flow_place_is(had, key@, i as int);
                }
                return i;
            }
            i += 1;
        }
        self.flows.push(Flow { key, stats: FlowStats::default(), stream_key: None });
        proof {
            let now = self.flows@;
            flow_place_is(had, key@, had.len() as int);
            assert forall|k: FlowKeyModel|
                #[trigger] flow_of(now, k) == flow_of(had, k) && flow_stream(now, k) == flow_stream(
                    had,
                    k,
                ) by {
                flow_place_facts(had, k);
                let p = flow_place(had, k) as int;
                if p < had.len() {
                    assert forall|j: int| 0 <= j < p implies (#[trigger] now[j]).key@ != k by {
                        assert(now[j] == had[j]);
                    }
                    flow_place_is(now, k, p);
                } else {
                    assert forall|j: int| 0 <= j < had.len() implies (#[trigger] now[j]).key@
                        != k by {
                        assert(now[j] == had[j]);
                    }
                    if k == key@ {
                        flow_place_is(now, k, had.len() as int);
                    } else {
                        flow_place_is(now, k, now.len() as int);
                    }
                }
            }
            assert forall|k: FlowKeyModel| #[trigger] flow_stream(now, k) == flow_stream(had, k) by {
                assert(flow_of(now, k) == flow_of(had, k));
            }
        }
        i
    }

    /// Takes note of a packet in its flow's figures. If `in_full`, what the packet tells
    /// of an SRT stream is kept too.
    pub fn note(&mut self, packet: &PacketInfo, now: u64, in_full: bool)
        requires
            old(self).valid(),
            flow_has_room(flow_of(old(self).flows@, packet@.key), packet.bytes),
            flow_of(old(self).flows@, packet@.key).control_packets < u64::MAX,
        ensures
            final(self).valid(),
            noted_in(old(self).flows@, final(self).flows@, packet@, now, in_full),
    {
        let key: FlowKey = packet.flow_key();
        let at: usize = self.place(key);
        let ghost mid = self.flows@;
        let ghost k0 = packet@.key;
        proof {
            flow_place_facts(mid, k0);
            assert(flow_place(mid, k0) == at) by {
                let p = flow_place(mid, k0) as int;
                if p < at {
                    assert(mid[p].key@ != mid[at as int].key@);
                }
            }
            assert(mid[at as int].stats.valid());
        }
        assert(flow_of(mid, k0) == flow_of(old(self).flows@, k0));
        assert(flow_stream(mid, k0) == flow_stream(old(self).flows@, k0));
        let f: &mut Flow = &mut self.flows[at];
        f.stats.record(packet.bytes, now);
        if in_full {
            if let Some(ack) = packet.srt {
                f.stats.record_srt_ack(ack, now);
            }
            if let Some(sid) = &packet.stream_id {
                f.stream_key = Some(stream_key(sid.as_str()));
            }
        }
        proof {
            let out = self.flows@;
            assert(same_keys(mid, out)) by {
                assert forall|i: int| 0 <= i < mid.len() implies (#[trigger] mid[i]).key@
                    == out[i].key@ by {}
            }
            assert forall|i: int, j: int| 0 <= i < j < out.len() implies (#[trigger] out[i]).key@
                != (#[trigger] out[j]).key@ by {
                assert(mid[i].key@ != mid[j].key@);
            }
            assert forall|i: int| 0 <= i < out.len() implies (#[trigger] out[i]).stats.valid() by {
                assert(mid[i].stats.valid());
            }
            same_places(mid, out, k0);
            assert forall|k: FlowKeyModel| k != k0 implies #[trigger] flow_of(out, k) == flow_of(
                old(self).flows@,
                k,
            ) by {
                same_places(mid, out, k);
                flow_place_facts(mid, k);
                assert(flow_of(mid, k) == flow_of(old(self).flows@, k));
            }
            assert forall|k: FlowKeyModel| k != k0 implies #[trigger] flow_stream(out, k) == flow_stream(
                old(self).flows@,
                k,
            ) by {
                same_places(mid, out, k);
                flow_place_facts(mid, k);
                assert(flow_stream(mid, k) == flow_stream(old(self).flows@, k));
            }
        }
    }

    /// The flows that have been active, that with the most bytes since the figures were
    /// last shown first.
    pub fn busiest(&self, now: u64, limit: u64) -> (r: Vec<usize>)
        ensures
            places(r@) == busiest_places(self.flows@, now, limit),
            r@.len() == busiest_places(self.flows@, now, limit).len(),
            forall|i: int| 0 <= i < r@.len() ==> (#[trigger] r@[i]) < self.flows@.len(),
    {
        let mut ids: Vec<usize> = Vec::new();
        let mut keys: Vec<u64> = Vec::new();
        let mut n: usize = 0;
        assert(places(ids@) =~= Seq::<int>::empty());
        while n < self.flows.len()
            invariant
                n <= self.flows@.len(),
                places(ids@) == active_places(self.flows@, now, limit, n as nat),
                ids@.len() == keys@.len(),
                forall|i: int| 0 <= i < ids@.len() ==> (#[trigger] ids@[i]) < n,
                forall|i: int|
                    0 <= i < ids@.len() ==> (#[trigger] keys@[i])
                        == self.flows@[ids@[i] as int].stats.window_bytes,
            decreases self.flows@.len() - n,
        {
            if self.flows[n].stats.is_active(now, limit) {
                let ghost had = ids@;
                ids.push(n);
                keys.push(self.flows[n].stats.window_bytes);
                assert(places(ids@) =~= places(had).push(n as int));
            }
            n += 1;
        }
        let ghost all = active_places(self.flows@, now, limit, self.flows@.len());
        assert(keys@ =~= weights(self.flows@, all)) by {
            assert forall|i: int| 0 <= i < keys@.len() implies keys@[i] == weights(
                self.flows@,
                all,
            )[i] by {
                assert(places(ids@)[i] == ids@[i]);
            }
        }
        let order: Vec<usize> = rank(&keys);
        let mut out: Vec<usize> = Vec::new();
        let mut k: usize = 0;
        while k < order.len()
            invariant
                k <= order@.len(),
                out@.len() == k,
                order@.len() == ids@.len(),
                forall|i: int| 0 <= i < order@.len() ==> (#[trigger] order@[i]) < ids@.len(),
                forall|i: int| 0 <= i < ids@.len() ==> (#[trigger] ids@[i]) < self.flows@.len(),
                forall|i: int| 0 <= i < k ==> (#[trigger] out@[i]) == ids@[order@[i] as int],
            decreases order@.len() - k,
        {
            out.push(ids[order[k]]);
            k += 1;
        }
        assert(places(out@) =~= busiest_places(self.flows@, now, limit)) by {
            assert forall|i: int| 0 <= i < out@.len() implies places(out@)[i] == busiest_places(
                self.flows@,
                now,
                limit,
            )[i] by {
                assert(places(order@)[i] == order@[i]);
                assert(places(ids@)[order@[i] as int] == ids@[order@[i] as int]);
            }
        }
        out
    }

    /// The figures have been shown: counting starts again in all flows.
    pub fn end_window(&mut self)
        requires
            old(self).valid(),
        ensures
            final(self).valid(),
            final(self).flows@.len() == old(self).flows@.len(),
            forall|i: int|
                0 <= i < old(self).flows@.len() ==> {
                    &&& (#[trigger] final(self).flows@[i]).key@ == old(self).flows@[i].key@
                    &&& final(self).flows@[i].stream_key == old(self).flows@[i].stream_key
                    &&& final(self).flows@[i].stats@ == (FlowModel {
                        window_bytes: 0,
                        window_packets: 0,
                        ..old(self).flows@[i].stats@
                    })
                },
    {
        let ghost had = self.flows@;
        let mut i: usize = 0;
        while i < self.flows.len()
            invariant
                i <= self.flows@.len(),
                self.flows@.len() == had.len(),
                forall|j: int| i <= j < had.len() ==> #[trigger] self.flows@[j] == had[j],
                forall|j: int|
                    0 <= j < i ==> {
                        &&& (#[trigger] self.flows@[j]).key@ == had[j].key@
                        &&& self.flows@[j].stream_key == had[j].stream_key
                        &&& self.flows@[j].stats@ == (FlowModel {
                            window_bytes: 0,
                            window_packets: 0,
                            ..had[j].stats@
                        })
                    },
            decreases self.flows@.len() - i,
        {
            self.flows[i].stats.end_window();
            i += 1;
        }
        proof {
            let out = self.flows@;
            assert forall|i: int, j: int| 0 <= i < j < out.len() implies (#[trigger] out[i]).key@
                != (#[trigger] out[j]).key@ by {
                assert(had[i].key@ != had[j].key@);
            }
            assert forall|i: int| 0 <= i < out.len() implies (#[trigger] out[i]).stats.valid() by {
                assert(had[i].stats.valid());
            }
        }
    }

    /// The flows of the last minute, as they are printed.
    pub fn listing(&self, now: u64, window_secs: u64) -> (r: FlowListing)
        ensures
            r.active == busiest_places(self.flows@, now, PRINT_LIMIT).len(),
            r.rows@.len() == (if r.active < ROWS_PRINTED {
                r.active
            } else {
                ROWS_PRINTED
            }),
            forall|i: int|
                0 <= i < r.rows@.len() ==> (#[trigger] r.rows@[i])@ == row_of(
                    self.flows@[busiest_places(self.flows@, now, PRINT_LIMIT)[i]],
                    now,
                    window_secs,
                ),
    {
        let order: Vec<usize> = self.busiest(now, PRINT_LIMIT);
        let mut rows: Vec<FlowRow> = Vec::new();
        let mut k: usize = 0;
        while k < order.len() && k < ROWS_PRINTED
            invariant
                k <= order@.len(),
                k <= ROWS_PRINTED,
                rows@.len() == k,
                places(order@) == busiest_places(self.flows@, now, PRINT_LIMIT),
                forall|i: int| 0 <= i < order@.len() ==> (#[trigger] order@[i]) < self.flows@.len(),
                forall|i: int|
                    0 <= i < k ==> (#[trigger] rows@[i])@ == row_of(
                        self.flows@[busiest_places(self.flows@, now, PRINT_LIMIT)[i]],
                        now,
                        window_secs,
                    ),
            decreases order@.len() - k,
        {
            assert(places(order@)[k as int] == order@[k as int]);
            rows.push(show_row(&self.flows[order[k]], now, window_secs));
            k += 1;
        }
        FlowListing { active: order.len(), rows }
    }
}

/// The places of the flows that have been active, of the first `n`.
pub open spec fn active_places(v: Seq<Flow>, now: u64, limit: u64, n: nat) -> Seq<int>
    decreases n,
{
    if n == 0 {
        Seq::empty()
    } else {
        let front = active_places(v, now, limit, (n - 1) as nat);
        if seen_within(v[n - 1].stats@, now, limit) {
            front.push(n - 1)
        } else {
            front
        }
    }
}

/// How much the flows at some places have to show.
pub open spec fn weights(v: Seq<Flow>, ids: Seq<int>) -> Seq<u64> {
    Seq::new(ids.len(), |i: int| v[ids[i]].stats@.window_bytes)
}

/// The places of the flows that have been active, that with the most bytes since the
/// figures were last shown first.
pub open spec fn busiest_places(v: Seq<Flow>, now: u64, limit: u64) -> Seq<int> {
    let ids = active_places(v, now, limit, v.len());
    let order = ranked(weights(v, ids), ids.len());
    Seq::new(ids.len(), |i: int| ids[order[i]])
}

proof fn active_places_facts(v: Seq<Flow>, now: u64, limit: u64, n: nat)
    requires
        n <= v.len(),
    ensures
        forall|i: int|
            0 <= i < active_places(v, now, limit, n).len() ==> 0 <= (#[trigger] active_places(
                v,
                now,
                limit,
                n,
            )[i]) < n && seen_within(v[active_places(v, now, limit, n)[i]].stats@, now, limit),
        forall|i: int, j: int|
            0 <= i < j < active_places(v, now, limit, n).len() ==> (#[trigger] active_places(
                v,
                now,
                limit,
                n,
            )[i]) < #[trigger] active_places(v, now, limit, n)[j],
    decreases n,
{
    if n > 0 {
        active_places_facts(v, now, limit, (n - 1) as nat);
    }
}

/// Only active flows are listed, none twice, and none before one with more bytes.
pub proof fn busiest_are_in_order(v: Seq<Flow>, now: u64, limit: u64)
    ensures
        busiest_places(v, now, limit).no_duplicates(),
        forall|i: int|
            0 <= i < busiest_places(v, now, limit).len() ==> 0 <= (#[trigger] busiest_places(
                v,
                now,
                limit,
            )[i]) < v.len() && seen_within(
                v[busiest_places(v, now, limit)[i]].stats@,
                now,
                limit,
            ),
        forall|i: int, j: int|
            0 <= i < j < busiest_places(v, now, limit).len() ==> v[#[trigger] busiest_places(
                v,
                now,
                limit,
            )[i]].stats@.window_bytes >= v[#[trigger] busiest_places(
                v,
                now,
                limit,
            )[j]].stats@.window_bytes,
{
    let ids = active_places(v, now, limit, v.len());
    let keys = weights(v, ids);
    let order = ranked(keys, ids.len());
    active_places_facts(v, now, limit, v.len());
    ranked_is_an_order(keys, ids.len());
    let b = busiest_places(v, now, limit);
    assert forall|i: int, j: int| 0 <= i < b.len() && 0 <= j < b.len() && i != j implies b[i]
        != b[j] by {
        assert(order[i] != order[j]);
        if order[i] < order[j] {
            assert(ids[order[i]] < ids[order[j]]);
        } else {
            assert(ids[order[j]] < ids[order[i]]);
        }
    }
    assert forall|i: int, j: int| 0 <= i < j < b.len() implies v[#[trigger] b[i]].stats@.window_bytes
        >= v[#[trigger] b[j]].stats@.window_bytes by {
        assert(keys[order[i]] >= keys[order[j]]);
    }
}

/// A flow is printed while less than a minute has passed since its last packet.
pub const PRINT_LIMIT: u64 = 60_000_000_000;

/// So many flows are printed.
pub const ROWS_PRINTED: usize = 20;

/// A flow as it is printed.
#[derive(Debug)]
pub struct FlowRow {
    pub source: String,
    pub destination: String,
    pub proto: String,
    pub total_bytes: u64,
    /// Bytes a second.
    pub rate: u64,
    /// Packets have come since the figures were last shown.
    pub moving: bool,
    /// The time since its last packet.
    pub idle: Option<u64>,
}

/// What a `FlowRow` holds.
pub struct FlowRowModel {
    pub source: Seq<char>,
    pub destination: Seq<char>,
    pub proto: Seq<char>,
    pub total_bytes: u64,
    pub rate: u64,
    pub moving: bool,
    pub idle: Option<u64>,
}

impl View for FlowRow {
    type V = FlowRowModel;

    open spec fn view(&self) -> FlowRowModel {
        FlowRowModel {
            source: self.source@,
            destination: self.destination@,
            proto: self.proto@,
            total_bytes: self.total_bytes,
            rate: self.rate,
            moving: self.moving,
            idle: self.idle,
        }
    }
}

/// The flows that are printed, and how many there are in all.
#[derive(Debug)]
pub struct FlowListing {
    pub active: usize,
    pub rows: Vec<FlowRow>,
}

/// An end of a flow.
pub open spec fn end_text(ip: Seq<char>, port: u16) -> Seq<char> {
    ip + ":"@ + decimal(port as nat)
}

/// A flow as it is printed.
pub open spec fn row_of(f: Flow, now: u64, window_secs: u64) -> FlowRowModel {
    FlowRowModel {
        source: end_text(f.key@.src_ip, f.key@.src_port),
        destination: end_text(f.key@.dst_ip, f.key@.dst_port),
        proto: if f.key@.protocol.len() > 0 {
            f.key@.protocol
        } else if f.key@.is_udp {
            "UDP"@
        } else {
            "TCP"@
        },
        total_bytes: f.stats@.total_bytes,
        rate: if window_secs > 0 {
            f.stats@.window_bytes / window_secs
        } else {
            0
        },
        moving: f.stats@.window_packets > 0,
        idle: match f.stats@.last_seen {
            Some(t) => Some(since(now, t) as u64),
            None => None,
        },
    }
}

fn show_end(ip: &str, port: u16) -> (r: String)
    ensures
        r@ == end_text(ip@, port),
{
    let p: String = show(port as u64);
    cat3(ip, ":", p.as_str())
}

fn show_row(f: &Flow, now: u64, window_secs: u64) -> (r: FlowRow)
    ensures
        r@ == row_of(*f, now, window_secs),
{
    let proto: String = if !f.key.protocol.as_str().is_empty() {
        f.key.protocol.clone()
    } else if f.key.is_udp {
        "UDP".to_owned()
    } else {
        "TCP".to_owned()
    };
    let rate: u64 = if window_secs > 0 {
        f.stats.window_bytes / window_secs
    } else {
        0
    };
    let idle: Option<u64> = match f.stats.last_seen {
        Some(t) => Some(if now >= t {
            now - t
        } else {
            0
        }),
        None => None,
    };
    FlowRow {
        source: show_end(f.key.src_ip.as_str(), f.key.src_port),
        destination: show_end(f.key.dst_ip.as_str(), f.key.dst_port),
        proto,
        total_bytes: f.stats.total_bytes,
        rate,
        moving: f.stats.window_packets > 0,
        idle,
    }
}

} // verus!
