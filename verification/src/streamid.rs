//! SRT stream ids and URLs in the form Blackmagic encoders send.
use vstd::prelude::*;
use vstd::string::*;
use vstd::utf8::*;

use crate::number::{
    alnum, decimal, decimal_is_digits, is_alnum, is_digit, parse_u16, parsed, parsed_decimal, show,
    upper_hex, upper_hex_char,
};
use crate::scan::{
    before, blank, find_last_char, find_text, found_from, holds, is_blank, last_position,
    last_position_is, matches_at, position_facts, position_is, up_to,
};
use crate::text::{same, slice_text, to_chars};

verus! {

// ---------------------------------------------------------------------------
// Identifiers
// ---------------------------------------------------------------------------

/// `c` is a hexadecimal digit in lower case.
pub open spec fn is_lower_hex(c: char) -> bool {
    '0' <= c <= '9' || 'a' <= c <= 'f'
}

/// `s` is a random UUID written out: groups of eight, four, four, four and
/// twelve hexadecimal digits, with a four at the start of the third group.
pub open spec fn is_uuid_text(s: Seq<char>) -> bool {
    &&& s.len() == 36
    &&& forall|i: int|
        0 <= i < 36 ==> if i == 8 || i == 13 || i == 18 || i == 23 {
            #[trigger] s[i] == '-'
        } else {
            is_lower_hex(s[i])
        }
    &&& s[14] == '4'
    &&& s[19] == '8' || s[19] == '9' || s[19] == 'a' || s[19] == 'b'
}

/// `uuid::Uuid::new_v4` and its `Display`: a random UUID of version four in its
/// hyphenated form, in lower case. Which one it is depends on chance.
#[verifier::external_body]
pub(crate) fn fresh_uuid() -> (r: String)
    ensures
        is_uuid_text(r@),
{
    uuid::Uuid::new_v4().to_string()
}

/// `c` with a small ASCII letter turned into a capital.
pub open spec fn upper_char(c: char) -> char {
    if 'a' <= c <= 'z' {
        (c as int - 32) as char
    } else {
        c
    }
}

/// `s` without its hyphens, in capitals.
pub open spec fn without_hyphens_upper(s: Seq<char>) -> Seq<char>
    decreases s.len(),
{
    if s.len() == 0 {
        Seq::empty()
    } else if s.last() == '-' {
        without_hyphens_upper(s.drop_last())
    } else {
        without_hyphens_upper(s.drop_last()).push(upper_char(s.last()))
    }
}

/// `s` without its hyphens, in capitals.
pub fn simple_upper(s: &str) -> (r: String)
    ensures
        r@ == without_hyphens_upper(s@),
{
    let v: Vec<char> = to_chars(s);
    let mut out: String = String::new();
    let mut i: usize = 0;
    assert(v@.take(0).len() == 0);
    while i < v.len()
        invariant
            i <= v@.len(),
            out@ == without_hyphens_upper(v@.take(i as int)),
        decreases v@.len() - i,
    {
        assert(v@.take(i + 1).drop_last() == v@.take(i as int));
        let c: char = v[i];
        if c != '-' {
            let u: char = if 'a' <= c && c <= 'z' {
                (c as u8 - 32) as char
            } else {
                c
            };
            out.push(u);
        }
        i += 1;
    }
    assert(v@.take(i as int) == s@);
    out
}

// ---------------------------------------------------------------------------
// Stream ids
// ---------------------------------------------------------------------------

/// `s` with every `from` turned into `to`.
pub open spec fn replaced(s: Seq<char>, from: char, to: char) -> Seq<char> {
    Seq::new(
        s.len(),
        |i: int|
            if s[i] == from {
                to
            } else {
                s[i]
            },
    )
}

/// `s` with every `from` turned into `to`.
pub fn replace_char(s: &str, from: char, to: char) -> (r: String)
    ensures
        r@ == replaced(s@, from, to),
{
    let v: Vec<char> = to_chars(s);
    let mut out: String = String::new();
    let mut i: usize = 0;
    while i < v.len()
        invariant
            i <= v@.len(),
            v@ == s@,
            out@ == replaced(s@, from, to).take(i as int),
        decreases v@.len() - i,
    {
        let c: char = if v[i] == from {
            to
        } else {
            v[i]
        };
        out.push(c);
        i += 1;
        assert(replaced(s@, from, to).take(i as int) == replaced(s@, from, to).take(i - 1).push(c));
    }
    assert(replaced(s@, from, to).take(i as int) == replaced(s@, from, to));
    out
}

/// The stream key as a stream id carries it: receivers reject slashes.
pub open spec fn safe_key(key: Seq<char>) -> Seq<char> {
    replaced(key, '/', '_')
}

/// The device name as a stream id carries it: commas and equals signs separate
/// fields.
pub open spec fn safe_name(name: Seq<char>) -> Seq<char> {
    replaced(replaced(name, ',', ' '), '=', ' ')
}

/// The stream id for a key, a device name and a device identifier.
pub open spec fn streamid_text(
    key: Seq<char>,
    name: Seq<char>,
    uuid: Seq<char>,
    legacy: bool,
) -> Seq<char> {
    if legacy {
        "#!::r="@ + safe_key(key) + ",m=publish,bmd_uuid="@ + uuid + ",bmd_name="@ + safe_name(name)
    } else {
        "#!::bmd_uuid="@ + uuid + ",bmd_name="@ + safe_name(name) + ",u="@ + safe_key(key)
    }
}

/// The stream id for a key, a device name and a device identifier.
pub fn streamid_for(stream_key: &str, device_name: &str, device_uuid: &str, legacy: bool) -> (r:
    String)
    ensures
        r@ == streamid_text(stream_key@, device_name@, device_uuid@, legacy),
{
    let key: String = replace_char(stream_key, '/', '_');
    let half: String = replace_char(device_name, ',', ' ');
    let name: String = replace_char(half.as_str(), '=', ' ');
    let mut out: String = String::new();
    if legacy {
        out.push_str("#!::r=");
        out.push_str(key.as_str());
        out.push_str(",m=publish,bmd_uuid=");
        out.push_str(device_uuid);
        out.push_str(",bmd_name=");
        out.push_str(name.as_str());
    } else {
        out.push_str("#!::bmd_uuid=");
        out.push_str(device_uuid);
        out.push_str(",bmd_name=");
        out.push_str(name.as_str());
        out.push_str(",u=");
        out.push_str(key.as_str());
    }
    assert(out@ =~= streamid_text(stream_key@, device_name@, device_uuid@, legacy));
    out
}

/// The stream id for a key and a device name. Without a device identifier a
/// random one is made up.
///
/// Blackmagic encoders carry the key as `u=`; the legacy form carries it as `r=`
/// beside `m=publish`. The text is not yet percent-encoded.
pub fn build_bmd_streamid(
    stream_key: &str,
    device_name: &str,
    device_uuid: Option<&str>,
    legacy_format: bool,
) -> (r: String)
    ensures
        device_uuid matches Some(u) ==> r@ == streamid_text(
            stream_key@,
            device_name@,
            u@,
            legacy_format,
        ),
        device_uuid is None ==> exists|u: Seq<char>|
            is_uuid_text(u) && r@ == #[trigger] streamid_text(
                stream_key@,
                device_name@,
                u,
                legacy_format,
            ),
{
    match device_uuid {
        Some(u) => streamid_for(stream_key, device_name, u, legacy_format),
        None => {
            let u: String = fresh_uuid();
            streamid_for(stream_key, device_name, u.as_str(), legacy_format)
        },
    }
}

// ---------------------------------------------------------------------------
// Percent-encoding
// ---------------------------------------------------------------------------

/// `b` stands for a character that a URL carries as it is.
pub open spec fn is_unreserved(b: u8) -> bool {
    is_alnum(b as char) || b == 45 || b == 95 || b == 46 || b == 126
}

/// What stands for the byte `b` in a URL.
pub open spec fn percent(b: u8) -> Seq<char> {
    if is_unreserved(b) {
        seq![b as char]
    } else {
        seq!['%', upper_hex(b as int / 16), upper_hex(b as int % 16)]
    }
}

/// What stands for the bytes in a URL.
pub open spec fn percent_encoded(bytes: Seq<u8>) -> Seq<char>
    decreases bytes.len(),
{
    if bytes.len() == 0 {
        Seq::empty()
    } else {
        percent_encoded(bytes.drop_last()) + percent(bytes.last())
    }
}

/// The bytes of `s` percent-encoded. Letters, digits and `-_.~` stay as they are.
pub fn url_encode(s: &str) -> (r: String)
    ensures
        r@ == percent_encoded(s.spec_bytes()),
{
    let bytes: &[u8] = s.as_bytes();
    let mut out: String = String::new();
    let mut i: usize = 0;
    assert(bytes@.take(0).len() == 0);
    while i < bytes.len()
        invariant
            i <= bytes@.len(),
            out@ == percent_encoded(bytes@.take(i as int)),
        decreases bytes@.len() - i,
    {
        let ghost before = out@;
        assert(bytes@.take(i + 1).drop_last() == bytes@.take(i as int));
        let b: u8 = bytes[i];
        if alnum(b as char) || b == 45 || b == 95 || b == 46 || b == 126 {
            out.push(b as char);
            assert(out@ =~= before + percent(b));
        } else {
            out.push('%');
            out.push(upper_hex_char(b / 16));
            out.push(upper_hex_char(b % 16));
            assert(out@ =~= before + percent(b));
        }
        i += 1;
    }
    assert(bytes@.take(i as int) == s.spec_bytes());
    out
}

/// The byte that the hexadecimal digit `c` in capitals stands for.
pub open spec fn upper_hex_value(c: char) -> int {
    if c <= '9' {
        c as int - 48
    } else {
        c as int - 55
    }
}

/// The bytes that a percent-encoded text stands for.
pub open spec fn percent_decoded(s: Seq<char>) -> Seq<u8>
    decreases s.len(),
{
    if s.len() == 0 {
        Seq::empty()
    } else if s[0] == '%' && s.len() >= 3 {
        seq![(upper_hex_value(s[1]) * 16 + upper_hex_value(s[2])) as u8] + percent_decoded(
            s.skip(3),
        )
    } else {
        seq![s[0] as u8] + percent_decoded(s.skip(1))
    }
}

proof fn percent_encoded_front(bytes: Seq<u8>)
    requires
        bytes.len() > 0,
    ensures
        percent_encoded(bytes) == percent(bytes[0]) + percent_encoded(bytes.drop_first()),
    decreases bytes.len(),
{
    if bytes.len() == 1 {
        assert(bytes.drop_last() =~= Seq::<u8>::empty());
        assert(bytes.drop_first() =~= Seq::<u8>::empty());
        assert(percent_encoded(bytes.drop_last()) =~= Seq::<char>::empty());
        assert(percent_encoded(bytes.drop_first()) =~= Seq::<char>::empty());
        assert(percent_encoded(bytes) =~= percent(bytes[0]) + percent_encoded(bytes.drop_first()));
    } else {
        percent_encoded_front(bytes.drop_last());
        let t = bytes.drop_first();
        assert(t.drop_last() == bytes.drop_last().drop_first());
        assert(t.last() == bytes.last());
        assert(percent_encoded(bytes) =~= percent(bytes[0]) + percent_encoded(t));
    }
}

/// Percent-encoding loses nothing: the encoded bytes can be read back.
pub proof fn percent_round_trip(bytes: Seq<u8>)
    ensures
        percent_decoded(percent_encoded(bytes)) == bytes,
    decreases bytes.len(),
{
    if bytes.len() > 0 {
        percent_encoded_front(bytes);
        let t = bytes.drop_first();
        percent_round_trip(t);
        let b = bytes[0];
        let e = percent_encoded(bytes);
        let p = percent(b);
        if is_unreserved(b) {
            assert(e[0] == b as char);
            assert(e.skip(1) =~= percent_encoded(t));
            assert(e[0] != '%');
            assert((b as char) as u8 == b);
        } else {
            assert(e[0] == '%');
            assert(e[1] == p[1]);
            assert(e[2] == p[2]);
            assert(e.skip(3) =~= percent_encoded(t));
            assert(upper_hex_value(p[1]) == b as int / 16);
            assert(upper_hex_value(p[2]) == b as int % 16);
        }
        assert(percent_decoded(e) =~= bytes);
    } else {
        assert(percent_encoded(bytes) =~= Seq::<char>::empty());
        assert(percent_decoded(percent_encoded(bytes)) =~= bytes);
    }
}

/// A percent-encoded text holds letters, digits, `-_.~` and `%` only: nothing
/// that separates the parts of a URL.
pub proof fn percent_encoded_is_plain(bytes: Seq<u8>)
    ensures
        forall|i: int|
            0 <= i < percent_encoded(bytes).len() ==> is_alnum(
                #[trigger] percent_encoded(bytes)[i],
            ) || percent_encoded(bytes)[i] == '-' || percent_encoded(bytes)[i] == '_'
                || percent_encoded(bytes)[i] == '.' || percent_encoded(bytes)[i] == '~'
                || percent_encoded(bytes)[i] == '%',
    decreases bytes.len(),
{
    if bytes.len() > 0 {
        percent_encoded_is_plain(bytes.drop_last());
        let a = percent_encoded(bytes.drop_last());
        let p = percent(bytes.last());
        let e = percent_encoded(bytes);
        assert forall|i: int| 0 <= i < e.len() implies is_alnum(#[trigger] e[i]) || e[i] == '-'
            || e[i] == '_' || e[i] == '.' || e[i] == '~' || e[i] == '%' by {
            if i < a.len() {
                assert(e[i] == a[i]);
            } else {
                assert(e[i] == p[i - a.len()]);
            }
        }
    }
}

// ---------------------------------------------------------------------------
// URLs
// ---------------------------------------------------------------------------

/// What an SRT URL is made of.
#[derive(Debug, Clone)]
pub struct SrtUrlParams<'a> {
    pub host: &'a str,
    pub port: u16,
    pub stream_key: &'a str,
    pub device_name: &'a str,
    pub device_uuid: &'a str,
    pub latency_us: u32,
    pub passphrase: Option<&'a str>,
    pub mode: &'a str,
    pub streamid_override: &'a str,
    pub listen_port: u16,
    pub legacy_streamid: bool,
}

/// What `SrtUrlParams` hold.
pub struct SrtUrlModel {
    pub host: Seq<char>,
    pub port: u16,
    pub stream_key: Seq<char>,
    pub device_name: Seq<char>,
    pub device_uuid: Seq<char>,
    pub latency_us: u32,
    pub passphrase: Option<Seq<char>>,
    pub mode: Seq<char>,
    pub streamid_override: Seq<char>,
    pub listen_port: u16,
    pub legacy_streamid: bool,
}

impl<'a> View for SrtUrlParams<'a> {
    type V = SrtUrlModel;

    open spec fn view(&self) -> SrtUrlModel {
        SrtUrlModel {
            host: self.host@,
            port: self.port,
            stream_key: self.stream_key@,
            device_name: self.device_name@,
            device_uuid: self.device_uuid@,
            latency_us: self.latency_us,
            passphrase: match self.passphrase {
                Some(w) => Some(w@),
                None => None,
            },
            mode: self.mode@,
            streamid_override: self.streamid_override@,
            listen_port: self.listen_port,
            legacy_streamid: self.legacy_streamid,
        }
    }
}

/// The stream id that an SRT URL carries: the override if there is one.
pub open spec fn url_streamid(p: SrtUrlModel) -> Seq<char> {
    if p.streamid_override.len() > 0 {
        p.streamid_override
    } else {
        streamid_text(p.stream_key, p.device_name, p.device_uuid, p.legacy_streamid)
    }
}

/// The query of an SRT URL. A listener is told no stream id, as the caller brings
/// it; an empty passphrase and a blank stream id are left out.
pub open spec fn srt_query(p: SrtUrlModel) -> Seq<char> {
    let pass = match p.passphrase {
        Some(w) => if w.len() > 0 {
            "&passphrase="@ + percent_encoded(encode_utf8(w))
        } else {
            Seq::empty()
        },
        None => Seq::empty(),
    };
    let id = url_streamid(p);
    let stream = if p.mode != "listener"@ && !is_blank(id) {
        "&streamid="@ + percent_encoded(encode_utf8(id))
    } else {
        Seq::empty()
    };
    "latency="@ + decimal(p.latency_us as nat) + "&mode="@ + percent_encoded(encode_utf8(p.mode))
        + pass + stream
}

/// The SRT URL. A listener listens on every address.
pub open spec fn srt_url(p: SrtUrlModel) -> Seq<char> {
    if p.mode == "listener"@ {
        "srt://0.0.0.0:"@ + decimal(p.listen_port as nat) + "?"@ + srt_query(p)
    } else {
        "srt://"@ + p.host + ":"@ + decimal(p.port as nat) + "?"@ + srt_query(p)
    }
}

/// An SRT URL with its latency, mode, passphrase and stream id in the query, in
/// that order.
pub fn build_srt_url(p: &SrtUrlParams) -> (r: String)
    ensures
        r@ == srt_url(p@),
{
    let streamid: String = if !p.streamid_override.is_empty() {
        p.streamid_override.to_owned()
    } else {
        streamid_for(p.stream_key, p.device_name, p.device_uuid, p.legacy_streamid)
    };
    let listener: bool = same(p.mode, "listener");
    let latency: String = show(p.latency_us as u64);
    let mode: String = url_encode(p.mode);
    let mut query: String = String::new();
    query.push_str("latency=");
    query.push_str(latency.as_str());
    query.push_str("&mode=");
    query.push_str(mode.as_str());
    if let Some(pass) = p.passphrase {
        if !pass.is_empty() {
            let e: String = url_encode(pass);
            query.push_str("&passphrase=");
            query.push_str(e.as_str());
        }
    }
    if !listener && !blank(streamid.as_str()) {
        let e: String = url_encode(streamid.as_str());
        query.push_str("&streamid=");
        query.push_str(e.as_str());
    }
    assert(query@ =~= srt_query(p@));
    let mut out: String = String::new();
    if listener {
        let port: String = show(p.listen_port as u64);
        out.push_str("srt://0.0.0.0:");
        out.push_str(port.as_str());
    } else {
        let port: String = show(p.port as u64);
        out.push_str("srt://");
        out.push_str(p.host);
        out.push_str(":");
        out.push_str(port.as_str());
    }
    out.push_str("?");
    out.push_str(query.as_str());
    assert(out@ =~= srt_url(p@));
    out
}

/// The host and the port of a URL, with the scheme, the path and the query cut
/// off.
pub open spec fn authority(url: Seq<char>) -> Seq<char> {
    let rest = match found_from(url, "://"@, 0) {
        Some(i) => url.skip(i + 3),
        None => url,
    };
    up_to(up_to(rest, '/'), '?')
}

/// The host in `host[:port]`: all before the last colon.
pub open spec fn host_part(s: Seq<char>) -> Seq<char> {
    if last_position(s, ':') >= 0 {
        s.take(last_position(s, ':'))
    } else {
        s
    }
}

/// The port in `host[:port]`; `default` if there is none that can be read.
pub open spec fn port_part(s: Seq<char>, default: u16) -> u16 {
    let i = last_position(s, ':');
    if i >= 0 {
        match parsed(s.skip(i + 1), 0xFFFF) {
            Some(n) => n as u16,
            None => default,
        }
    } else {
        default
    }
}

/// The host and the port of an SRT URL; `default_port` if it has no port, or one
/// that cannot be read.
pub fn parse_srt_host_port(url: &str, default_port: u16) -> (r: (String, u16))
    ensures
        r.0@ == host_part(authority(url@)),
        r.1 == port_part(authority(url@), default_port),
{
    let v: Vec<char> = to_chars(url);
    let sep: Vec<char> = to_chars("://");
    proof {
        reveal_strlit("://");
    }
    let rest: String = match find_text(&v, &sep, 0) {
        Some(i) => {
            let n: usize = v.len();
            assert(i + sep@.len() <= n);
            assert(v@.subrange(i + 3, n as int) == url@.skip(i + 3));
            slice_text(&v, i + 3, n)
        },
        None => url.to_owned(),
    };
    let a: String = before(rest.as_str(), '/');
    let b: String = before(a.as_str(), '?');
    let w: Vec<char> = to_chars(b.as_str());
    match find_last_char(&w, ':') {
        Some(i) => {
            let host: String = slice_text(&w, 0, i);
            let port: String = slice_text(&w, i + 1, w.len());
            assert(host@ == b@.take(i as int));
            assert(port@ == b@.skip(i + 1));
            match parse_u16(port.as_str()) {
                Some(n) => (host, n),
                None => (host, default_port),
            }
        },
        None => (b, default_port),
    }
}

// ---------------------------------------------------------------------------
// What holds of every URL
// ---------------------------------------------------------------------------

/// No `=` in the text begins it or comes after a `d`.
spec fn no_name_in_d(s: Seq<char>) -> bool {
    forall|j: int| 0 <= j < s.len() && #[trigger] s[j] == '=' ==> j > 0 && s[j - 1] != 'd'
}

proof fn no_name_in_d_concat(a: Seq<char>, b: Seq<char>)
    requires
        no_name_in_d(a),
        no_name_in_d(b),
    ensures
        no_name_in_d(a + b),
{
    assert forall|j: int| 0 <= j < (a + b).len() && #[trigger] (a + b)[j] == '=' implies j > 0 && (
    a + b)[j - 1] != 'd' by {
        if j < a.len() {
            assert(a[j] == '=');
        } else {
            assert(b[j - a.len()] == '=');
        }
    }
}

/// A listener's URL depends on its port, the latency and the passphrase alone, and tells no
/// stream id: the host, the port, the key, the names and the override of a caller do not
/// reach it.
pub proof fn listeners_tell_no_stream_id(p: SrtUrlModel, q: SrtUrlModel)
    requires
        p.mode == "listener"@,
        q.mode == p.mode,
        q.latency_us == p.latency_us,
        q.passphrase == p.passphrase,
        q.listen_port == p.listen_port,
    ensures
        srt_url(q) == srt_url(p),
        srt_url(p) == "srt://0.0.0.0:"@ + decimal(p.listen_port as nat) + "?"@ + srt_query(p),
        !holds(srt_url(p), "streamid="@),
{
    assert(srt_query(q) == srt_query(p));
    let port = decimal(p.listen_port as nat);
    let latency = decimal(p.latency_us as nat);
    let mode = percent_encoded(encode_utf8(p.mode));
    decimal_is_digits(p.listen_port as nat);
    decimal_is_digits(p.latency_us as nat);
    percent_encoded_is_plain(encode_utf8(p.mode));
    reveal_strlit("srt://0.0.0.0:");
    reveal_strlit("?");
    reveal_strlit("latency=");
    reveal_strlit("&mode=");
    reveal_strlit("&passphrase=");
    reveal_strlit("streamid=");
    let a = "srt://0.0.0.0:"@ + port;
    no_name_in_d_concat("srt://0.0.0.0:"@, port);
    no_name_in_d_concat(a, "?"@);
    let b = "latency="@ + latency;
    no_name_in_d_concat("latency="@, latency);
    no_name_in_d_concat(b, "&mode="@);
    no_name_in_d_concat(b + "&mode="@, mode);
    let c = b + "&mode="@ + mode;
    let pass = match p.passphrase {
        Some(w) => if w.len() > 0 {
            "&passphrase="@ + percent_encoded(encode_utf8(w))
        } else {
            Seq::empty()
        },
        None => Seq::empty(),
    };
    if p.passphrase is Some {
        percent_encoded_is_plain(encode_utf8(p.passphrase->0));
        no_name_in_d_concat("&passphrase="@, percent_encoded(encode_utf8(p.passphrase->0)));
    }
    no_name_in_d_concat(c, pass);
    assert(srt_query(p) =~= c + pass);
    no_name_in_d_concat(a + "?"@, srt_query(p));
    let url = srt_url(p);
    assert(no_name_in_d(url));
    assert forall|i: int| !#[trigger] matches_at(url, "streamid="@, i) by {
        if matches_at(url, "streamid="@, i) {
            let part = url.subrange(i, i + 9);
            assert(part[8] == '=' && part[7] == 'd');
            assert(url[i + 8] == '=');
        }
    }
}

/// What stands before a path or a query, if neither a slash nor a question mark stands in
/// it, is all that is left of a URL of SRT.
pub proof fn authority_is(host: Seq<char>, rest: Seq<char>)
    requires
        forall|i: int| 0 <= i < host.len() ==> #[trigger] host[i] != '/' && host[i] != '?',
        rest.len() == 0 || rest[0] == '/' || rest[0] == '?',
    ensures
        authority("srt://"@ + host + rest) == host,
{
    reveal_strlit("srt://");
    reveal_strlit("://");
    let url = "srt://"@ + host + rest;
    let t = url.skip(6);
    assert(t =~= host + rest);
    reveal_with_fuel(found_from, 4);
    assert(url[0] == 's' && url[1] == 'r' && url[2] == 't');
    assert forall|i: int| 0 <= i < 3 implies !#[trigger] matches_at(url, "://"@, i) by {
        if matches_at(url, "://"@, i) {
            assert(url.subrange(i, i + 3)[0] == ':');
        }
    }
    assert(!matches_at(url, "://"@, 0) && !matches_at(url, "://"@, 1) && !matches_at(
        url,
        "://"@,
        2,
    ));
    assert(url.subrange(3, 6) =~= "://"@);
    assert(found_from(url, "://"@, 0) == Some(3int));
    position_facts(t, '/');
    let a = up_to(t, '/');
    let n = host.len() as int;
    assert forall|j: int| 0 <= j < n implies t[j] != '/' && t[j] != '?' by {
        assert(t[j] == host[j]);
    }
    if rest.len() > 0 {
        assert(t[n] == rest[0]);
    }
    assert(a.len() >= n);
    position_is(a, '?', if n < a.len() {
        n
    } else {
        a.len() as int
    });
    assert(up_to(a, '?') =~= host);
}

/// The host and the port that a URL was made of are read back from it, whatever the port
/// would be that is used where there is none. A listener's URL does not hold them.
pub proof fn host_and_port_read_back(p: SrtUrlModel, default: u16)
    requires
        p.mode != "listener"@,
        forall|i: int| 0 <= i < p.host.len() ==> #[trigger] p.host[i] != '/' && p.host[i] != '?',
    ensures
        host_part(authority(srt_url(p))) == p.host,
        port_part(authority(srt_url(p)), default) == p.port,
{
    let port = decimal(p.port as nat);
    decimal_is_digits(p.port as nat);
    reveal_strlit(":");
    reveal_strlit("?");
    let a = p.host + ":"@ + port;
    let rest = "?"@ + srt_query(p);
    assert forall|i: int| 0 <= i < a.len() implies #[trigger] a[i] != '/' && a[i] != '?' by {
        if i < p.host.len() {
            assert(a[i] == p.host[i]);
        } else if i > p.host.len() {
            assert(a[i] == port[i - p.host.len() - 1]);
        }
    }
    assert(srt_url(p) =~= "srt://"@ + a + rest);
    authority_is(a, rest);
    let n = p.host.len() as int;
    assert forall|j: int| n < j < a.len() implies a[j] != ':' by {
        assert(a[j] == port[j - n - 1]);
        assert(is_digit(port[j - n - 1]));
    }
    last_position_is(a, ':', n);
    assert(a.take(n) =~= p.host);
    assert(a.skip(n + 1) =~= port);
    parsed_decimal(p.port as nat, 0xFFFF);
}

/// A URL without a port has the one that is given for that.
pub proof fn missing_ports_are_given(host: Seq<char>, rest: Seq<char>, default: u16)
    requires
        forall|i: int|
            0 <= i < host.len() ==> #[trigger] host[i] != '/' && host[i] != '?' && host[i] != ':',
        rest.len() == 0 || rest[0] == '/' || rest[0] == '?',
    ensures
        host_part(authority("srt://"@ + host + rest)) == host,
        port_part(authority("srt://"@ + host + rest), default) == default,
{
    authority_is(host, rest);
    last_position_is(host, ':', -1);
}

} // verus!
