//! The stream id in the first packets of an SRT connection.
use vstd::prelude::*;
use vstd::slice::slice_subrange;
use vstd::string::*;
use vstd::utf8::*;

use crate::number::hex_value;
use crate::scan::{
    begins, is_space, pieces, position_is, split, strip_prefix, trim, trimmed, trimmed_text_ends,
};
use crate::streamid::{replaced, safe_key, safe_name, streamid_text};
use crate::text::{opt_text, texts};

verus! {

// ---------------------------------------------------------------------------
// Hexadecimal
// ---------------------------------------------------------------------------

/// The value of a hexadecimal digit.
pub fn hex_digit(c: u8) -> (r: Option<u8>)
    ensures
        match hex_value(c as int) {
            Some(d) => r matches Some(n) && n == d,
            None => r is None,
        },
{
    if 48 <= c && c <= 57 {
        Some(c - 48)
    } else if 97 <= c && c <= 102 {
        Some(c - 97 + 10)
    } else if 65 <= c && c <= 70 {
        Some(c - 65 + 10)
    } else {
        None
    }
}

/// The values of the hexadecimal digits among the bytes.
pub open spec fn nibbles(s: Seq<u8>) -> Seq<int>
    decreases s.len(),
{
    if s.len() == 0 {
        Seq::empty()
    } else {
        match hex_value(s.last() as int) {
            Some(d) => nibbles(s.drop_last()).push(d),
            None => nibbles(s.drop_last()),
        }
    }
}

/// The bytes that pairs of digits stand for; a digit that is left over counts for
/// nothing.
pub open spec fn paired(n: Seq<int>) -> Seq<u8> {
    Seq::new((n.len() / 2) as nat, |i: int| (n[2 * i] * 16 + n[2 * i + 1]) as u8)
}

/// Whether each byte is a hexadecimal digit or a colon.
pub open spec fn is_hex_text(s: Seq<u8>) -> bool {
    forall|i: int| 0 <= i < s.len() ==> hex_value((#[trigger] s[i]) as int) is Some || s[i] == 58
}

/// The bytes that a hexadecimal text stands for, with colons wherever they are put. A
/// text that holds anything else stands for none.
pub open spec fn hex_bytes(s: Seq<u8>) -> Seq<u8> {
    if is_hex_text(s) {
        paired(nibbles(s))
    } else {
        Seq::empty()
    }
}

/// The bytes that a hexadecimal text stands for; none if it is no such text.
pub fn hex_decode(s: &str) -> (r: Vec<u8>)
    ensures
        r@ == hex_bytes(encode_utf8(s@)),
{
    let bytes: &[u8] = s.as_bytes();
    let mut out: Vec<u8> = Vec::new();
    let mut high: Option<u8> = None;
    let mut i: usize = 0;
    let ghost mut seen: Seq<int> = Seq::empty();
    assert(bytes@.take(0).len() == 0);
    assert(out@ =~= paired(seen));
    while i < bytes.len()
        invariant
            i <= bytes@.len(),
            bytes@ == encode_utf8(s@),
            is_hex_text(bytes@.take(i as int)),
            seen == nibbles(bytes@.take(i as int)),
            out@ == paired(seen),
            high is Some <==> seen.len() % 2 == 1,
            high matches Some(h) ==> h == seen.last() && h < 16,
            forall|j: int| 0 <= j < seen.len() ==> 0 <= #[trigger] seen[j] < 16,
        decreases bytes@.len() - i,
    {
        assert(bytes@.take(i + 1).drop_last() == bytes@.take(i as int));
        assert(bytes@.take(i + 1).last() == bytes@[i as int]);
        if let Some(d) = hex_digit(bytes[i]) {
            let ghost before = seen;
            proof {
                seen = seen.push(d as int);
            }
            match high {
                Some(h) => {
                    let ghost had = out@;
                    out.push(h * 16 + d);
                    high = None;
                    assert(before.last() == seen[seen.len() - 2]);
                    assert(had == paired(before));
                    assert(out@ =~= paired(seen));
                },
                None => {
                    high = Some(d);
                    assert(out@ =~= paired(seen));
                },
            }
        } else if bytes[i] != 58 {
            assert(!is_hex_text(bytes@));
            return Vec::new();
        }
        i += 1;
    }
    assert(bytes@.take(i as int) == encode_utf8(s@));
    out
}

// ---------------------------------------------------------------------------
// The text of a stream id
// ---------------------------------------------------------------------------

/// The bytes with each group of four turned round.
pub open spec fn turned(b: Seq<u8>) -> Seq<u8>
    decreases b.len(),
{
    if b.len() <= 4 {
        b.reverse()
    } else {
        b.take(4).reverse() + turned(b.skip(4))
    }
}

/// The bytes without zeros at their end.
pub open spec fn without_zeros(b: Seq<u8>) -> Seq<u8>
    decreases b.len(),
{
    if b.len() > 0 && b.last() == 0 {
        without_zeros(b.drop_last())
    } else {
        b
    }
}

/// The text that bytes encode, if they encode one.
pub open spec fn utf8_text(b: Seq<u8>) -> Option<Seq<char>> {
    if valid_utf8(b) {
        Some(decode_utf8(b))
    } else {
        None
    }
}

/// The stream id that a packet carries: its bytes come in groups of four, each
/// turned round, with zeros to fill the last one.
pub open spec fn decoded_sid(b: Seq<u8>) -> Option<Seq<char>> {
    utf8_text(without_zeros(turned(b)))
}

/// `String::from_utf8`: the text that the bytes encode; an error if they are not
/// UTF-8.
#[verifier::external_body]
pub(crate) fn std_from_utf8(bytes: Vec<u8>) -> (r: Option<String>)
    ensures
        opt_text(r) == utf8_text(bytes@),
{
    String::from_utf8(bytes).ok()
}

/// The stream id that a packet carries.
pub fn decode_srt_sid(bytes: &[u8]) -> (r: Option<String>)
    ensures
        opt_text(r) == decoded_sid(bytes@),
{
    let n: usize = bytes.len();
    let mut out: Vec<u8> = Vec::new();
    let mut at: usize = 0;
    assert(bytes@.skip(0) == bytes@);
    assert(out@ + turned(bytes@) =~= turned(bytes@));
    while at < n
        invariant
            at <= n,
            n == bytes@.len(),
            out@ + turned(bytes@.skip(at as int)) == turned(bytes@),
        decreases n - at,
    {
        let ghost rest = bytes@.skip(at as int);
        let ghost before = out@;
        let end: usize = if n - at <= 4 {
            n
        } else {
            at + 4
        };
        let ghost word = bytes@.subrange(at as int, end as int);
        let mut i: usize = end;
        while i > at
            invariant
                at <= i <= end <= n,
                n == bytes@.len(),
                word == bytes@.subrange(at as int, end as int),
                out@ == before + word.reverse().take(end - i),
            decreases i,
        {
            i -= 1;
            out.push(bytes[i]);
            assert(word.reverse().take(end - i) =~= word.reverse().take(end - i - 1).push(
                bytes@[i as int],
            ));
            assert(out@ =~= before + word.reverse().take(end - i));
        }
        assert(word.reverse().take(end - at) =~= word.reverse());
        assert(bytes@.skip(end as int) =~= rest.skip(end - at));
        proof {
            if rest.len() <= 4 {
                assert(word =~= rest);
                assert(bytes@.skip(end as int).len() == 0);
                assert(turned(bytes@.skip(end as int)) =~= Seq::<u8>::empty());
            } else {
                assert(word =~= rest.take(4));
            }
        }
        assert(out@ + turned(bytes@.skip(end as int)) =~= before + turned(rest));
        at = end;
    }
    assert(bytes@.skip(at as int).len() == 0);
    assert(turned(bytes@.skip(at as int)) =~= Seq::<u8>::empty());
    assert(out@ =~= turned(bytes@));
    while out.len() > 0 && out[out.len() - 1] == 0
        invariant
            without_zeros(out@) == without_zeros(turned(bytes@)),
        decreases out@.len(),
    {
        let ghost had = out@;
        let _zero: Option<u8> = out.pop();
        assert(out@ == had.drop_last());
    }
    std_from_utf8(out)
}

// ---------------------------------------------------------------------------
// The packet
// ---------------------------------------------------------------------------

/// A number of two bytes, the higher one first.
pub open spec fn be16(s: Seq<u8>, i: int) -> int {
    s[i] * 256 + s[i + 1]
}

/// A number of four bytes, the highest one first.
pub open spec fn be32(s: Seq<u8>, i: int) -> int {
    be16(s, i) * 65536 + be16(s, i + 2)
}

/// The packet starts as the last handshake of a connection does: a control packet
/// for a handshake of version five that concludes it.
pub open spec fn is_conclusion(p: Seq<u8>) -> bool {
    p.len() >= 64 && p[0] >= 128 && (p[0] - 128) * 256 + p[1] == 0 && be32(p, 16) == 5 && be32(
        p,
        36,
    ) == 0xFFFF_FFFF
}

/// The bytes of the stream id among the extensions of a handshake. Each extension
/// has a type and a length in groups of four bytes; that of the stream id is five.
pub open spec fn sid_bytes(ext: Seq<u8>) -> Option<Seq<u8>>
    decreases ext.len(),
{
    if ext.len() < 4 {
        None
    } else {
        let n = be16(ext, 2) * 4;
        if ext.len() < 4 + n {
            None
        } else if be16(ext, 0) == 5 {
            Some(ext.subrange(4, 4 + n))
        } else {
            sid_bytes(ext.skip(4 + n))
        }
    }
}

/// The stream id that a packet tells, if it does.
pub open spec fn handshake_streamid(p: Seq<u8>) -> Option<Seq<char>> {
    if p.len() < 72 || !is_conclusion(p) {
        None
    } else {
        match sid_bytes(p.skip(64)) {
            Some(b) => decoded_sid(b),
            None => None,
        }
    }
}

fn read16(s: &[u8], i: usize) -> (r: usize)
    requires
        i + 1 < s@.len(),
    ensures
        r == be16(s@, i as int),
        r < 65536,
{
    (s[i] as usize) * 256 + (s[i + 1] as usize)
}

/// The stream id that a packet tells, if it does.
pub fn parse_srt_handshake_streamid(payload: &[u8]) -> (r: Option<String>)
    ensures
        opt_text(r) == handshake_streamid(payload@),
{
    let n: usize = payload.len();
    if n < 72 {
        return None;
    }
    if payload[0] != 128 || payload[1] != 0 {
        return None;
    }
    if read16(payload, 16) != 0 || read16(payload, 18) != 5 {
        return None;
    }
    if read16(payload, 36) != 65535 || read16(payload, 38) != 65535 {
        return None;
    }
    let mut at: usize = 64;
    while n - at >= 4
        invariant
            64 <= at <= n,
            n == payload@.len(),
            n >= 72,
            is_conclusion(payload@),
            sid_bytes(payload@.skip(at as int)) == sid_bytes(payload@.skip(64)),
        decreases n - at,
    {
        let ghost ext = payload@.skip(at as int);
        let kind: usize = read16(payload, at);
        let words: usize = read16(payload, at + 2);
        let len: usize = words * 4;
        assert(kind == be16(ext, 0));
        assert(words == be16(ext, 2));
        if n - at - 4 < len {
            return None;
        }
        if kind == 5 {
            let data: &[u8] = slice_subrange(payload, at + 4, at + 4 + len);
            assert(data@ =~= ext.subrange(4, 4 + len));
            return decode_srt_sid(data);
        }
        assert(ext.skip(4 + len) =~= payload@.skip(at + 4 + len));
        at = at + 4 + len;
    }
    None
}

// ---------------------------------------------------------------------------
// The key
// ---------------------------------------------------------------------------

/// The key in the fields of a stream id: the first that is not blank.
pub open spec fn key_among(fields: Seq<Seq<char>>) -> Option<Seq<char>>
    decreases fields.len(),
{
    if fields.len() == 0 {
        None
    } else if begins(fields[0], "u="@) && trimmed(fields[0].skip(2)).len() > 0 {
        Some(trimmed(fields[0].skip(2)))
    } else {
        key_among(fields.drop_first())
    }
}

/// A stream id without the mark in front.
pub open spec fn without_mark(s: Seq<char>) -> Seq<char> {
    if begins(s, "#!::"@) {
        s.skip(4)
    } else {
        s
    }
}

/// The stream key in a stream id.
pub open spec fn key_in(streamid: Seq<char>) -> Option<Seq<char>> {
    key_among(pieces(without_mark(streamid), ','))
}

/// The stream key in a stream id.
pub fn extract_bmd_key(streamid: &str) -> (r: Option<String>)
    ensures
        opt_text(r) == key_in(streamid@),
{
    proof {
        reveal_strlit("#!::");
        reveal_strlit("u=");
    }
    let body: String = match strip_prefix(streamid, "#!::") {
        Some(rest) => rest,
        None => streamid.to_owned(),
    };
    assert(body@ =~= without_mark(streamid@));
    let fields: Vec<String> = split(body.as_str(), ',');
    let ghost all = texts(fields@);
    let mut i: usize = 0;
    assert(all.skip(0) == all);
    while i < fields.len()
        invariant
            i <= fields@.len(),
            all == texts(fields@),
            all == pieces(without_mark(streamid@), ','),
            "u="@.len() == 2,
            key_among(all.skip(i as int)) == key_among(all),
        decreases fields@.len() - i,
    {
        assert(all.skip(i as int)[0] == fields@[i as int]@);
        assert(all.skip(i as int).drop_first() == all.skip(i + 1));
        if let Some(rest) = strip_prefix(fields[i].as_str(), "u=") {
            let value: String = trim(rest.as_str());
            if !value.as_str().is_empty() {
                return Some(value);
            }
        }
        i += 1;
    }
    None
}

// ---------------------------------------------------------------------------
// Reading back
// ---------------------------------------------------------------------------

/// How many zeros fill the last group of four.
pub open spec fn filling(n: nat) -> nat {
    ((4 - n % 4) % 4) as nat
}

/// The bytes of a stream id as a packet carries them.
pub open spec fn sid_wire(b: Seq<u8>) -> Seq<u8> {
    turned(b + Seq::new(filling(b.len()), |i: int| 0u8))
}

proof fn turned_len(b: Seq<u8>)
    ensures
        turned(b).len() == b.len(),
    decreases b.len(),
{
    if b.len() > 4 {
        turned_len(b.skip(4));
    }
}

proof fn turned_twice(b: Seq<u8>)
    requires
        b.len() % 4 == 0,
    ensures
        turned(turned(b)) == b,
    decreases b.len(),
{
    turned_len(b);
    if b.len() <= 4 {
        assert(b.reverse().reverse() =~= b);
    } else {
        let t = turned(b);
        assert(t.take(4) =~= b.take(4).reverse());
        assert(t.skip(4) =~= turned(b.skip(4)));
        turned_twice(b.skip(4));
        assert(b.take(4).reverse().reverse() =~= b.take(4));
        assert(turned(t) =~= b.take(4) + b.skip(4));
        assert(b.take(4) + b.skip(4) =~= b);
    }
}

proof fn zeros_fall_off(b: Seq<u8>, n: nat)
    requires
        b.len() == 0 || b.last() != 0,
    ensures
        without_zeros(b + Seq::new(n, |i: int| 0u8)) == b,
    decreases n,
{
    let t = b + Seq::new(n, |i: int| 0u8);
    if n > 0 {
        assert(t.last() == 0);
        assert(t.drop_last() =~= b + Seq::new((n - 1) as nat, |i: int| 0u8));
        zeros_fall_off(b, (n - 1) as nat);
    } else {
        assert(t =~= b);
    }
}

/// A stream id that does not end in a zero is read back as it was sent.
pub proof fn sid_reads_back(b: Seq<u8>)
    requires
        b.len() == 0 || b.last() != 0,
    ensures
        decoded_sid(sid_wire(b)) == utf8_text(b),
{
    let full = b + Seq::new(filling(b.len()), |i: int| 0u8);
    assert(full.len() % 4 == 0);
    turned_twice(full);
    zeros_fall_off(b, filling(b.len()));
}

/// A handshake tells the stream id that its first extension carries.
pub proof fn handshake_tells_streamid(head: Seq<u8>, wire: Seq<u8>, rest: Seq<u8>, a: u8, b: u8)
    requires
        head.len() == 64,
        is_conclusion(head),
        wire.len() == 4 * (a * 256 + b),
        wire.len() > 0,
    ensures
        handshake_streamid(head + seq![0u8, 5u8, a, b] + wire + rest) == decoded_sid(wire),
{
    let p = head + seq![0u8, 5u8, a, b] + wire + rest;
    let ext = p.skip(64);
    assert(p[0] == head[0] && p[1] == head[1]);
    assert(p[16] == head[16] && p[17] == head[17] && p[18] == head[18] && p[19] == head[19]);
    assert(p[36] == head[36] && p[37] == head[37] && p[38] == head[38] && p[39] == head[39]);
    assert(ext[0] == 0 && ext[1] == 5 && ext[2] == a && ext[3] == b);
    assert(ext.subrange(4, 4 + wire.len() as int) =~= wire);
}

proof fn first_piece(a: Seq<char>, rest: Seq<char>)
    requires
        forall|i: int| 0 <= i < a.len() ==> #[trigger] a[i] != ',',
    ensures
        pieces(a + ","@ + rest, ',') == seq![a] + pieces(rest, ','),
{
    reveal_strlit(",");
    let t = a + ","@ + rest;
    let n = a.len() as int;
    assert forall|j: int| 0 <= j < n implies t[j] != ',' by {
        assert(t[j] == a[j]);
    }
    assert(t[n] == ',');
    position_is(t, ',', n);
    assert(t.take(n) =~= a);
    assert(t.skip(n + 1) =~= rest);
}

/// The last of the fields of a stream id tells its key.
pub proof fn fields_tell_key(uuid: Seq<char>, name: Seq<char>, key: Seq<char>)
    requires
        key.len() > 0,
        trimmed(key) == key,
        forall|i: int| 0 <= i < key.len() ==> #[trigger] key[i] != ',',
        forall|i: int| 0 <= i < uuid.len() ==> #[trigger] uuid[i] != ',',
        forall|i: int| 0 <= i < name.len() ==> #[trigger] name[i] != ',',
    ensures
        key_in("#!::bmd_uuid="@ + uuid + ",bmd_name="@ + name + ",u="@ + key) == Some(key),
{
    reveal_strlit("#!::");
    reveal_strlit("#!::bmd_uuid=");
    reveal_strlit(",bmd_name=");
    reveal_strlit(",u=");
    reveal_strlit("u=");
    reveal_strlit("bmd_uuid=");
    reveal_strlit("bmd_name=");
    reveal_strlit(",");
    let id = "#!::bmd_uuid="@ + uuid + ",bmd_name="@ + name + ",u="@ + key;
    let f1 = "bmd_uuid="@ + uuid;
    let f2 = "bmd_name="@ + name;
    let f3 = "u="@ + key;
    assert(id.take(4) =~= "#!::"@);
    assert(id.skip(4) =~= f1 + ","@ + (f2 + ","@ + f3));
    assert forall|i: int| 0 <= i < f1.len() implies #[trigger] f1[i] != ',' by {
        if i >= 9 {
            assert(f1[i] == uuid[i - 9]);
        }
    }
    assert forall|i: int| 0 <= i < f2.len() implies #[trigger] f2[i] != ',' by {
        if i >= 9 {
            assert(f2[i] == name[i - 9]);
        }
    }
    assert forall|i: int| 0 <= i < f3.len() implies #[trigger] f3[i] != ',' by {
        if i >= 2 {
            assert(f3[i] == key[i - 2]);
        }
    }
    first_piece(f1, f2 + ","@ + f3);
    first_piece(f2, f3);
    position_is(f3, ',', f3.len() as int);
    assert(pieces(f3, ',') =~= seq![f3]);
    let all = pieces(id.skip(4), ',');
    assert(all =~= seq![f1, f2, f3]);
    assert(f1[0] == 'b' && f2[0] == 'b');
    assert(!begins(f1, "u="@)) by {
        if begins(f1, "u="@) {
            assert(f1.take(2)[0] == "u="@[0]);
        }
    }
    assert(!begins(f2, "u="@)) by {
        if begins(f2, "u="@) {
            assert(f2.take(2)[0] == "u="@[0]);
        }
    }
    assert(f3.take(2) =~= "u="@);
    assert(f3.skip(2) =~= key);
    assert(all.drop_first() =~= seq![f2, f3]);
    assert(seq![f2, f3].drop_first() =~= seq![f3]);
    assert(key_among(seq![f3]) == Some(key));
    assert(key_among(seq![f2, f3]) == Some(key));
    assert(key_among(all) == Some(key));
}

/// The key that an encoder puts into a stream id is found in it, if no comma stands
/// in it and no whitespace at its ends. Slashes come out as receivers take them.
pub proof fn streamid_tells_key(key: Seq<char>, name: Seq<char>, uuid: Seq<char>)
    requires
        key.len() > 0,
        trimmed(key) == key,
        forall|i: int| 0 <= i < key.len() ==> #[trigger] key[i] != ',',
        forall|i: int| 0 <= i < uuid.len() ==> #[trigger] uuid[i] != ',',
    ensures
        key_in(streamid_text(key, name, uuid, false)) == Some(safe_key(key)),
{
    let k = safe_key(key);
    let n = safe_name(name);
    trimmed_text_ends(key);
    assert(!is_space(k[0]) && !is_space(k.last()));
    assert(trimmed(k) == k);
    assert forall|i: int| 0 <= i < k.len() implies #[trigger] k[i] != ',' by {
        assert(key[i] != ',');
    }
    assert forall|i: int| 0 <= i < n.len() implies #[trigger] n[i] != ',' by {
        let half = replaced(name, ',', ' ');
        assert(half[i] != ',');
    }
    fields_tell_key(uuid, n, k);
}

} // verus!
