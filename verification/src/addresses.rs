//! Network addresses.
use vstd::prelude::*;
use vstd::string::*;

use crate::number::{
    ascii_lower, hex_value, lower_char, parse_up_to, parsed, to_ascii_lower, to_lower_char,
};
use crate::scan::{is_space, pieces, split, trim, trimmed, trimmed_end, trimmed_start, trimmed_twice};
use crate::text::{from_chars, texts, to_chars};

verus! {

// ---------------------------------------------------------------------------
// Hardware addresses
// ---------------------------------------------------------------------------

/// A hexadecimal digit.
pub open spec fn is_hex(c: char) -> bool {
    hex_value(c as int) is Some
}

/// The hexadecimal digits of a text, in lower case.
pub open spec fn hex_chars(s: Seq<char>) -> Seq<char>
    decreases s.len(),
{
    if s.len() == 0 {
        Seq::empty()
    } else if is_hex(s.last()) {
        hex_chars(s.drop_last()).push(lower_char(s.last()))
    } else {
        hex_chars(s.drop_last())
    }
}

/// Twelve digits in pairs with colons between them.
pub open spec fn in_pairs(h: Seq<char>) -> Seq<char> {
    Seq::new(
        17,
        |i: int|
            if i % 3 == 2 {
                ':'
            } else {
                h[i - i / 3]
            },
    )
}

/// The one way in which a hardware address is written: lower case, with colons. What
/// is no such address is only trimmed and put in lower case.
pub open spec fn normal_mac(s: Seq<char>) -> Seq<char> {
    if hex_chars(s).len() == 12 {
        in_pairs(hex_chars(s))
    } else {
        ascii_lower(trimmed(s))
    }
}

/// The one way in which a hardware address is written.
pub fn normalize_mac(input: &str) -> (r: String)
    ensures
        r@ == normal_mac(input@),
{
    let v: Vec<char> = to_chars(input);
    let mut hex: Vec<char> = Vec::new();
    let mut i: usize = 0;
    while i < v.len()
        invariant
            i <= v@.len(),
            hex@ == hex_chars(v@.take(i as int)),
        decreases v@.len() - i,
    {
        let c: char = v[i];
        assert(v@.take(i + 1).drop_last() == v@.take(i as int));
        assert(v@.take(i + 1).last() == c);
        if ('0' <= c && c <= '9') || ('a' <= c && c <= 'f') || ('A' <= c && c <= 'F') {
            hex.push(to_lower_char(c));
        }
        i += 1;
    }
    assert(v@.take(i as int) == v@);
    if hex.len() != 12 {
        let t: String = trim(input);
        return to_ascii_lower(t.as_str());
    }
    let mut out: Vec<char> = Vec::new();
    let mut k: usize = 0;
    while k < 12
        invariant
            k <= 12,
            hex@.len() == 12,
            out@.len() == (if k == 0 {
                0
            } else {
                k + (k - 1) / 2
            }),
            forall|j: int| 0 <= j < out@.len() ==> #[trigger] out@[j] == in_pairs(hex@)[j],
        decreases 12 - k,
    {
        if k > 0 && k % 2 == 0 {
            out.push(':');
        }
        out.push(hex[k]);
        k += 1;
    }
    assert(out@ =~= in_pairs(hex@));
    from_chars(&out)
}

proof fn hex_chars_is_lower(s: Seq<char>)
    ensures
        hex_chars(s).len() <= s.len(),
        forall|i: int|
            0 <= i < hex_chars(s).len() ==> is_hex(#[trigger] hex_chars(s)[i]) && lower_char(
                hex_chars(s)[i],
            ) == hex_chars(s)[i],
    decreases s.len(),
{
    if s.len() > 0 {
        hex_chars_is_lower(s.drop_last());
    }
}

proof fn hex_chars_push(s: Seq<char>, c: char)
    ensures
        hex_chars(s.push(c)) == if is_hex(c) {
            hex_chars(s).push(lower_char(c))
        } else {
            hex_chars(s)
        },
{
    assert(s.push(c).drop_last() == s);
}

proof fn hex_chars_of_pairs(h: Seq<char>, n: int)
    requires
        h.len() == 12,
        forall|i: int|
            0 <= i < 12 ==> is_hex(#[trigger] h[i]) && lower_char(h[i]) == h[i],
        0 <= n <= 17,
    ensures
        hex_chars(in_pairs(h).take(n)) == h.take(n - n / 3),
    decreases n,
{
    let p = in_pairs(h);
    if n == 0 {
        assert(p.take(0) =~= Seq::<char>::empty());
        assert(h.take(0) =~= Seq::<char>::empty());
    } else {
        hex_chars_of_pairs(h, n - 1);
        assert(p.take(n) =~= p.take(n - 1).push(p[n - 1]));
        hex_chars_push(p.take(n - 1), p[n - 1]);
        let m = n - 1;
        if m % 3 == 2 {
            assert(n - n / 3 == m - m / 3);
            assert(!is_hex(':'));
        } else {
            assert(n - n / 3 == m - m / 3 + 1);
            assert(p[m] == h[m - m / 3]);
            assert(h.take(n - n / 3) =~= h.take(m - m / 3).push(h[m - m / 3]));
        }
    }
}

proof fn hex_chars_of_lower(s: Seq<char>)
    ensures
        hex_chars(ascii_lower(s)) == hex_chars(s),
    decreases s.len(),
{
    let l = ascii_lower(s);
    if s.len() > 0 {
        hex_chars_of_lower(s.drop_last());
        assert(l.drop_last() =~= ascii_lower(s.drop_last()));
        assert(l.last() == lower_char(s.last()));
        assert(is_hex(lower_char(s.last())) == is_hex(s.last()));
        assert(lower_char(lower_char(s.last())) == lower_char(s.last()));
    } else {
        assert(l =~= s);
    }
}

proof fn hex_chars_drop_first(s: Seq<char>)
    requires
        s.len() > 0,
        !is_hex(s[0]),
    ensures
        hex_chars(s.skip(1)) == hex_chars(s),
    decreases s.len(),
{
    if s.len() == 1 {
        assert(s.skip(1) =~= Seq::<char>::empty());
        assert(s.drop_last() =~= Seq::<char>::empty());
    } else {
        hex_chars_drop_first(s.drop_last());
        assert(s.skip(1).drop_last() =~= s.drop_last().skip(1));
        assert(s.skip(1).last() == s.last());
    }
}

proof fn hex_chars_trimmed_start(s: Seq<char>)
    ensures
        hex_chars(trimmed_start(s)) == hex_chars(s),
    decreases s.len(),
{
    if s.len() > 0 && is_space(s[0]) {
        hex_chars_drop_first(s);
        assert(s.drop_first() =~= s.skip(1));
        hex_chars_trimmed_start(s.drop_first());
    }
}

proof fn hex_chars_trimmed_end(s: Seq<char>)
    ensures
        hex_chars(trimmed_end(s)) == hex_chars(s),
    decreases s.len(),
{
    if s.len() > 0 && is_space(s.last()) {
        hex_chars_trimmed_end(s.drop_last());
    }
}

proof fn trimmed_start_lower(s: Seq<char>)
    ensures
        trimmed_start(ascii_lower(s)) == ascii_lower(trimmed_start(s)),
    decreases s.len(),
{
    let l = ascii_lower(s);
    if s.len() > 0 {
        assert(is_space(l[0]) == is_space(s[0]));
        if is_space(s[0]) {
            assert(l.drop_first() =~= ascii_lower(s.drop_first()));
            trimmed_start_lower(s.drop_first());
        }
    } else {
        assert(l =~= s);
    }
}

proof fn trimmed_end_lower(s: Seq<char>)
    ensures
        trimmed_end(ascii_lower(s)) == ascii_lower(trimmed_end(s)),
    decreases s.len(),
{
    let l = ascii_lower(s);
    if s.len() > 0 {
        assert(is_space(l.last()) == is_space(s.last()));
        if is_space(s.last()) {
            assert(l.drop_last() =~= ascii_lower(s.drop_last()));
            trimmed_end_lower(s.drop_last());
        }
    } else {
        assert(l =~= s);
    }
}

/// An address that is written in the one way already is left as it is.
pub proof fn normal_mac_settles(s: Seq<char>)
    ensures
        normal_mac(normal_mac(s)) == normal_mac(s),
{
    let h = hex_chars(s);
    hex_chars_is_lower(s);
    if h.len() == 12 {
        hex_chars_of_pairs(h, 17);
        assert(in_pairs(h).take(17) =~= in_pairs(h));
        assert(h.take(12) =~= h);
    } else {
        let t = trimmed(s);
        hex_chars_trimmed_start(s);
        hex_chars_trimmed_end(trimmed_start(s));
        hex_chars_of_lower(t);
        trimmed_twice(s);
        trimmed_start_lower(t);
        trimmed_end_lower(trimmed_start(t));
        assert(ascii_lower(ascii_lower(t)) =~= ascii_lower(t));
    }
}

/// Two ways to write an address with the same twelve digits are told to be the same,
/// whatever stands between the digits and whichever case they are in.
pub proof fn same_digits_same_mac(a: Seq<char>, b: Seq<char>)
    requires
        hex_chars(a).len() == 12,
    ensures
        hex_chars(a) == hex_chars(b) <==> (hex_chars(b).len() == 12 && normal_mac(a) == normal_mac(
            b,
        )),
{
    if hex_chars(b).len() == 12 && normal_mac(a) == normal_mac(b) {
        hex_chars_is_lower(a);
        hex_chars_is_lower(b);
        hex_chars_of_pairs(hex_chars(a), 17);
        hex_chars_of_pairs(hex_chars(b), 17);
        assert(hex_chars(a).take(12) =~= hex_chars(a));
        assert(hex_chars(b).take(12) =~= hex_chars(b));
    }
}

// ---------------------------------------------------------------------------
// IP addresses
// ---------------------------------------------------------------------------

/// The parts that are numbers of eight bits.
pub open spec fn octets(parts: Seq<Seq<char>>) -> Seq<u8>
    decreases parts.len(),
{
    if parts.len() == 0 {
        Seq::empty()
    } else {
        match parsed(parts.last(), 255) {
            Some(n) => octets(parts.drop_last()).push(n as u8),
            None => octets(parts.drop_last()),
        }
    }
}

/// An address of a local network, of this machine, of a group or of none. What is not
/// four numbers counts as one too.
pub open spec fn is_unnamed(ip: Seq<char>) -> bool {
    let o = octets(pieces(ip, '.'));
    o.len() != 4 || {
        ||| o[0] == 10
        ||| o[0] == 172 && 16 <= o[1] <= 31
        ||| o[0] == 192 && o[1] == 168
        ||| o[0] == 127
        ||| o[0] == 0
        ||| o[0] == 169 && o[1] == 254
        ||| o[0] >= 224
    }
}

/// Whether no name is looked up for an address.
pub fn is_private_or_loopback(ip: &str) -> (r: bool)
    ensures
        r == is_unnamed(ip@),
{
    let parts: Vec<String> = split(ip, '.');
    let mut o: Vec<u8> = Vec::new();
    let mut i: usize = 0;
    let ghost t = texts(parts@);
    while i < parts.len()
        invariant
            i <= parts@.len(),
            t == texts(parts@),
            o@ == octets(t.take(i as int)),
        decreases parts@.len() - i,
    {
        assert(t.take(i + 1).drop_last() == t.take(i as int));
        assert(t.take(i + 1).last() == parts@[i as int]@);
        if let Some(n) = parse_up_to(parts[i].as_str(), 255) {
            o.push(n as u8);
        }
        i += 1;
    }
    assert(t.take(i as int) == t);
    if o.len() != 4 {
        return true;
    }
    let a: u8 = o[0];
    let b: u8 = o[1];
    a == 10 || (a == 172 && 16 <= b && b <= 31) || (a == 192 && b == 168) || a == 127 || a == 0
        || (a == 169 && b == 254) || a >= 224
}

} // verus!
