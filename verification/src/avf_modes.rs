//! The native modes of AVFoundation devices, and which of them to capture with.
//!
//! Frame rates are kept in millionths of a frame per second, the precision that
//! FFmpeg prints them in.
use vstd::prelude::*;
use vstd::string::*;

use crate::decklink::number_or;
use crate::number::{all_digits, decimal, digits_value, is_digit, parse_u32, show};
use crate::patterns::{captures, group_text, pattern_captures, Captured};
use crate::scan::{lines, lines_of, position};
use crate::text::{texts, to_chars};

verus! {

/// A native mode: a size and a range of frame rates.
#[derive(Clone, Copy, Debug, PartialEq, Eq, Structural)]
pub struct AvfMode {
    pub width: u32,
    pub height: u32,
    pub fps_lo: u64,
    pub fps_hi: u64,
}

/// The pattern for a mode in the list of those a device supports.
pub open spec fn avf_mode_line() -> Seq<char> {
    r"(\d+)x(\d+)@\[([\d.]+)\s+([\d.]+)\]fps"@
}

/// The digits of a fraction, cut or filled up with zeros to six.
pub open spec fn six_digits(s: Seq<char>) -> Seq<char> {
    Seq::new(
        6,
        |i: int|
            if i < s.len() {
                s[i]
            } else {
                '0'
            },
    )
}

/// A text with at most one dot is a decimal number: digits before or after it.
pub open spec fn is_decimal(s: Seq<char>) -> bool {
    let i = position(s, '.') as int;
    let whole = s.take(i);
    let fraction = if i < s.len() {
        s.skip(i + 1)
    } else {
        Seq::empty()
    };
    all_digits(whole) && all_digits(fraction) && whole.len() + fraction.len() > 0
}

/// The millionths that a decimal number stands for; zero if the text is none. More
/// than a machine word holds counts as the most it holds.
pub open spec fn millionths(s: Seq<char>) -> u64 {
    let i = position(s, '.') as int;
    let fraction = if i < s.len() {
        s.skip(i + 1)
    } else {
        Seq::empty()
    };
    if is_decimal(s) {
        let n = digits_value(s.take(i) + six_digits(fraction));
        if n <= u64::MAX {
            n as u64
        } else {
            u64::MAX
        }
    } else {
        0
    }
}

proof fn digits_value_push(s: Seq<char>, c: char)
    ensures
        digits_value(s.push(c)) == digits_value(s) * 10 + (c as int - 48) as nat,
{
    assert(s.push(c).drop_last() == s);
}

fn add_digit(n: u64, c: char) -> (r: u64)
    requires
        is_digit(c),
    ensures
        r == (if n * 10 + (c as int - 48) <= u64::MAX {
            (n * 10 + (c as int - 48)) as u64
        } else {
            u64::MAX
        }),
{
    let k: u64 = (c as u32 - 48) as u64;
    if n > u64::MAX / 10 {
        u64::MAX
    } else if k > u64::MAX - n * 10 {
        u64::MAX
    } else {
        n * 10 + k
    }
}

/// The number that the digits stand for, or the most a machine word holds.
pub open spec fn capped(s: Seq<char>) -> u64 {
    if digits_value(s) <= u64::MAX {
        digits_value(s) as u64
    } else {
        u64::MAX
    }
}

/// The millionths that a decimal number stands for.
pub fn parse_millionths(s: &str) -> (r: u64)
    ensures
        r == millionths(s@),
{
    let v: Vec<char> = to_chars(s);
    assert(v@.skip(0) == s@);
    let dot: usize = crate::scan::find_char(&v, 0, '.');
    let ghost whole = s@.take(dot as int);
    let ghost fraction = if dot < s@.len() {
        s@.skip(dot + 1)
    } else {
        Seq::empty()
    };
    let mut i: usize = 0;
    let mut ok: bool = true;
    while i < v.len()
        invariant
            i <= v@.len(),
            dot <= v@.len(),
            ok == forall|j: int| 0 <= j < i && j != dot ==> is_digit(#[trigger] v@[j]),
        decreases v@.len() - i,
    {
        if i != dot {
            let c: char = v[i];
            if !('0' <= c && c <= '9') {
                assert(!is_digit(v@[i as int]));
                ok = false;
            }
        }
        i += 1;
    }
    proof {
        if ok {
            assert forall|j: int| 0 <= j < whole.len() implies is_digit(#[trigger] whole[j]) by {
                assert(is_digit(v@[j]));
            }
            assert forall|j: int| 0 <= j < fraction.len() implies is_digit(
                #[trigger] fraction[j],
            ) by {
                assert(is_digit(v@[dot + 1 + j]));
            }
        } else {
            let j = choose|j: int| 0 <= j < v@.len() && j != dot && !is_digit(#[trigger] v@[j]);
            if j < dot {
                assert(whole[j] == v@[j]);
            } else {
                assert(fraction[j - dot - 1] == v@[j]);
            }
        }
    }
    let digits: usize = if dot < v.len() {
        v.len() - 1
    } else {
        v.len()
    };
    if !ok || digits == 0 {
        return 0;
    }
    let ghost six = six_digits(fraction);
    let ghost full = whole + six;
    let mut n: u64 = 0;
    let mut k: usize = 0;
    assert(full.take(0).len() == 0);
    while k < dot
        invariant
            k <= dot <= v@.len(),
            v@ == s@,
            whole == s@.take(dot as int),
            full == whole + six,
            all_digits(whole),
            n == capped(full.take(k as int)),
        decreases dot - k,
    {
        assert(full.take(k + 1) == full.take(k as int).push(v@[k as int]));
        assert(is_digit(whole[k as int]));
        proof {
            digits_value_push(full.take(k as int), v@[k as int]);
        }
        n = add_digit(n, v[k]);
        k += 1;
    }
    let mut f: usize = 0;
    while f < 6
        invariant
            f <= 6,
            dot <= v@.len(),
            v@ == s@,
            whole == s@.take(dot as int),
            fraction == (if dot < s@.len() {
                s@.skip(dot + 1)
            } else {
                Seq::empty()
            }),
            six == six_digits(fraction),
            full == whole + six,
            all_digits(fraction),
            n == capped(full.take(dot + f)),
        decreases 6 - f,
    {
        let c: char = if dot < v.len() && f < v.len() - dot - 1 {
            assert(is_digit(fraction[f as int]));
            v[dot + 1 + f]
        } else {
            '0'
        };
        assert(six[f as int] == c);
        assert(full.take(dot + f + 1) == full.take(dot + f).push(c));
        proof {
            digits_value_push(full.take(dot + f), c);
        }
        n = add_digit(n, c);
        f += 1;
    }
    assert(full.take(dot + 6) == full);
    n
}

/// The mode that a match of `avf_mode_line` describes.
pub open spec fn avf_mode(c: Seq<Option<Seq<char>>>) -> AvfMode {
    AvfMode {
        width: number_or(group_text(c, 1), 0),
        height: number_or(group_text(c, 2), 0),
        fps_lo: millionths(group_text(c, 3)),
        fps_hi: millionths(group_text(c, 4)),
    }
}

/// The mode that a match of the pattern for a device's list describes.
pub fn avf_mode_from(caps: &Captured) -> (r: AvfMode)
    ensures
        r == avf_mode(caps@),
{
    let w: String = caps.group(1);
    let h: String = caps.group(2);
    let lo: String = caps.group(3);
    let hi: String = caps.group(4);
    AvfMode {
        width: match parse_u32(w.as_str()) {
            Some(n) => n,
            None => 0,
        },
        height: match parse_u32(h.as_str()) {
            Some(n) => n,
            None => 0,
        },
        fps_lo: parse_millionths(lo.as_str()),
        fps_hi: parse_millionths(hi.as_str()),
    }
}

/// The modes in lines of a device's list, in order.
pub open spec fn supported_modes(lines: Seq<Seq<char>>) -> Seq<AvfMode>
    decreases lines.len(),
{
    if lines.len() == 0 {
        Seq::empty()
    } else {
        let rest = supported_modes(lines.drop_last());
        match pattern_captures(avf_mode_line(), lines.last()) {
            Some(c) => rest.push(avf_mode(c)),
            None => rest,
        }
    }
}

/// The modes in a device's list, in order.
pub fn parse_avf_modes(text: &str) -> (r: Vec<AvfMode>)
    ensures
        r@ == supported_modes(lines_of(text@)),
{
    let all: Vec<String> = lines(text);
    let ghost ls = texts(all@);
    let mut out: Vec<AvfMode> = Vec::new();
    let mut i: usize = 0;
    assert(ls.take(0).len() == 0);
    while i < all.len()
        invariant
            i <= all@.len(),
            ls == texts(all@),
            out@ == supported_modes(ls.take(i as int)),
        decreases all@.len() - i,
    {
        assert(ls.take(i + 1).drop_last() == ls.take(i as int));
        assert(ls.take(i + 1).last() == all@[i as int]@);
        let caps: Option<Captured> = captures(
            r"(\d+)x(\d+)@\[([\d.]+)\s+([\d.]+)\]fps",
            all[i].as_str(),
        );
        if let Some(c) = caps {
            out.push(avf_mode_from(&c));
        }
        i += 1;
    }
    assert(ls.take(i as int) == ls);
    out
}

/// The mode's range of rates covers `want`.
pub open spec fn covers(m: AvfMode, want: u64) -> bool {
    m.fps_lo <= want <= m.fps_hi
}

/// How far two rates are apart.
pub open spec fn gap(a: u64, b: u64) -> u64 {
    if a > b {
        (a - b) as u64
    } else {
        (b - a) as u64
    }
}

/// How far `want` is from the nearer end of the mode's range; nothing if it is
/// covered.
pub open spec fn distance(m: AvfMode, want: u64) -> u64 {
    if covers(m, want) {
        0
    } else if gap(m.fps_lo, want) <= gap(m.fps_hi, want) {
        gap(m.fps_lo, want)
    } else {
        gap(m.fps_hi, want)
    }
}

/// `a` suits better than `b`: it covers the rate and `b` does not, or neither does
/// and it is nearer.
pub open spec fn suits_better(a: AvfMode, b: AvfMode, want: u64) -> bool {
    ||| covers(a, want) && !covers(b, want)
    ||| !covers(a, want) && !covers(b, want) && distance(a, want) < distance(b, want)
}

/// Some mode has the size.
pub open spec fn has_size(modes: Seq<AvfMode>, w: u32, h: u32) -> bool {
    exists|i: int| 0 <= i < modes.len() && (#[trigger] modes[i]).width == w && modes[i].height == h
}

/// The mode that suits best of those of the size, or of all if `any_size`; of
/// several, the first.
pub open spec fn best_mode(
    modes: Seq<AvfMode>,
    any_size: bool,
    w: u32,
    h: u32,
    want: u64,
) -> Option<AvfMode>
    decreases modes.len(),
{
    if modes.len() == 0 {
        None
    } else {
        let last = modes.last();
        let before = best_mode(modes.drop_last(), any_size, w, h, want);
        if !any_size && !(last.width == w && last.height == h) {
            before
        } else {
            match before {
                Some(b) => if suits_better(last, b, want) {
                    Some(last)
                } else {
                    Some(b)
                },
                None => Some(last),
            }
        }
    }
}

/// The size and rate to capture with: those of the best mode, with the wanted rate
/// if it is covered and the highest otherwise. Without modes, what is wanted.
pub open spec fn capture_mode(modes: Seq<AvfMode>, w: u32, h: u32, want: u64) -> (u32, u32, u64) {
    match best_mode(modes, !has_size(modes, w, h), w, h, want) {
        Some(m) => (
            m.width,
            m.height,
            if covers(m, want) {
                want
            } else {
                m.fps_hi
            },
        ),
        None => (w, h, want),
    }
}

fn gap_exec(a: u64, b: u64) -> (r: u64)
    ensures
        r == gap(a, b),
{
    if a > b {
        a - b
    } else {
        b - a
    }
}

fn covers_exec(m: AvfMode, want: u64) -> (r: bool)
    ensures
        r == covers(m, want),
{
    m.fps_lo <= want && want <= m.fps_hi
}

fn suits_better_exec(a: AvfMode, b: AvfMode, want: u64) -> (r: bool)
    ensures
        r == suits_better(a, b, want),
{
    let ca: bool = covers_exec(a, want);
    let cb: bool = covers_exec(b, want);
    if ca || cb {
        return ca && !cb;
    }
    let la: u64 = gap_exec(a.fps_lo, want);
    let ha: u64 = gap_exec(a.fps_hi, want);
    let lb: u64 = gap_exec(b.fps_lo, want);
    let hb: u64 = gap_exec(b.fps_hi, want);
    let da: u64 = if la <= ha {
        la
    } else {
        ha
    };
    let db: u64 = if lb <= hb {
        lb
    } else {
        hb
    };
    da < db
}

/// The size and rate to capture with. Modes of the wanted size go first, then
/// those that cover the wanted rate, then the nearest; where the rate is not
/// covered, the mode's highest is taken.
pub fn pick_best_avf_mode(modes: &Vec<AvfMode>, want_w: u32, want_h: u32, want_fps: u64) -> (r: (
    u32,
    u32,
    u64,
))
    ensures
        r == capture_mode(modes@, want_w, want_h, want_fps),
{
    let mut sized: bool = false;
    let mut i: usize = 0;
    while i < modes.len()
        invariant
            i <= modes@.len(),
            sized == exists|j: int|
                0 <= j < i && (#[trigger] modes@[j]).width == want_w && modes@[j].height == want_h,
        decreases modes@.len() - i,
    {
        if modes[i].width == want_w && modes[i].height == want_h {
            assert(modes@[i as int].width == want_w);
            sized = true;
        }
        i += 1;
    }
    assert(sized == has_size(modes@, want_w, want_h));
    let mut best: Option<AvfMode> = None;
    let mut k: usize = 0;
    assert(modes@.take(0).len() == 0);
    while k < modes.len()
        invariant
            k <= modes@.len(),
            best == best_mode(modes@.take(k as int), !sized, want_w, want_h, want_fps),
        decreases modes@.len() - k,
    {
        let m: AvfMode = modes[k];
        assert(modes@.take(k + 1).drop_last() == modes@.take(k as int));
        assert(modes@.take(k + 1).last() == m);
        if !sized || (m.width == want_w && m.height == want_h) {
            best = match best {
                Some(b) => if suits_better_exec(m, b, want_fps) {
                    Some(m)
                } else {
                    Some(b)
                },
                None => Some(m),
            };
        }
        k += 1;
    }
    assert(modes@.take(k as int) == modes@);
    match best {
        Some(m) => (
            m.width,
            m.height,
            if covers_exec(m, want_fps) {
                want_fps
            } else {
                m.fps_hi
            },
        ),
        None => (want_w, want_h, want_fps),
    }
}

/// If a mode of the wanted size covers the wanted rate, exactly that is captured.
pub proof fn covered_modes_are_exact(modes: Seq<AvfMode>, w: u32, h: u32, want: u64, i: int)
    requires
        0 <= i < modes.len(),
        modes[i].width == w,
        modes[i].height == h,
        covers(modes[i], want),
    ensures
        capture_mode(modes, w, h, want) == (w, h, want),
{
    assert(has_size(modes, w, h));
    best_covers(modes, w, h, want, i);
}

proof fn best_covers(modes: Seq<AvfMode>, w: u32, h: u32, want: u64, i: int)
    requires
        0 <= i < modes.len(),
        modes[i].width == w,
        modes[i].height == h,
        covers(modes[i], want),
    ensures
        best_mode(modes, false, w, h, want) matches Some(m) && m.width == w && m.height == h
            && covers(m, want),
    decreases modes.len(),
{
    best_is_sized(modes.drop_last(), w, h, want);
    if i < modes.len() - 1 {
        best_covers(modes.drop_last(), w, h, want, i);
    }
}

proof fn best_is_sized(modes: Seq<AvfMode>, w: u32, h: u32, want: u64)
    ensures
        best_mode(modes, false, w, h, want) matches Some(m) ==> m.width == w && m.height == h,
    decreases modes.len(),
{
    if modes.len() > 0 {
        best_is_sized(modes.drop_last(), w, h, want);
    }
}

/// A rate as FFmpeg takes it: as a whole number if it is within a thousandth of
/// one, and with three decimals otherwise.
pub open spec fn rate_text(fps: u64) -> Seq<char> {
    let off = fps as nat % 1_000_000;
    if off < 1_000 || off > 999_000 {
        decimal(fps as nat / 1_000_000)
    } else {
        let t = (fps as nat + 500) / 1_000;
        decimal(t / 1_000) + "."@ + decimal(1_000 + t % 1_000).skip(1)
    }
}

/// A rate as FFmpeg takes it.
pub fn format_fps(fps: u64) -> (r: String)
    ensures
        r@ == rate_text(fps),
{
    let off: u64 = fps % 1_000_000;
    if off < 1_000 || off > 999_000 {
        return show(fps / 1_000_000);
    }
    let whole_thousandths: u64 = fps / 1_000;
    let t: u64 = if fps % 1_000 >= 500 {
        whole_thousandths + 1
    } else {
        whole_thousandths
    };
    assert(t == (fps as nat + 500) / 1_000);
    let mut out: String = show(t / 1_000);
    out.push_str(".");
    let padded: String = show(1_000 + t % 1_000);
    let v: Vec<char> = to_chars(padded.as_str());
    proof {
        crate::number::decimal_is_digits((1_000 + t % 1_000) as nat);
    }
    let tail: String = crate::text::slice_text(&v, 1, v.len());
    assert(tail@ == padded@.skip(1));
    out.push_str(tail.as_str());
    out
}

} // verus!
