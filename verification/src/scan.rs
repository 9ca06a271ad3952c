//! Searching, trimming and splitting texts.
use vstd::prelude::*;
use vstd::string::*;

use crate::text::{slice_text, texts, to_chars};

verus! {

// ---------------------------------------------------------------------------
// Whitespace
// ---------------------------------------------------------------------------

/// The characters with the Unicode property `White_Space`.
pub open spec fn is_space(c: char) -> bool {
    let n = c as u32;
    ||| 0x9 <= n <= 0xD
    ||| n == 0x20
    ||| n == 0x85
    ||| n == 0xA0
    ||| n == 0x1680
    ||| 0x2000 <= n <= 0x200A
    ||| n == 0x2028
    ||| n == 0x2029
    ||| n == 0x202F
    ||| n == 0x205F
    ||| n == 0x3000
}

/// Whether `c` is whitespace.
pub fn space(c: char) -> (r: bool)
    ensures
        r == is_space(c),
{
    let n: u32 = c as u32;
    (0x9 <= n && n <= 0xD) || n == 0x20 || n == 0x85 || n == 0xA0 || n == 0x1680 || (0x2000 <= n
        && n <= 0x200A) || n == 0x2028 || n == 0x2029 || n == 0x202F || n == 0x205F || n == 0x3000
}

/// `s` without the whitespace at its start.
pub open spec fn trimmed_start(s: Seq<char>) -> Seq<char>
    decreases s.len(),
{
    if s.len() > 0 && is_space(s[0]) {
        trimmed_start(s.drop_first())
    } else {
        s
    }
}

/// `s` without the whitespace at its end.
pub open spec fn trimmed_end(s: Seq<char>) -> Seq<char>
    decreases s.len(),
{
    if s.len() > 0 && is_space(s.last()) {
        trimmed_end(s.drop_last())
    } else {
        s
    }
}

/// `s` without the whitespace at either end.
pub open spec fn trimmed(s: Seq<char>) -> Seq<char> {
    trimmed_end(trimmed_start(s))
}

/// `s` holds nothing but whitespace.
pub open spec fn is_blank(s: Seq<char>) -> bool {
    trimmed(s).len() == 0
}

/// The text `v[from..to]` without the whitespace at either end.
pub fn trim_range(v: &Vec<char>, from: usize, to: usize) -> (r: String)
    requires
        from <= to <= v@.len(),
    ensures
        r@ == trimmed(v@.subrange(from as int, to as int)),
{
    let ghost whole = v@.subrange(from as int, to as int);
    let mut a: usize = from;
    assert(v@.subrange(a as int, to as int) == whole);
    while a < to && space(v[a])
        invariant
            from <= a <= to <= v@.len(),
            trimmed_start(v@.subrange(a as int, to as int)) == trimmed_start(whole),
        decreases to - a,
    {
        assert(v@.subrange(a as int, to as int).drop_first() == v@.subrange(a + 1, to as int));
        a += 1;
    }
    let ghost mid = v@.subrange(a as int, to as int);
    assert(trimmed_start(mid) == mid);
    let mut b: usize = to;
    while b > a && space(v[b - 1])
        invariant
            from <= a <= b <= to <= v@.len(),
            trimmed_end(v@.subrange(a as int, b as int)) == trimmed_end(mid),
        decreases b,
    {
        assert(v@.subrange(a as int, b as int).drop_last() == v@.subrange(a as int, b - 1));
        b -= 1;
    }
    assert(trimmed_end(v@.subrange(a as int, b as int)) == v@.subrange(a as int, b as int));
    slice_text(v, a, b)
}

/// `s` without the whitespace at either end.
pub fn trim(s: &str) -> (r: String)
    ensures
        r@ == trimmed(s@),
{
    let v: Vec<char> = to_chars(s);
    assert(v@.subrange(0, v@.len() as int) == s@);
    trim_range(&v, 0, v.len())
}

/// Whether `s` holds nothing but whitespace.
pub fn blank(s: &str) -> (r: bool)
    ensures
        r == is_blank(s@),
{
    let t: String = trim(s);
    t.as_str().is_empty()
}

/// Trimming a trimmed text changes nothing.
pub proof fn trimmed_twice(s: Seq<char>)
    ensures
        trimmed(trimmed(s)) == trimmed(s),
{
    let a = trimmed_start(s);
    trimmed_start_settles(s);
    trimmed_end_settles(a);
    let b = trimmed_end(a);
    trimmed_end_is_prefix(a);
    if b.len() > 0 {
        assert(b[0] == a[0]);
    }
}

proof fn trimmed_start_settles(s: Seq<char>)
    ensures
        trimmed_start(s).len() > 0 ==> !is_space(trimmed_start(s)[0]),
    decreases s.len(),
{
    if s.len() > 0 && is_space(s[0]) {
        trimmed_start_settles(s.drop_first());
    }
}

proof fn trimmed_end_settles(s: Seq<char>)
    ensures
        trimmed_end(s).len() > 0 ==> !is_space(trimmed_end(s).last()),
        trimmed_end(trimmed_end(s)) == trimmed_end(s),
    decreases s.len(),
{
    if s.len() > 0 && is_space(s.last()) {
        trimmed_end_settles(s.drop_last());
    }
}

proof fn trimmed_end_is_prefix(s: Seq<char>)
    ensures
        trimmed_end(s).len() <= s.len(),
        trimmed_end(s) == s.take(trimmed_end(s).len() as int),
    decreases s.len(),
{
    if s.len() > 0 && is_space(s.last()) {
        trimmed_end_is_prefix(s.drop_last());
        let n = trimmed_end(s).len() as int;
        assert(s.drop_last().take(n) == s.take(n));
    } else {
        assert(s.take(s.len() as int) == s);
    }
}

/// A text that trimming does not change neither begins nor ends in whitespace.
pub proof fn trimmed_text_ends(s: Seq<char>)
    requires
        trimmed(s) == s,
        s.len() > 0,
    ensures
        !is_space(s[0]),
        !is_space(s.last()),
{
    let a = trimmed_start(s);
    trimmed_start_shrinks(s);
    trimmed_end_is_prefix(a);
    trimmed_end_settles(a);
}

proof fn trimmed_start_shrinks(s: Seq<char>)
    ensures
        trimmed_start(s).len() <= s.len(),
        s.len() > 0 && is_space(s[0]) ==> trimmed_start(s).len() < s.len(),
    decreases s.len(),
{
    if s.len() > 0 && is_space(s[0]) {
        trimmed_start_shrinks(s.drop_first());
    }
}

/// A text that holds something else than whitespace is not blank.
pub proof fn not_blank(s: Seq<char>, i: int)
    requires
        0 <= i < s.len(),
        !is_space(s[i]),
    ensures
        !is_blank(s),
    decreases s.len(),
{
    if is_space(s[0]) {
        assert(s.drop_first()[i - 1] == s[i]);
        not_blank(s.drop_first(), i - 1);
    } else {
        trimmed_end_keeps_first(s);
    }
}

proof fn trimmed_end_keeps_first(s: Seq<char>)
    requires
        s.len() > 0,
        !is_space(s[0]),
    ensures
        trimmed_end(s).len() > 0,
    decreases s.len(),
{
    if is_space(s.last()) {
        assert(s.len() > 1);
        assert(s.drop_last()[0] == s[0]);
        trimmed_end_keeps_first(s.drop_last());
    }
}

// ---------------------------------------------------------------------------
// Finding characters and texts
// ---------------------------------------------------------------------------

/// Where `c` first stands in `s`; the length of `s` if it stands nowhere.
pub open spec fn position(s: Seq<char>, c: char) -> nat
    decreases s.len(),
{
    if s.len() == 0 || s[0] == c {
        0
    } else {
        1 + position(s.drop_first(), c)
    }
}

/// The first place where `c` stands is the one before which it does not.
pub proof fn position_is(s: Seq<char>, c: char, i: int)
    requires
        0 <= i <= s.len(),
        forall|j: int| 0 <= j < i ==> s[j] != c,
        i < s.len() ==> s[i] == c,
    ensures
        position(s, c) == i,
    decreases s.len(),
{
    if i > 0 {
        assert(s[0] != c);
        position_is(s.drop_first(), c, i - 1);
    }
}

/// `position` is at most the length, and is the first place that holds `c`.
pub proof fn position_facts(s: Seq<char>, c: char)
    ensures
        position(s, c) <= s.len(),
        position(s, c) < s.len() ==> s[position(s, c) as int] == c,
        forall|j: int| 0 <= j < position(s, c) ==> s[j] != c,
    decreases s.len(),
{
    if s.len() > 0 && s[0] != c {
        let t = s.drop_first();
        position_facts(t, c);
        assert forall|j: int| 0 <= j < position(s, c) implies s[j] != c by {
            if j > 0 {
                assert(t[j - 1] == s[j]);
            }
        }
    }
}

/// Where `c` first stands in `v` at or after `from`; the length of `v` if it
/// stands nowhere there.
pub fn find_char(v: &Vec<char>, from: usize, c: char) -> (r: usize)
    requires
        from <= v@.len(),
    ensures
        from <= r <= v@.len(),
        r == from + position(v@.skip(from as int), c),
        r < v@.len() ==> v@[r as int] == c,
        forall|j: int| from <= j < r ==> v@[j] != c,
{
    let mut i: usize = from;
    while i < v.len() && v[i] != c
        invariant
            from <= i <= v@.len(),
            forall|j: int| from <= j < i ==> v@[j] != c,
        decreases v@.len() - i,
    {
        i += 1;
    }
    proof {
        let t = v@.skip(from as int);
        position_is(t, c, i - from);
    }
    i
}

/// The text `p` stands in `s` at place `i`.
pub open spec fn matches_at(s: Seq<char>, p: Seq<char>, i: int) -> bool {
    0 <= i && i + p.len() <= s.len() && s.subrange(i, i + p.len()) == p
}

/// The text `p` stands somewhere in `s`.
pub open spec fn holds(s: Seq<char>, p: Seq<char>) -> bool {
    exists|i: int| #[trigger] matches_at(s, p, i)
}

/// The first place at or after `i` where `p` stands in `s`, if there is one.
pub open spec fn found_from(s: Seq<char>, p: Seq<char>, i: int) -> Option<int>
    decreases s.len() + 1 - i,
{
    if i + p.len() > s.len() {
        None
    } else if matches_at(s, p, i) {
        Some(i)
    } else {
        found_from(s, p, i + 1)
    }
}

/// Whether `p` stands in `v` at place `i`.
pub fn text_at(v: &Vec<char>, p: &Vec<char>, i: usize) -> (r: bool)
    requires
        i <= v@.len(),
    ensures
        r == matches_at(v@, p@, i as int),
{
    if p.len() > v.len() - i {
        return false;
    }
    let mut k: usize = 0;
    while k < p.len()
        invariant
            i + p@.len() <= v@.len(),
            v@.len() == v.len(),
            k <= p@.len(),
            forall|j: int| 0 <= j < k ==> v@[i + j] == p@[j],
        decreases p@.len() - k,
    {
        if v[i + k] != p[k] {
            assert(v@.subrange(i as int, i + p@.len())[k as int] != p@[k as int]);
            return false;
        }
        k += 1;
    }
    assert(v@.subrange(i as int, i + p@.len()) == p@);
    true
}

/// The first place at or after `from` where `p` stands in `v`.
pub fn find_text(v: &Vec<char>, p: &Vec<char>, from: usize) -> (r: Option<usize>)
    requires
        from <= v@.len(),
    ensures
        r is Some <==> found_from(v@, p@, from as int) is Some,
        r matches Some(i) ==> found_from(v@, p@, from as int) == Some(i as int) && from <= i
            && matches_at(v@, p@, i as int),
        r is None ==> forall|j: int| from <= j ==> !#[trigger] matches_at(v@, p@, j),
{
    let mut i: usize = from;
    while p.len() <= v.len() - i
        invariant
            from <= i <= v@.len(),
            found_from(v@, p@, i as int) == found_from(v@, p@, from as int),
            forall|j: int| from <= j < i ==> !#[trigger] matches_at(v@, p@, j),
        decreases v@.len() - i,
    {
        if text_at(v, p, i) {
            return Some(i);
        }
        if i == v.len() {
            assert(p@.len() == 0);
            assert(v@.subrange(i as int, i + p@.len()) == p@);
            return None;
        }
        i += 1;
    }
    None
}

/// Whether `p` stands somewhere in `s`.
pub fn contains(s: &str, p: &str) -> (r: bool)
    ensures
        r == holds(s@, p@),
{
    let v: Vec<char> = to_chars(s);
    let w: Vec<char> = to_chars(p);
    let r: Option<usize> = find_text(&v, &w, 0);
    match r {
        Some(i) => {
            assert(matches_at(s@, p@, i as int));
            true
        },
        None => {
            assert forall|j: int| !#[trigger] matches_at(s@, p@, j) by {
                if 0 <= j {
                    assert(!matches_at(v@, w@, j));
                }
            }
            false
        },
    }
}

/// `p` stands at the start of `s`.
pub open spec fn begins(s: Seq<char>, p: Seq<char>) -> bool {
    matches_at(s, p, 0)
}

/// `p` stands at the end of `s`.
pub open spec fn finishes(s: Seq<char>, p: Seq<char>) -> bool {
    matches_at(s, p, s.len() - p.len())
}

/// Whether `s` starts with `p`.
pub fn starts_with(s: &str, p: &str) -> (r: bool)
    ensures
        r == begins(s@, p@),
{
    let v: Vec<char> = to_chars(s);
    let w: Vec<char> = to_chars(p);
    text_at(&v, &w, 0)
}

/// Whether `s` ends with `p`.
pub fn ends_with(s: &str, p: &str) -> (r: bool)
    ensures
        r == finishes(s@, p@),
{
    let v: Vec<char> = to_chars(s);
    let w: Vec<char> = to_chars(p);
    if w.len() > v.len() {
        return false;
    }
    text_at(&v, &w, v.len() - w.len())
}

/// What follows `p` at the start of `s`, if `s` starts with `p`.
pub fn strip_prefix(s: &str, p: &str) -> (r: Option<String>)
    ensures
        r is Some <==> begins(s@, p@),
        r matches Some(t) ==> t@ == s@.skip(p@.len() as int),
{
    let v: Vec<char> = to_chars(s);
    let w: Vec<char> = to_chars(p);
    if text_at(&v, &w, 0) {
        assert(v@.subrange(w@.len() as int, v@.len() as int) == s@.skip(p@.len() as int));
        Some(slice_text(&v, w.len(), v.len()))
    } else {
        None
    }
}

/// What precedes `p` at the end of `s`, if `s` ends with `p`.
pub fn strip_suffix(s: &str, p: &str) -> (r: Option<String>)
    ensures
        r is Some <==> finishes(s@, p@),
        r matches Some(t) ==> t@ == s@.take(s@.len() - p@.len()),
{
    let v: Vec<char> = to_chars(s);
    let w: Vec<char> = to_chars(p);
    if w.len() > v.len() {
        return None;
    }
    if text_at(&v, &w, v.len() - w.len()) {
        assert(v@.subrange(0, v@.len() - w@.len()) == s@.take(s@.len() - p@.len()));
        Some(slice_text(&v, 0, v.len() - w.len()))
    } else {
        None
    }
}

/// The last place where `c` stands in `s`, or `-1`.
pub open spec fn last_position(s: Seq<char>, c: char) -> int
    decreases s.len(),
{
    if s.len() == 0 {
        -1
    } else if s.last() == c {
        s.len() - 1
    } else {
        last_position(s.drop_last(), c)
    }
}

/// The last place where `c` stands is the one after which it does not.
pub proof fn last_position_is(s: Seq<char>, c: char, i: int)
    requires
        -1 <= i < s.len(),
        i >= 0 ==> s[i] == c,
        forall|j: int| i < j < s.len() ==> s[j] != c,
    ensures
        last_position(s, c) == i,
    decreases s.len(),
{
    if s.len() > 0 && s.last() != c {
        last_position_is(s.drop_last(), c, i);
    }
}

/// The last place where `c` stands in `v`.
pub fn find_last_char(v: &Vec<char>, c: char) -> (r: Option<usize>)
    ensures
        r matches Some(i) ==> last_position(v@, c) == i && i < v@.len() && v@[i as int] == c,
        r is None ==> last_position(v@, c) == -1,
{
    let mut i: usize = v.len();
    assert(v@.take(i as int) == v@);
    while i > 0
        invariant
            i <= v@.len(),
            last_position(v@.take(i as int), c) == last_position(v@, c),
        decreases i,
    {
        if v[i - 1] == c {
            return Some(i - 1);
        }
        assert(v@.take(i as int).drop_last() == v@.take(i - 1));
        i -= 1;
    }
    None
}

// ---------------------------------------------------------------------------
// Splitting
// ---------------------------------------------------------------------------

/// The pieces of `s` between the places where `c` stands. There is one piece
/// more than there are such places.
pub open spec fn pieces(s: Seq<char>, c: char) -> Seq<Seq<char>>
    decreases s.len(),
{
    let i = position(s, c) as int;
    if 0 <= i < s.len() {
        seq![s.take(i)] + pieces(s.skip(i + 1), c)
    } else {
        seq![s]
    }
}

/// The pieces of `s` between the places where `c` stands.
pub fn split(s: &str, c: char) -> (r: Vec<String>)
    ensures
        texts(r@) == pieces(s@, c),
        r@.len() >= 1,
{
    let v: Vec<char> = to_chars(s);
    let mut out: Vec<String> = Vec::new();
    let mut start: usize = 0;
    assert(v@.skip(0) == s@);
    assert(texts(out@) =~= Seq::<Seq<char>>::empty());
    assert(texts(out@) + pieces(v@.skip(0), c) =~= pieces(s@, c));
    loop
        invariant_except_break
            start <= v@.len(),
            texts(out@) + pieces(v@.skip(start as int), c) == pieces(s@, c),
        ensures
            texts(out@) == pieces(s@, c),
            out@.len() >= 1,
        decreases v@.len() - start,
    {
        let i: usize = find_char(&v, start, c);
        let ghost rest = v@.skip(start as int);
        let ghost before = texts(out@);
        let piece: String = slice_text(&v, start, i);
        assert(piece@ == rest.take(i - start));
        out.push(piece);
        assert(texts(out@) =~= before.push(piece@));
        if i == v.len() {
            assert(rest.take(i - start) == rest);
            assert(texts(out@) =~= pieces(s@, c));
            break;
        }
        assert(rest.skip(i - start + 1) == v@.skip(i + 1));
        assert(texts(out@) + pieces(v@.skip(i + 1), c) =~= before + pieces(rest, c));
        start = i + 1;
    }
    out
}

/// `s` without a carriage return at its end.
pub open spec fn without_cr(s: Seq<char>) -> Seq<char> {
    if s.len() > 0 && s.last() == '\r' {
        s.drop_last()
    } else {
        s
    }
}

/// The lines of `s`. A line ends in a line feed, or in a carriage return and a
/// line feed, which do not belong to it; what follows the last line feed is a
/// line only if it is not empty.
pub open spec fn lines_of(s: Seq<char>) -> Seq<Seq<char>>
    decreases s.len(),
{
    let i = position(s, '\n') as int;
    if 0 <= i < s.len() {
        seq![without_cr(s.take(i))] + lines_of(s.skip(i + 1))
    } else if s.len() == 0 {
        Seq::empty()
    } else {
        seq![s]
    }
}

/// The lines of `s`.
pub fn lines(s: &str) -> (r: Vec<String>)
    ensures
        texts(r@) == lines_of(s@),
{
    let v: Vec<char> = to_chars(s);
    let mut out: Vec<String> = Vec::new();
    let mut start: usize = 0;
    assert(v@.skip(0) == s@);
    assert(texts(out@) =~= Seq::<Seq<char>>::empty());
    assert(texts(out@) + lines_of(v@.skip(0)) =~= lines_of(s@));
    while start < v.len()
        invariant
            start <= v@.len(),
            texts(out@) + lines_of(v@.skip(start as int)) == lines_of(s@),
        decreases v@.len() - start,
    {
        let i: usize = find_char(&v, start, '\n');
        let ghost rest = v@.skip(start as int);
        let ghost before = texts(out@);
        if i == v.len() {
            let piece: String = slice_text(&v, start, i);
            assert(piece@ == rest);
            out.push(piece);
            assert(texts(out@) =~= before.push(piece@));
            assert(v@.skip(i as int).len() == 0);
            assert(lines_of(v@.skip(i as int)) =~= Seq::<Seq<char>>::empty());
            assert(texts(out@) + lines_of(v@.skip(i as int)) =~= before + lines_of(rest));
            start = i;
        } else {
            let stop: usize = if i > start && v[i - 1] == '\r' {
                i - 1
            } else {
                i
            };
            let piece: String = slice_text(&v, start, stop);
            assert(piece@ =~= without_cr(rest.take(i - start)));
            out.push(piece);
            assert(texts(out@) =~= before.push(piece@));
            assert(rest.skip(i - start + 1) == v@.skip(i + 1));
            assert(texts(out@) + lines_of(v@.skip(i + 1)) =~= before + lines_of(rest));
            start = i + 1;
        }
    }
    assert(v@.skip(start as int).len() == 0);
    assert(lines_of(v@.skip(start as int)) =~= Seq::<Seq<char>>::empty());
    assert(texts(out@) =~= lines_of(s@));
    out
}

/// Several lines, each with a line feed after it.
pub open spec fn text_of_lines(lines: Seq<Seq<char>>) -> Seq<char>
    decreases lines.len(),
{
    if lines.len() == 0 {
        Seq::empty()
    } else {
        lines[0] + "\n"@ + text_of_lines(lines.drop_first())
    }
}

/// `s` is a line: no line feed stands in it, nor a carriage return at its end.
pub open spec fn is_line(s: Seq<char>) -> bool {
    &&& forall|i: int| 0 <= i < s.len() ==> #[trigger] s[i] != '\n'
    &&& s.len() > 0 ==> s.last() != '\r'
}

/// Lines that are written one after the other are read back as they were.
pub proof fn lines_read_back(lines: Seq<Seq<char>>)
    requires
        forall|i: int| 0 <= i < lines.len() ==> is_line(#[trigger] lines[i]),
    ensures
        lines_of(text_of_lines(lines)) == lines,
    decreases lines.len(),
{
    if lines.len() > 0 {
        reveal_strlit("\n");
        let first = lines[0];
        let rest = lines.drop_first();
        let t = text_of_lines(lines);
        assert(is_line(first));
        assert forall|i: int| 0 <= i < rest.len() implies is_line(#[trigger] rest[i]) by {
            assert(rest[i] == lines[i + 1]);
        }
        lines_read_back(rest);
        let n = first.len() as int;
        assert forall|j: int| 0 <= j < n implies t[j] != '\n' by {
            assert(t[j] == first[j]);
        }
        assert(t[n] == '\n');
        position_is(t, '\n', n);
        assert(t.take(n) =~= first);
        assert(t.skip(n + 1) =~= text_of_lines(rest));
        assert(without_cr(first) == first);
        assert(seq![first] + rest =~= lines);
    } else {
        assert(lines_of(text_of_lines(lines)) =~= lines);
    }
}

/// The text of two lists of lines is that of the first followed by that of the
/// second.
pub proof fn text_of_lines_concat(a: Seq<Seq<char>>, b: Seq<Seq<char>>)
    ensures
        text_of_lines(a + b) == text_of_lines(a) + text_of_lines(b),
    decreases a.len(),
{
    if a.len() == 0 {
        assert(a + b =~= b);
        assert(text_of_lines(a) + text_of_lines(b) =~= text_of_lines(b));
    } else {
        assert((a + b).drop_first() =~= a.drop_first() + b);
        assert((a + b)[0] == a[0]);
        text_of_lines_concat(a.drop_first(), b);
        assert(text_of_lines(a + b) =~= text_of_lines(a) + text_of_lines(b));
    }
}

/// How many characters at the start of `s` are no whitespace.
pub open spec fn word_len(s: Seq<char>) -> nat
    decreases s.len(),
{
    if s.len() == 0 || is_space(s[0]) {
        0
    } else {
        1 + word_len(s.drop_first())
    }
}

/// The words of `s`: its longest runs without whitespace, in order.
pub open spec fn words_of(s: Seq<char>) -> Seq<Seq<char>>
    decreases s.len(),
{
    if s.len() == 0 {
        Seq::empty()
    } else if is_space(s[0]) {
        words_of(s.drop_first())
    } else {
        let n = word_len(s) as int;
        if 0 < n <= s.len() {
            seq![s.take(n)] + words_of(s.skip(n))
        } else {
            Seq::empty()
        }
    }
}

proof fn word_len_is(s: Seq<char>, n: int)
    requires
        0 <= n <= s.len(),
        forall|j: int| 0 <= j < n ==> !is_space(#[trigger] s[j]),
        n < s.len() ==> is_space(s[n]),
    ensures
        word_len(s) == n,
    decreases s.len(),
{
    if n > 0 {
        assert(!is_space(s[0]));
        let t = s.drop_first();
        assert forall|j: int| 0 <= j < n - 1 implies !is_space(#[trigger] t[j]) by {
            assert(t[j] == s[j + 1]);
        }
        word_len_is(t, n - 1);
    }
}

/// The words of `s`.
pub fn words(s: &str) -> (r: Vec<String>)
    ensures
        texts(r@) == words_of(s@),
{
    let v: Vec<char> = to_chars(s);
    let mut out: Vec<String> = Vec::new();
    let mut i: usize = 0;
    assert(v@.skip(0) == s@);
    assert(texts(out@) =~= Seq::<Seq<char>>::empty());
    assert(texts(out@) + words_of(v@.skip(0)) =~= words_of(s@));
    while i < v.len()
        invariant
            i <= v@.len(),
            texts(out@) + words_of(v@.skip(i as int)) == words_of(s@),
        decreases v@.len() - i,
    {
        let ghost rest = v@.skip(i as int);
        if space(v[i]) {
            assert(rest.drop_first() == v@.skip(i + 1));
            i += 1;
        } else {
            let start: usize = i;
            while i < v.len() && !space(v[i])
                invariant
                    start <= i <= v@.len(),
                    forall|j: int| start <= j < i ==> !is_space(#[trigger] v@[j]),
                decreases v@.len() - i,
            {
                i += 1;
            }
            proof {
                assert forall|j: int| 0 <= j < i - start implies !is_space(
                    #[trigger] rest[j],
                ) by {
                    assert(rest[j] == v@[start + j]);
                }
                word_len_is(rest, i - start);
            }
            let ghost before = texts(out@);
            let piece: String = slice_text(&v, start, i);
            assert(piece@ == rest.take(i - start));
            out.push(piece);
            assert(texts(out@) =~= before.push(piece@));
            assert(rest.skip(i - start) == v@.skip(i as int));
            assert(!is_space(rest[0]));
            assert(texts(out@) + words_of(v@.skip(i as int)) =~= before + words_of(rest));
        }
    }
    assert(v@.skip(i as int).len() == 0);
    assert(words_of(v@.skip(i as int)) =~= Seq::<Seq<char>>::empty());
    assert(texts(out@) =~= words_of(s@));
    out
}

/// The parts of `s` before and after the first `c`, if `c` stands in `s`.
pub fn split_once(s: &str, c: char) -> (r: Option<(String, String)>)
    ensures
        r is Some <==> position(s@, c) < s@.len(),
        r matches Some(p) ==> p.0@ == s@.take(position(s@, c) as int) && p.1@ == s@.skip(
            position(s@, c) as int + 1,
        ),
{
    let v: Vec<char> = to_chars(s);
    assert(v@.skip(0) == s@);
    let i: usize = find_char(&v, 0, c);
    if i == v.len() {
        return None;
    }
    assert(v@.subrange(0, i as int) == s@.take(i as int));
    assert(v@.subrange(i + 1, v@.len() as int) == s@.skip(i + 1));
    Some((slice_text(&v, 0, i), slice_text(&v, i + 1, v.len())))
}

/// The part of `s` before the first `c`; all of `s` if `c` stands nowhere.
pub open spec fn up_to(s: Seq<char>, c: char) -> Seq<char> {
    s.take(position(s, c) as int)
}

/// The part of `s` before the first `c`.
pub fn before(s: &str, c: char) -> (r: String)
    ensures
        r@ == up_to(s@, c),
{
    let v: Vec<char> = to_chars(s);
    assert(v@.skip(0) == s@);
    let i: usize = find_char(&v, 0, c);
    assert(v@.subrange(0, i as int) == s@.take(i as int));
    slice_text(&v, 0, i)
}

// ---------------------------------------------------------------------------
// Repeated characters at the end
// ---------------------------------------------------------------------------

/// `s` without the characters `c` at its end.
pub open spec fn without_last(s: Seq<char>, c: char) -> Seq<char>
    decreases s.len(),
{
    if s.len() > 0 && s.last() == c {
        without_last(s.drop_last(), c)
    } else {
        s
    }
}

/// What is left does not end in the character.
pub proof fn without_last_ends(s: Seq<char>, c: char)
    ensures
        without_last(s, c).len() == 0 || without_last(s, c).last() != c,
    decreases s.len(),
{
    if s.len() > 0 && s.last() == c {
        without_last_ends(s.drop_last(), c);
    }
}

/// `s` without the characters `c` at its end.
pub fn cut_last(s: &str, c: char) -> (r: String)
    ensures
        r@ == without_last(s@, c),
{
    let v: Vec<char> = to_chars(s);
    let mut n: usize = v.len();
    assert(v@.take(n as int) == s@);
    while n > 0 && v[n - 1] == c
        invariant
            n <= v@.len(),
            without_last(v@.take(n as int), c) == without_last(s@, c),
        decreases n,
    {
        assert(v@.take(n as int).drop_last() == v@.take(n - 1));
        n -= 1;
    }
    let r: String = slice_text(&v, 0, n);
    assert(r@ == v@.take(n as int));
    r
}

} // verus!
