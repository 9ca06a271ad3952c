//! Reading back what was put together: the parameters of a URL, the values of a command,
//! the first of a list.
use vstd::prelude::*;
use vstd::string::*;

use crate::encoder::sets;
use crate::scan::{begins, pieces, position, position_facts, position_is};
use crate::text::joined;

verus! {

// ---------------------------------------------------------------------------
// The parameters of a URL
// ---------------------------------------------------------------------------

/// What follows `head` in the first of the parts that begins with it.
pub open spec fn value_in(parts: Seq<Seq<char>>, head: Seq<char>) -> Option<Seq<char>>
    decreases parts.len(),
{
    if parts.len() == 0 {
        None
    } else if begins(parts[0], head) {
        Some(parts[0].skip(head.len() as int))
    } else {
        value_in(parts.drop_first(), head)
    }
}

/// The query of a URL: what follows the first question mark.
pub open spec fn query_of(url: Seq<char>) -> Seq<char> {
    url.skip(position(url, '?') as int + 1)
}

/// The value of a parameter of a URL, as it stands there. `head` is its name with the sign
/// that ends it.
pub open spec fn parameter(url: Seq<char>, head: Seq<char>) -> Option<Seq<char>> {
    value_in(pieces(query_of(url), '&'), head)
}

/// `c` stands nowhere in `s`.
pub open spec fn lacks(s: Seq<char>, c: char) -> bool {
    forall|i: int| 0 <= i < s.len() ==> #[trigger] s[i] != c
}

/// What stands before the first separator is the first piece.
pub proof fn first_piece_is(a: Seq<char>, rest: Seq<char>, c: char)
    requires
        lacks(a, c),
    ensures
        pieces(a + seq![c] + rest, c) == seq![a] + pieces(rest, c),
{
    let t = a + seq![c] + rest;
    let n = a.len() as int;
    assert forall|j: int| 0 <= j < n implies t[j] != c by {
        assert(t[j] == a[j]);
    }
    assert(t[n] == c);
    position_is(t, c, n);
    assert(t.take(n) =~= a);
    assert(t.skip(n + 1) =~= rest);
}

/// A text without a separator is one piece.
pub proof fn only_piece_is(a: Seq<char>, c: char)
    requires
        lacks(a, c),
    ensures
        pieces(a, c) == seq![a],
{
    position_is(a, c, a.len() as int);
}

/// What stands after the last separator is the last piece.
pub proof fn last_piece_is(a: Seq<char>, b: Seq<char>, c: char)
    requires
        lacks(b, c),
    ensures
        pieces(a + seq![c] + b, c) == pieces(a, c).push(b),
    decreases a.len(),
{
    position_facts(a, c);
    let i = position(a, c) as int;
    if i < a.len() {
        let head = a.take(i);
        let rest = a.skip(i + 1);
        last_piece_is(rest, b, c);
        assert(a + seq![c] + b =~= head + seq![c] + (rest + seq![c] + b));
        first_piece_is(head, rest + seq![c] + b, c);
        assert(seq![head] + pieces(rest, c).push(b) =~= (seq![head] + pieces(rest, c)).push(b));
    } else {
        first_piece_is(a, b, c);
        only_piece_is(b, c);
        only_piece_is(a, c);
        assert(seq![a] + seq![b] =~= seq![a].push(b));
    }
}

/// Texts that are joined with a separator that they lack are the pieces of the whole.
pub proof fn joined_reads_back(parts: Seq<Seq<char>>, c: char)
    requires
        parts.len() > 0,
        forall|i: int| 0 <= i < parts.len() ==> lacks(#[trigger] parts[i], c),
    ensures
        pieces(joined(parts, seq![c]), c) == parts,
    decreases parts.len(),
{
    if parts.len() == 1 {
        only_piece_is(parts[0], c);
        assert(seq![parts[0]] =~= parts);
    } else {
        let front = parts.drop_last();
        joined_reads_back(front, c);
        last_piece_is(joined(front, seq![c]), parts.last(), c);
        assert(front.push(parts.last()) =~= parts);
    }
}

/// A text of two parts lacks what both lack.
pub proof fn lacks_concat(a: Seq<char>, b: Seq<char>, c: char)
    requires
        lacks(a, c),
        lacks(b, c),
    ensures
        lacks(a + b, c),
{
    assert forall|i: int| 0 <= i < (a + b).len() implies #[trigger] (a + b)[i] != c by {
        if i < a.len() {
            assert((a + b)[i] == a[i]);
        } else {
            assert((a + b)[i] == b[i - a.len()]);
        }
    }
}

/// The query is what follows the first question mark.
pub proof fn query_is(a: Seq<char>, q: Seq<char>)
    requires
        lacks(a, '?'),
    ensures
        query_of(a + "?"@ + q) == q,
{
    reveal_strlit("?");
    let t = a + "?"@ + q;
    let n = a.len() as int;
    assert forall|j: int| 0 <= j < n implies t[j] != '?' by {
        assert(t[j] == a[j]);
    }
    assert(t[n] == '?');
    position_is(t, '?', n);
    assert(t.skip(n + 1) =~= q);
}

// ---------------------------------------------------------------------------
// The values of a command
// ---------------------------------------------------------------------------

/// What a part of the arguments sets, the whole sets.
pub proof fn part_sets(
    before: Seq<Seq<char>>,
    part: Seq<Seq<char>>,
    after: Seq<Seq<char>>,
    flag: Seq<char>,
    value: Seq<char>,
)
    requires
        sets(part, flag, value),
    ensures
        sets(before + part + after, flag, value),
{
    let i = choose|i: int|
        0 <= i < part.len() - 1 && #[trigger] part[i] == flag && part[i + 1] == value;
    let all = before + part + after;
    assert(all[before.len() + i] == flag);
    assert(all[before.len() + i + 1] == value);
}

/// The values that a flag is given in arguments that come in pairs, from place `i` on.
pub open spec fn told_from(list: Seq<Seq<char>>, flag: Seq<char>, i: int) -> Seq<Seq<char>>
    decreases list.len() - i,
{
    if i + 1 >= list.len() {
        Seq::empty()
    } else {
        (if list[i] == flag {
            seq![list[i + 1]]
        } else {
            Seq::empty()
        }) + told_from(list, flag, i + 2)
    }
}

/// The values that a flag is given in arguments that come in pairs, in their order.
pub open spec fn told(list: Seq<Seq<char>>, flag: Seq<char>) -> Seq<Seq<char>> {
    told_from(list, flag, 0)
}

/// What is told in the later part of the arguments.
proof fn told_later(a: Seq<Seq<char>>, b: Seq<Seq<char>>, flag: Seq<char>, i: int)
    requires
        0 <= i,
    ensures
        told_from(a + b, flag, a.len() + i) == told_from(b, flag, i),
    decreases b.len() - i,
{
    if i + 1 < b.len() {
        told_later(a, b, flag, i + 2);
    }
}

proof fn told_earlier(a: Seq<Seq<char>>, b: Seq<Seq<char>>, flag: Seq<char>, i: int)
    requires
        0 <= i <= a.len(),
        (a.len() - i) % 2 == 0,
    ensures
        told_from(a + b, flag, i) == told_from(a, flag, i) + told(b, flag),
    decreases a.len() - i,
{
    if i < a.len() {
        told_earlier(a, b, flag, i + 2);
        assert((a + b)[i] == a[i] && (a + b)[i + 1] == a[i + 1]);
        assert(told_from(a + b, flag, i) =~= told_from(a, flag, i) + told(b, flag));
    } else {
        told_later(a, b, flag, 0);
        assert(told_from(a, flag, i) =~= Seq::empty());
        assert(told_from(a + b, flag, i) =~= told_from(a, flag, i) + told(b, flag));
    }
}

/// Arguments in two parts tell what the parts tell, one after the other.
pub proof fn told_in_parts(a: Seq<Seq<char>>, b: Seq<Seq<char>>, flag: Seq<char>)
    requires
        a.len() % 2 == 0,
    ensures
        told(a + b, flag) == told(a, flag) + told(b, flag),
{
    told_earlier(a, b, flag, 0);
}

} // verus!
