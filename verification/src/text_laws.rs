//! What holds of the texts that are written and read: numbers, words, URLs, command lines and
//! the blocks that devices exchange.
use vstd::prelude::*;

use crate::nesting::{nesting, nesting_from};
use crate::number::{decimal, decimal_is_digits, is_digit, parsed};
use crate::protocol::{block_text, blocks_text, pairs_text, BlockModel};
use crate::scan::{is_space, matches_at, word_len, words_of};
use crate::shell::{all_quoted, command_line, quoted};
use crate::srt_handshake::{filling, is_conclusion, sid_wire, turned};
use crate::streamid::{percent, percent_encoded};

verus! {

// ---------------------------------------------------------------------------
// Numbers and words
// ---------------------------------------------------------------------------

/// A number is written without zeros in front; zero is one digit.
pub proof fn numbers_have_no_zeros_in_front(n: nat)
    ensures
        n > 0 ==> decimal(n)[0] != '0',
        n < 10 ==> decimal(n).len() == 1,
        n >= 10 ==> decimal(n).len() == decimal(n / 10).len() + 1,
    decreases n,
{
    if n >= 10 {
        numbers_have_no_zeros_in_front(n / 10);
        decimal_is_digits(n / 10);
        assert(decimal(n)[0] == decimal(n / 10)[0]);
    }
}

/// What is read as a number is made of digits, with a plus sign in front at most, and is not
/// larger than may be.
pub proof fn numbers_are_made_of_digits(s: Seq<char>, max: int, i: int)
    requires
        parsed(s, max) is Some,
        0 <= i < s.len(),
    ensures
        is_digit(s[i]) || (i == 0 && s[0] == '+'),
        parsed(s, max)->0 <= max,
{
    if s[0] == '+' {
        if i > 0 {
            assert(s.skip(1)[i - 1] == s[i]);
        }
    }
}

/// The words of a text are what stands between blanks.
#[verifier::rlimit(60)]
pub proof fn words_stand_between_blanks(w: Seq<char>, blank: char, rest: Seq<char>)
    requires
        w.len() > 0,
        forall|i: int| 0 <= i < w.len() ==> !is_space(#[trigger] w[i]),
        is_space(blank),
    ensures
        words_of(w) == seq![w],
        words_of(w + seq![blank] + rest) == seq![w] + words_of(rest),
        words_of(seq![blank] + rest) == words_of(rest),
{
    let b = seq![blank] + rest;
    assert(b.drop_first() =~= rest);
    let t = w + seq![blank] + rest;
    word_ends(w, b);
    assert(t =~= w + b);
    assert(t.take(w.len() as int) =~= w);
    assert(t.skip(w.len() as int) =~= b);
    word_ends(w, Seq::empty());
    assert(w + Seq::<char>::empty() =~= w);
    assert(w.take(w.len() as int) =~= w);
    assert(words_of(w.skip(w.len() as int)) =~= Seq::<Seq<char>>::empty());
    assert(words_of(w) =~= seq![w]);
    assert(t[0] == w[0] && !is_space(w[0]));
    assert(word_len(t) == w.len());
    assert(b[0] == blank);
    assert(words_of(b) == words_of(rest));
    assert(words_of(t) == seq![w] + words_of(b));
}

proof fn word_ends(w: Seq<char>, b: Seq<char>)
    requires
        forall|i: int| 0 <= i < w.len() ==> !is_space(#[trigger] w[i]),
        b.len() == 0 || is_space(b[0]),
    ensures
        word_len(w + b) == w.len(),
    decreases w.len(),
{
    let t = w + b;
    if w.len() > 0 {
        let v = w.drop_first();
        assert forall|i: int| 0 <= i < v.len() implies !is_space(#[trigger] v[i]) by {
            assert(v[i] == w[i + 1]);
        }
        word_ends(v, b);
        assert(t.drop_first() =~= v + b);
        assert(t[0] == w[0]);
    } else {
        assert(t =~= b);
    }
}

// ---------------------------------------------------------------------------
// URLs and command lines
// ---------------------------------------------------------------------------

/// A byte that stays as it is in a URL: a letter, a digit, or one of four signs.
pub open spec fn stays(b: u8) -> bool {
    48 <= b <= 57 || 65 <= b <= 90 || 97 <= b <= 122 || b == '-' as u8 || b == '_' as u8 || b
        == '.' as u8 || b == '~' as u8
}

/// Letters, digits and four signs stay as they are in a URL; every other byte becomes a percent
/// sign with two characters.
pub proof fn plain_bytes_stay(bytes: Seq<u8>, i: int)
    requires
        forall|j: int| 0 <= j < bytes.len() ==> stays(#[trigger] bytes[j]),
        0 <= i < bytes.len(),
    ensures
        percent_encoded(bytes).len() == bytes.len(),
        percent_encoded(bytes)[i] == bytes[i] as char,
    decreases bytes.len(),
{
    let w = bytes.drop_last();
    assert forall|j: int| 0 <= j < w.len() implies stays(#[trigger] w[j]) by {
        assert(w[j] == bytes[j]);
    }
    assert(bytes.last() == bytes[bytes.len() - 1]);
    assert(stays(bytes[bytes.len() - 1]));
    if w.len() > 0 {
        if i < w.len() {
            plain_bytes_stay(w, i);
        } else {
            plain_bytes_stay(w, 0);
        }
    } else {
        assert(percent_encoded(w).len() == 0);
    }
}

/// A byte that does not stay is written as a percent sign and two hexadecimal digits.
pub proof fn other_bytes_are_written_in_hex(b: u8)
    ensures
        !stays(b) ==> percent(b).len() == 3 && percent(b)[0] == '%',
        stays(b) ==> percent(b) == seq![b as char],
{
}

/// A word of letters, digits and harmless signs is shown as it is; another stands between
/// single quotes.
pub proof fn harmless_words_are_shown_as_they_are(t: Seq<char>)
    ensures
        t.len() > 0 && (forall|i: int|
            0 <= i < t.len() ==> is_harmless(#[trigger] t[i])) ==> quoted(t) == t && command_line(
            seq![t],
        ) == t,
        t.len() == 0 || (exists|i: int| 0 <= i < t.len() && #[trigger] t[i] == ' ') ==> quoted(t)[0]
            == '\'' && quoted(t).last() == '\'',
{
    if t.len() > 0 && forall|i: int| 0 <= i < t.len() ==> is_harmless(#[trigger] t[i]) {
        assert(quoted(t) == t);
        assert(all_quoted(seq![t]) =~= seq![t]);
    }
}

/// A character that means nothing to a shell.
pub open spec fn is_harmless(c: char) -> bool {
    'a' <= c <= 'z' || 'A' <= c <= 'Z' || '0' <= c <= '9' || c == '-' || c == '_' || c == '.' || c
        == '/' || c == ':' || c == '=' || c == ','
}

// ---------------------------------------------------------------------------
// Blocks
// ---------------------------------------------------------------------------

/// A block is written as its header with a colon, a line for each pair, and an empty line; a
/// pair as its name, a colon, a blank and its value. Blocks follow each other.
pub proof fn blocks_are_written_in_lines(
    header: Seq<char>,
    kvs: Seq<(Seq<char>, Seq<char>)>,
    k: Seq<char>,
    v: Seq<char>,
    bs: Seq<BlockModel>,
)
    ensures
        block_text(BlockModel { header, kvs: Seq::empty() }) == header + ":\n"@ + "\n"@,
        pairs_text(kvs.push((k, v))) == pairs_text(kvs) + (k + ": "@ + v + "\n"@),
        block_text(BlockModel { header, kvs }) == header + ":\n"@ + pairs_text(kvs) + "\n"@,
        blocks_text(bs.push(BlockModel { header, kvs })) == blocks_text(bs) + block_text(
            BlockModel { header, kvs },
        ),
{
    assert(kvs.push((k, v)).drop_last() =~= kvs);
    assert(pairs_text(kvs.push((k, v))) =~= pairs_text(kvs) + (k + ": "@ + v + "\n"@));
    assert(bs.push(BlockModel { header, kvs }).drop_last() =~= bs);
    assert(header + ":\n"@ + Seq::<char>::empty() + "\n"@ =~= header + ":\n"@ + "\n"@);
}

// ---------------------------------------------------------------------------
// Handshakes
// ---------------------------------------------------------------------------

/// The name of a stream goes over the line four bytes at a time, each four from the last to the
/// first.
pub proof fn names_go_in_turned_fours(b: Seq<u8>)
    requires
        b.len() >= 4,
        b.len() % 4 == 0,
    ensures
        turned(b).len() >= 4,
        turned(b).take(4) == seq![b[3], b[2], b[1], b[0]],
        b.len() > 4 ==> turned(b).skip(4) == turned(b.skip(4)),
        sid_wire(b) == turned(b),
{
    assert(b.take(4).reverse() =~= seq![b[3], b[2], b[1], b[0]]);
    if b.len() == 4 {
        assert(turned(b) =~= seq![b[3], b[2], b[1], b[0]]);
    } else {
        assert(turned(b).take(4) =~= b.take(4).reverse());
        assert(turned(b).skip(4) =~= turned(b.skip(4)));
    }
    assert(turned(b).take(4) =~= seq![b[3], b[2], b[1], b[0]]);
    assert(b + Seq::new(filling(b.len()), |i: int| 0u8) =~= b);
}

/// A packet concludes a handshake only if it is one of control, of the kind of a handshake, of
/// the fifth version, and says that it concludes.
pub proof fn conclusions_say_so(p: Seq<u8>)
    requires
        is_conclusion(p),
    ensures
        p.len() >= 64,
        p[0] == 128 && p[1] == 0,
        p[16] == 0 && p[17] == 0 && p[18] == 0 && p[19] == 5,
        p[36] == 255 && p[37] == 255 && p[38] == 255 && p[39] == 255,
{
}

// ---------------------------------------------------------------------------
// Nesting
// ---------------------------------------------------------------------------

/// A text without tags nests nothing; a tag that opens an element nests one more than is open.
pub proof fn tags_nest(s: Seq<char>, i: int, open: nat)
    requires
        0 <= i < s.len(),
    ensures
        (forall|j: int| 0 <= j < s.len() ==> #[trigger] s[j] != '<') ==> nesting(s) == 0,
        s[i] == '<' && i + 1 < s.len() && s[i + 1] != '!' && s[i + 1] != '?' && s[i + 1] != '/'
            ==> nesting_from(s, i, open) > open,
{
    if forall|j: int| 0 <= j < s.len() ==> #[trigger] s[j] != '<' {
        no_tags(s, 0);
    }
    if s[i] == '<' && i + 1 < s.len() && s[i + 1] != '!' && s[i + 1] != '?' && s[i + 1] != '/' {
        reveal_strlit("<!--");
        reveal_strlit("<![CDATA[");
        reveal_strlit("<!");
        reveal_strlit("<?");
        reveal_strlit("</");
        if matches_at(s, "<!--"@, i) {
            assert(s.subrange(i, i + 4)[1] == s[i + 1]);
        }
        if matches_at(s, "<![CDATA["@, i) {
            assert(s.subrange(i, i + 9)[1] == s[i + 1]);
        }
        if matches_at(s, "<!"@, i) {
            assert(s.subrange(i, i + 2)[1] == s[i + 1]);
        }
        if matches_at(s, "<?"@, i) {
            assert(s.subrange(i, i + 2)[1] == s[i + 1]);
        }
        if matches_at(s, "</"@, i) {
            assert(s.subrange(i, i + 2)[1] == s[i + 1]);
        }
    }
}

proof fn no_tags(s: Seq<char>, i: int)
    requires
        0 <= i <= s.len(),
        forall|j: int| 0 <= j < s.len() ==> #[trigger] s[j] != '<',
    ensures
        nesting_from(s, i, 0) == 0,
    decreases s.len() - i,
{
    if i < s.len() {
        assert(s[i] != '<');
        no_tags(s, i + 1);
    }
}

} // verus!
