//! Command lines: taking the operator's extra flags apart, and showing a command
//! as one would type it.
use vstd::prelude::*;
use vstd::string::*;

use crate::scan::{is_space, space};
use crate::text::{join, joined, texts, to_chars};

verus! {

// ---------------------------------------------------------------------------
// Taking apart
// ---------------------------------------------------------------------------

/// How far a text has been taken apart: the finished words, the word at hand, and
/// what the characters so far mean for the next one.
pub struct Lexer {
    pub words: Seq<Seq<char>>,
    pub current: Seq<char>,
    pub in_single: bool,
    pub in_double: bool,
    pub escape: bool,
}

/// Nothing has been read yet.
pub open spec fn start() -> Lexer {
    Lexer {
        words: Seq::empty(),
        current: Seq::empty(),
        in_single: false,
        in_double: false,
        escape: false,
    }
}

/// What one more character does. A backslash makes the next character an ordinary
/// one, but not between single quotes; quotes of one kind are ordinary between
/// those of the other; whitespace outside quotes ends a word.
pub open spec fn step(l: Lexer, c: char) -> Lexer {
    if l.escape {
        Lexer { current: l.current.push(c), escape: false, ..l }
    } else if c == '\\' && !l.in_single {
        Lexer { escape: true, ..l }
    } else if c == '\'' && !l.in_double {
        Lexer { in_single: !l.in_single, ..l }
    } else if c == '"' && !l.in_single {
        Lexer { in_double: !l.in_double, ..l }
    } else if is_space(c) && !l.in_single && !l.in_double {
        if l.current.len() > 0 {
            Lexer { words: l.words.push(l.current), current: Seq::empty(), ..l }
        } else {
            l
        }
    } else {
        Lexer { current: l.current.push(c), ..l }
    }
}

/// What the characters of `s` do.
pub open spec fn run(l: Lexer, s: Seq<char>) -> Lexer
    decreases s.len(),
{
    if s.len() == 0 {
        l
    } else {
        step(run(l, s.drop_last()), s.last())
    }
}

/// The words, with the one at hand unless it is empty.
pub open spec fn finish(l: Lexer) -> Seq<Seq<char>> {
    if l.current.len() > 0 {
        l.words.push(l.current)
    } else {
        l.words
    }
}

/// The words of a command line.
pub open spec fn flags_of(s: Seq<char>) -> Seq<Seq<char>> {
    finish(run(start(), s))
}

/// An empty text holds no words.
pub proof fn no_flags()
    ensures
        flags_of(Seq::empty()) == Seq::<Seq<char>>::empty(),
{
}

/// The words of a command line. Words end at whitespace; quotes of either kind and
/// backslashes keep characters together.
pub fn parse_extra_flags(input: &str) -> (r: Vec<String>)
    ensures
        texts(r@) == flags_of(input@),
{
    let v: Vec<char> = to_chars(input);
    let mut tokens: Vec<String> = Vec::new();
    let mut current: String = String::new();
    let mut in_single: bool = false;
    let mut in_double: bool = false;
    let mut escape: bool = false;
    let mut i: usize = 0;
    assert(v@.take(0).len() == 0);
    assert(texts(tokens@) =~= Seq::<Seq<char>>::empty());
    while i < v.len()
        invariant
            i <= v@.len(),
            run(start(), v@.take(i as int)) == (Lexer {
                words: texts(tokens@),
                current: current@,
                in_single,
                in_double,
                escape,
            }),
        decreases v@.len() - i,
    {
        let ch: char = v[i];
        assert(v@.take(i + 1).drop_last() == v@.take(i as int));
        if escape {
            current.push(ch);
            escape = false;
        } else if ch == '\\' && !in_single {
            escape = true;
        } else if ch == '\'' && !in_double {
            in_single = !in_single;
        } else if ch == '"' && !in_single {
            in_double = !in_double;
        } else if space(ch) && !in_single && !in_double {
            if !current.as_str().is_empty() {
                let ghost before = texts(tokens@);
                let ghost word = current@;
                tokens.push(current);
                assert(texts(tokens@) =~= before.push(word));
                current = String::new();
                assert(current@ =~= Seq::<char>::empty());
            }
        } else {
            current.push(ch);
        }
        i += 1;
    }
    assert(v@.take(i as int) == input@);
    if !current.as_str().is_empty() {
        let ghost before = texts(tokens@);
        let ghost word = current@;
        tokens.push(current);
        assert(texts(tokens@) =~= before.push(word));
    }
    tokens
}

// ---------------------------------------------------------------------------
// Putting together
// ---------------------------------------------------------------------------

/// A shell would not take `c` as it stands.
pub open spec fn is_special(c: char) -> bool {
    ||| c == ' '
    ||| c == '\t'
    ||| c == '\n'
    ||| c == '|'
    ||| c == '&'
    ||| c == ';'
    ||| c == '<'
    ||| c == '>'
    ||| c == '('
    ||| c == ')'
    ||| c == '$'
    ||| c == '`'
    ||| c == '"'
    ||| c == '\''
    ||| c == '\\'
    ||| c == '*'
    ||| c == '?'
    ||| c == '#'
    ||| c == '~'
    ||| c == '!'
    ||| c == '['
}

/// Whether a shell would not take `c` as it stands.
pub fn needs_quoting(c: char) -> (r: bool)
    ensures
        r == is_special(c),
{
    c == ' ' || c == '\t' || c == '\n' || c == '|' || c == '&' || c == ';' || c == '<' || c == '>'
        || c == '(' || c == ')' || c == '$' || c == '`' || c == '"' || c == '\'' || c == '\\' || c
        == '*' || c == '?' || c == '#' || c == '~' || c == '!' || c == '['
}

/// A word has to be quoted: it is empty or holds a special character.
pub open spec fn wants_quotes(t: Seq<char>) -> bool {
    t.len() == 0 || exists|i: int| 0 <= i < t.len() && is_special(#[trigger] t[i])
}

/// `t` with each single quote turned into one that stands between the quotes.
pub open spec fn escaped(t: Seq<char>) -> Seq<char>
    decreases t.len(),
{
    if t.len() == 0 {
        Seq::empty()
    } else if t.last() == '\'' {
        escaped(t.drop_last()) + seq!['\'', '\\', '\'', '\'']
    } else {
        escaped(t.drop_last()).push(t.last())
    }
}

/// A word as one would type it.
pub open spec fn quoted(t: Seq<char>) -> Seq<char> {
    if wants_quotes(t) {
        seq!['\''] + escaped(t) + seq!['\'']
    } else {
        t
    }
}

/// The words as one would type them.
pub open spec fn all_quoted(words: Seq<Seq<char>>) -> Seq<Seq<char>> {
    Seq::new(words.len(), |i: int| quoted(words[i]))
}

/// The command line for the words.
pub open spec fn command_line(words: Seq<Seq<char>>) -> Seq<char> {
    joined(all_quoted(words), " "@)
}

fn quote(t: &str) -> (r: String)
    ensures
        r@ == quoted(t@),
{
    let v: Vec<char> = to_chars(t);
    let mut special: bool = v.len() == 0;
    let mut i: usize = 0;
    while i < v.len()
        invariant
            i <= v@.len(),
            v@ == t@,
            special == (v@.len() == 0 || exists|j: int| 0 <= j < i && is_special(#[trigger] v@[j])),
        decreases v@.len() - i,
    {
        if needs_quoting(v[i]) {
            assert(is_special(v@[i as int]));
            special = true;
        }
        i += 1;
    }
    assert(special == wants_quotes(t@));
    if !special {
        return t.to_owned();
    }
    let mut out: String = String::new();
    out.push('\'');
    let mut k: usize = 0;
    assert(v@.take(0).len() == 0);
    assert(out@ =~= seq!['\''] + escaped(v@.take(0)));
    while k < v.len()
        invariant
            k <= v@.len(),
            out@ == seq!['\''] + escaped(v@.take(k as int)),
        decreases v@.len() - k,
    {
        assert(v@.take(k + 1).drop_last() == v@.take(k as int));
        let ghost before = out@;
        if v[k] == '\'' {
            out.push('\'');
            out.push('\\');
            out.push('\'');
            out.push('\'');
            assert(out@ =~= before + seq!['\'', '\\', '\'', '\'']);
        } else {
            out.push(v[k]);
        }
        k += 1;
        assert(out@ =~= seq!['\''] + escaped(v@.take(k as int)));
    }
    out.push('\'');
    assert(v@.take(k as int) == t@);
    assert(out@ =~= quoted(t@));
    out
}

/// The command line for the words: each quoted if a shell needs it, with spaces
/// between them.
pub fn shlex_join(tokens: &Vec<String>) -> (r: String)
    ensures
        r@ == command_line(texts(tokens@)),
{
    let mut parts: Vec<String> = Vec::new();
    let mut i: usize = 0;
    while i < tokens.len()
        invariant
            i <= tokens@.len(),
            parts@.len() == i,
            forall|j: int| 0 <= j < i ==> (#[trigger] parts@[j])@ == quoted(tokens@[j]@),
        decreases tokens@.len() - i,
    {
        parts.push(quote(tokens[i].as_str()));
        i += 1;
    }
    assert(texts(parts@) =~= all_quoted(texts(tokens@)));
    join(&parts, " ")
}

// ---------------------------------------------------------------------------
// Reading back
// ---------------------------------------------------------------------------

proof fn run_concat(l: Lexer, a: Seq<char>, b: Seq<char>)
    ensures
        run(l, a + b) == run(run(l, a), b),
    decreases b.len(),
{
    if b.len() == 0 {
        assert(a + b =~= a);
    } else {
        assert((a + b).drop_last() =~= a + b.drop_last());
        assert((a + b).last() == b.last());
        run_concat(l, a, b.drop_last());
    }
}

/// Between words, or in one that is not quoted.
spec fn is_plain(l: Lexer) -> bool {
    !l.in_single && !l.in_double && !l.escape
}

proof fn run_plain(l: Lexer, t: Seq<char>)
    requires
        is_plain(l),
        forall|i: int| 0 <= i < t.len() ==> !is_special(#[trigger] t[i]) && !is_space(t[i]),
    ensures
        run(l, t) == (Lexer { current: l.current + t, ..l }),
    decreases t.len(),
{
    if t.len() == 0 {
        assert(l.current + t =~= l.current);
    } else {
        let front = t.drop_last();
        assert forall|i: int| 0 <= i < front.len() implies !is_special(#[trigger] front[i])
            && !is_space(front[i]) by {
            assert(front[i] == t[i]);
        }
        run_plain(l, front);
        let last = t[t.len() - 1];
        assert(!is_special(last) && !is_space(last));
        assert((l.current + front).push(last) =~= l.current + t);
    }
}

proof fn run_escaped(l: Lexer, t: Seq<char>)
    requires
        l.in_single,
        !l.in_double,
        !l.escape,
    ensures
        run(l, escaped(t)) == (Lexer { current: l.current + t, ..l }),
    decreases t.len(),
{
    if t.len() == 0 {
        assert(l.current + t =~= l.current);
    } else {
        let front = t.drop_last();
        let c = t.last();
        run_escaped(l, front);
        let mid = Lexer { current: l.current + front, ..l };
        assert(mid.current.push(c) =~= l.current + t);
        if c == '\'' {
            let four = seq!['\'', '\\', '\'', '\''];
            run_concat(l, escaped(front), four);
            let a = step(mid, '\'');
            let b = step(a, '\\');
            let d = step(b, '\'');
            let e = step(d, '\'');
            assert(run(mid, four) == e) by {
                let s1 = four.drop_last();
                let s2 = s1.drop_last();
                let s3 = s2.drop_last();
                assert(s3.drop_last().len() == 0);
                assert(run(mid, s3.drop_last()) == mid);
                assert(run(mid, s3) == a);
                assert(run(mid, s2) == b);
                assert(run(mid, s1) == d);
            }
            assert(e == Lexer { current: mid.current.push('\''), ..l });
        } else {
            assert(escaped(t).drop_last() =~= escaped(front));
            assert(escaped(t).last() == c);
        }
    }
}

proof fn run_quoted(l: Lexer, t: Seq<char>)
    requires
        is_plain(l),
        wants_quotes(t) || forall|i: int| 0 <= i < t.len() ==> !is_space(#[trigger] t[i]),
    ensures
        run(l, quoted(t)) == (Lexer { current: l.current + t, ..l }),
{
    if wants_quotes(t) {
        let one = seq!['\''];
        let opened = Lexer { in_single: true, ..l };
        assert(one.drop_last().len() == 0);
        assert(run(l, one.drop_last()) == l);
        assert(run(l, one) == opened);
        run_escaped(opened, t);
        let inside = Lexer { current: l.current + t, ..opened };
        assert(run(inside, one.drop_last()) == inside);
        run_concat(l, one, escaped(t));
        run_concat(l, one + escaped(t), one);
        assert(run(inside, one) == (Lexer { current: l.current + t, ..l }));
    } else {
        assert forall|i: int| 0 <= i < t.len() implies !is_special(#[trigger] t[i]) && !is_space(
            t[i],
        ) by {}
        run_plain(l, t);
    }
}

proof fn run_command_line(words: Seq<Seq<char>>)
    requires
        words.len() > 0,
        forall|i: int| 0 <= i < words.len() ==> readable(#[trigger] words[i]),
    ensures
        run(start(), command_line(words)) == (Lexer {
            words: words.drop_last(),
            current: words.last(),
            ..start()
        }),
    decreases words.len(),
{
    let q = all_quoted(words);
    let last = words.len() - 1;
    assert(readable(words[last]));
    if words.len() == 1 {
        assert(words.drop_last() =~= Seq::<Seq<char>>::empty());
        assert(start().current + words[0] =~= words[0]);
        run_quoted(start(), words[0]);
    } else {
        let front = words.drop_last();
        assert forall|i: int| 0 <= i < front.len() implies readable(#[trigger] front[i]) by {
            assert(front[i] == words[i]);
        }
        run_command_line(front);
        assert(q.drop_last() =~= all_quoted(front));
        reveal_strlit(" ");
        let sp = " "@;
        let a = command_line(front);
        let l = Lexer { words: front.drop_last(), current: front.last(), ..start() };
        assert(front.last() == words[last - 1]);
        assert(readable(words[last - 1]));
        run_concat(start(), a, sp);
        assert(sp.drop_last().len() == 0);
        assert(run(l, sp.drop_last()) == l);
        let after = Lexer { words: front, current: Seq::empty(), ..start() };
        assert(front.drop_last().push(front.last()) =~= front);
        assert(step(l, ' ') == after);
        assert(sp.last() == ' ');
        assert(run(l, sp) == after);
        run_concat(start(), a + sp, quoted(words[last]));
        run_quoted(after, words[last]);
        assert(after.current + words[last] =~= words[last]);
        assert(command_line(words) == a + sp + quoted(words[last]));
    }
}

/// A word that can be read back: it is not empty, and if it is not quoted, no
/// whitespace stands in it.
pub open spec fn readable(t: Seq<char>) -> bool {
    t.len() > 0 && (wants_quotes(t) || forall|i: int| 0 <= i < t.len() ==> !is_space(#[trigger] t[i]))
}

/// Taking the shown command line apart gives back its words.
pub proof fn command_line_reads_back(words: Seq<Seq<char>>)
    requires
        forall|i: int| 0 <= i < words.len() ==> readable(#[trigger] words[i]),
    ensures
        flags_of(command_line(words)) == words,
{
    if words.len() == 0 {
        assert(command_line(words).len() == 0);
        assert(flags_of(command_line(words)) =~= words);
    } else {
        run_command_line(words);
        assert(readable(words[words.len() - 1]));
        assert(words.drop_last().push(words.last()) =~= words);
    }
}

} // verus!
