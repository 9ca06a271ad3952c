//! Which FFmpeg is run, and what it can do.
use vstd::prelude::*;
use vstd::string::*;
use vstd::utf8::*;

use crate::number::{alnum, is_alnum};
use crate::scan::{contains, holds, lines, lines_of, words, words_of};
use crate::text::{cat2, cat3, opt_text, texts, to_chars};

verus! {

// ---------------------------------------------------------------------------
// Where it is
// ---------------------------------------------------------------------------

/// Notes where the application's own files are; the first note stays.
pub fn set_resource_root(slot: &mut Option<String>, root: String)
    ensures
        *final(slot) == (match *old(slot) {
            Some(first) => Some(first),
            None => Some(root),
        }),
{
    if slot.is_none() {
        *slot = Some(root);
    }
}

/// The names under which a program is looked for beside the application, the first
/// one first.
pub open spec fn bundled(program: Seq<char>, windows: bool) -> Seq<Seq<char>> {
    let suffix = if windows {
        ".exe"@
    } else {
        Seq::empty()
    };
    seq!["sidecar/"@ + program + suffix, program + suffix]
}

/// The names under which a program is looked for beside the application.
pub fn bundled_names(program: &str, windows: bool) -> (r: Vec<String>)
    ensures
        texts(r@) == bundled(program@, windows),
{
    let suffix: &str = if windows {
        ".exe"
    } else {
        ""
    };
    proof {
        reveal_strlit("");
        assert(""@ =~= Seq::<char>::empty());
    }
    let mut out: Vec<String> = Vec::new();
    out.push(cat3("sidecar/", program, suffix));
    out.push(cat2(program, suffix));
    assert(texts(out@) =~= bundled(program@, windows));
    out
}

/// The program that is run: the one that the operator names, if it exists; else the
/// one beside the application; else the one that the system finds.
pub open spec fn picked_program(
    named: Option<Seq<char>>,
    named_exists: bool,
    beside: Option<Seq<char>>,
    found: Option<Seq<char>>,
) -> Option<Seq<char>> {
    if named is Some && named->0.len() > 0 && named_exists {
        named
    } else if beside is Some {
        beside
    } else {
        found
    }
}

/// The network diagnosis program that is run, if there is one.
pub fn net_diag_path(
    named: Option<String>,
    named_exists: bool,
    beside: Option<String>,
    found: Option<String>,
) -> (r: Option<String>)
    ensures
        opt_text(r) == picked_program(
            opt_text(named),
            named_exists,
            opt_text(beside),
            opt_text(found),
        ),
{
    if let Some(path) = named {
        if !path.as_str().is_empty() && named_exists {
            return Some(path);
        }
    }
    if let Some(path) = beside {
        return Some(path);
    }
    found
}

/// The FFmpeg that is run. If there is none, its bare name is tried, so that the
/// failure shows where it is started.
pub fn ffmpeg_path(
    named: Option<String>,
    named_exists: bool,
    beside: Option<String>,
    found: Option<String>,
) -> (r: String)
    ensures
        r@ == (match picked_program(
            opt_text(named),
            named_exists,
            opt_text(beside),
            opt_text(found),
        ) {
            Some(path) => path,
            None => "ffmpeg"@,
        }),
{
    match net_diag_path(named, named_exists, beside, found) {
        Some(path) => path,
        None => "ffmpeg".to_owned(),
    }
}

// ---------------------------------------------------------------------------
// What it can do
// ---------------------------------------------------------------------------

/// FFmpeg's list of output formats has the one for cards.
pub open spec fn lists_decklink(text: Seq<char>) -> bool {
    exists|i: int| 0 <= i < lines_of(text).len() && holds(#[trigger] lines_of(text)[i], "decklink"@)
}

/// Whether FFmpeg's list of output formats has the one for cards.
pub fn ffmpeg_has_decklink(muxers: &str) -> (r: bool)
    ensures
        r == lists_decklink(muxers@),
{
    let all: Vec<String> = lines(muxers);
    let mut i: usize = 0;
    while i < all.len()
        invariant
            i <= all@.len(),
            texts(all@) == lines_of(muxers@),
            forall|j: int| 0 <= j < i ==> !holds(#[trigger] lines_of(muxers@)[j], "decklink"@),
        decreases all@.len() - i,
    {
        assert(lines_of(muxers@)[i as int] == all@[i as int]@);
        if contains(all[i].as_str(), "decklink") {
            return true;
        }
        i += 1;
    }
    false
}

/// `s` can be the name of an encoder.
pub open spec fn is_encoder_name(s: Seq<char>) -> bool {
    forall|i: int|
        0 <= i < s.len() ==> is_alnum(#[trigger] s[i]) || s[i] == '_' || s[i] == '-'
}

/// The video encoder that a line of FFmpeg's list names: a word of six bytes that
/// starts with a V, and after it the name.
pub open spec fn encoder_on(line: Seq<char>) -> Option<Seq<char>> {
    let w = words_of(line);
    if w.len() >= 2 && w[0].len() > 0 && w[0][0] == 'V' && encode_utf8(w[0]).len() == 6
        && is_encoder_name(w[1]) {
        Some(w[1])
    } else {
        None
    }
}

/// The video encoders that the lines of FFmpeg's list name, in order.
pub open spec fn encoders_on(all: Seq<Seq<char>>) -> Seq<Seq<char>>
    decreases all.len(),
{
    if all.len() == 0 {
        Seq::empty()
    } else {
        match encoder_on(all.last()) {
            Some(name) => encoders_on(all.drop_last()).push(name),
            None => encoders_on(all.drop_last()),
        }
    }
}

fn names_encoder(s: &str) -> (r: bool)
    ensures
        r == is_encoder_name(s@),
{
    let v: Vec<char> = to_chars(s);
    let mut i: usize = 0;
    while i < v.len()
        invariant
            i <= v@.len(),
            v@ == s@,
            forall|j: int|
                0 <= j < i ==> is_alnum(#[trigger] s@[j]) || s@[j] == '_' || s@[j] == '-',
        decreases v@.len() - i,
    {
        let c: char = v[i];
        if !(alnum(c) || c == '_' || c == '-') {
            assert(!is_alnum(s@[i as int]));
            return false;
        }
        i += 1;
    }
    true
}

fn read_encoder(line: &str) -> (r: Option<String>)
    ensures
        opt_text(r) == encoder_on(line@),
{
    let w: Vec<String> = words(line);
    let ghost t = texts(w@);
    if w.len() < 2 {
        return None;
    }
    assert(t[0] == w@[0]@ && t[1] == w@[1]@);
    let flags: Vec<char> = to_chars(w[0].as_str());
    if flags.len() == 0 || flags[0] != 'V' {
        return None;
    }
    let bytes: &[u8] = w[0].as_str().as_bytes();
    if bytes.len() == 6 && names_encoder(w[1].as_str()) {
        Some(w[1].clone())
    } else {
        None
    }
}

/// The video encoders that FFmpeg lists.
pub fn available_encoders(text: &str) -> (r: Vec<String>)
    ensures
        texts(r@) == encoders_on(lines_of(text@)),
{
    let all: Vec<String> = lines(text);
    let ghost t = texts(all@);
    let mut out: Vec<String> = Vec::new();
    let mut i: usize = 0;
    assert(t.take(0).len() == 0);
    assert(texts(out@) =~= Seq::<Seq<char>>::empty());
    while i < all.len()
        invariant
            i <= all@.len(),
            t == texts(all@),
            texts(out@) == encoders_on(t.take(i as int)),
        decreases all@.len() - i,
    {
        assert(t.take(i + 1).drop_last() == t.take(i as int));
        assert(t.take(i + 1).last() == all@[i as int]@);
        let ghost before = texts(out@);
        if let Some(name) = read_encoder(all[i].as_str()) {
            out.push(name);
            assert(texts(out@) =~= before.push(name@));
        }
        i += 1;
    }
    assert(t.take(i as int) == t);
    out
}

} // verus!
