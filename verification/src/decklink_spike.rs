//! A trial of several capture cards at once: each is fed a test picture for a while,
//! and it is told whether all of them held out.
use vstd::prelude::*;
use vstd::string::*;
use vstd::utf8::*;

use crate::decklink::{list_names, listed_names};
use crate::number::{
    decimal, decimal_int, lowered, parse_u64, parse_up_to, parsed, show, show_signed, to_lower,
};
use crate::progress::{is_float, is_float_text};
use crate::scan::{
    contains, finishes, holds, lines_of, pieces, position, split, split_once, strip_suffix, trim,
    trimmed, words, words_of,
};
use crate::srt_handshake::std_from_utf8;
use crate::supervisor::{line_texts, std_lossy, Lines};
use crate::text::{
    args, cat2, cat3, cat4, cat5, cat6, copy_texts, join, joined, opt_text, same, slice_text,
    str_texts, texts, to_chars,
};
use crate::unifi::snippet;

verus! {

/// So long a trial lasts if nothing else is said.
pub const DEFAULT_DURATION_SECS: u64 = 300;

/// So many cards are tried if nothing else is said.
pub const DEFAULT_COUNT: usize = 8;

/// The mode that is tried if nothing else is said.
pub const DEFAULT_FORMAT_CODE: &'static str = "Hp29";

/// A card that shows no progress for so many seconds is given up.
pub const NO_PROGRESS_TIMEOUT_SECS: u64 = 15;

/// A line is read no further than so many bytes.
pub const LINE_LIMIT: usize = 4096;

// ---------------------------------------------------------------------------
// The command line
// ---------------------------------------------------------------------------

/// The value after the first place where `name` stands.
pub open spec fn value_of(v: Seq<Seq<char>>, name: Seq<char>) -> Option<Seq<char>>
    decreases v.len(),
{
    if v.len() == 0 {
        None
    } else if v[0] == name {
        if v.len() > 1 {
            Some(v[1])
        } else {
            None
        }
    } else {
        value_of(v.drop_first(), name)
    }
}

/// The value after the first place where `name` stands.
pub fn parse_string_arg(v: &Vec<String>, name: &str) -> (r: Option<String>)
    ensures
        opt_text(r) == value_of(texts(v@), name@),
{
    let ghost t = texts(v@);
    let mut i: usize = 0;
    assert(t.skip(0) =~= t);
    while i < v.len()
        invariant
            i <= v@.len(),
            t == texts(v@),
            value_of(t, name@) == value_of(t.skip(i as int), name@),
        decreases v@.len() - i,
    {
        assert(t.skip(i as int)[0] == v@[i as int]@);
        assert(t.skip(i as int).drop_first() =~= t.skip(i + 1));
        if same(v[i].as_str(), name) {
            if i < v.len() - 1 {
                assert(t.skip(i as int)[1] == v@[i + 1]@);
                return Some(v[i + 1].clone());
            }
            return None;
        }
        i += 1;
    }
    None
}

/// The number after the first place where `name` stands, if it is one.
pub fn parse_u64_arg(v: &Vec<String>, name: &str) -> (r: Option<u64>)
    ensures
        r == (match value_of(texts(v@), name@) {
            Some(x) => match parsed(x, u64::MAX as int) {
                Some(n) => Some(n as u64),
                None => None,
            },
            None => None,
        }),
{
    match parse_string_arg(v, name) {
        Some(x) => parse_u64(x.as_str()),
        None => None,
    }
}

/// The number after the first place where `name` stands, if it is one that can count
/// things.
pub fn parse_usize_arg(v: &Vec<String>, name: &str) -> (r: Option<usize>)
    ensures
        r == (match value_of(texts(v@), name@) {
            Some(x) => match parsed(x, usize::MAX as int) {
                Some(n) => Some(n as usize),
                None => None,
            },
            None => None,
        }),
{
    match parse_string_arg(v, name) {
        Some(x) => match parse_up_to(x.as_str(), usize::MAX as u64) {
            Some(n) => Some(n as usize),
            None => None,
        },
        None => None,
    }
}

/// What a trial is asked to do.
#[derive(Debug)]
pub struct SpikeOptions {
    pub ffmpeg: Option<String>,
    pub count: usize,
    pub duration_secs: u64,
    pub format_code: String,
    /// The cards that are named.
    pub devices: Option<Vec<String>>,
}

/// The parts of a list that are not blank, trimmed.
pub open spec fn listed_parts(v: Seq<Seq<char>>) -> Seq<Seq<char>>
    decreases v.len(),
{
    if v.len() == 0 {
        Seq::empty()
    } else if trimmed(v.last()).len() == 0 {
        listed_parts(v.drop_last())
    } else {
        listed_parts(v.drop_last()).push(trimmed(v.last()))
    }
}

fn list_parts(csv: &str) -> (r: Vec<String>)
    ensures
        texts(r@) == listed_parts(pieces(csv@, ',')),
{
    let parts: Vec<String> = split(csv, ',');
    let ghost t = texts(parts@);
    let mut out: Vec<String> = Vec::new();
    let mut i: usize = 0;
    assert(texts(out@) =~= listed_parts(t.take(0)));
    while i < parts.len()
        invariant
            i <= parts@.len(),
            t == texts(parts@),
            texts(out@) == listed_parts(t.take(i as int)),
        decreases parts@.len() - i,
    {
        let p: String = trim(parts[i].as_str());
        assert(t.take(i + 1).drop_last() =~= t.take(i as int));
        assert(t.take(i + 1).last() == parts@[i as int]@);
        if !p.as_str().is_empty() {
            let ghost had = out@;
            let ghost kept = p@;
            out.push(p);
            assert(texts(out@) =~= texts(had).push(kept));
        }
        i += 1;
    }
    assert(t.take(i as int) =~= t);
    out
}

/// The number that an argument gives, or another.
pub open spec fn number_or(x: Option<Seq<char>>, max: int, other: int) -> int {
    match x {
        Some(t) => match parsed(t, max) {
            Some(n) => n as int,
            None => other,
        },
        None => other,
    }
}

impl SpikeOptions {
    /// What the arguments ask of a trial. A number that cannot be read is as if it were
    /// not there.
    pub fn from_args(v: &Vec<String>) -> (r: SpikeOptions)
        ensures
            opt_text(r.ffmpeg) == value_of(texts(v@), "--ffmpeg"@),
            r.count == number_or(
                value_of(texts(v@), "--count"@),
                usize::MAX as int,
                DEFAULT_COUNT as int,
            ),
            r.duration_secs == number_or(
                value_of(texts(v@), "--duration"@),
                u64::MAX as int,
                DEFAULT_DURATION_SECS as int,
            ),
            r.format_code@ == (match value_of(texts(v@), "--format-code"@) {
                Some(c) => c,
                None => DEFAULT_FORMAT_CODE@,
            }),
            match value_of(texts(v@), "--devices"@) {
                Some(csv) => r.devices matches Some(d) && texts(d@) == listed_parts(
                    pieces(csv, ','),
                ),
                None => r.devices is None,
            },
    {
        let count: usize = match parse_usize_arg(v, "--count") {
            Some(n) => n,
            None => DEFAULT_COUNT,
        };
        let duration_secs: u64 = match parse_u64_arg(v, "--duration") {
            Some(n) => n,
            None => DEFAULT_DURATION_SECS,
        };
        let format_code: String = match parse_string_arg(v, "--format-code") {
            Some(c) => c,
            None => DEFAULT_FORMAT_CODE.to_owned(),
        };
        let devices: Option<Vec<String>> = match parse_string_arg(v, "--devices") {
            Some(csv) => Some(list_parts(csv.as_str())),
            None => None,
        };
        SpikeOptions {
            ffmpeg: parse_string_arg(v, "--ffmpeg"),
            count,
            duration_secs,
            format_code,
            devices,
        }
    }

    /// The cards that are tried: those that are named, or else the first that were
    /// found.
    pub fn chosen_devices(&self, found: &Vec<String>) -> (r: Vec<String>)
        ensures
            texts(r@) == (match self.devices {
                Some(d) => texts(d@),
                None => if self.count < found@.len() {
                    texts(found@).take(self.count as int)
                } else {
                    texts(found@)
                },
            }),
    {
        match &self.devices {
            Some(d) => copy_texts(d),
            None => {
                let mut out: Vec<String> = Vec::new();
                let mut i: usize = 0;
                while i < found.len() && i < self.count
                    invariant
                        i <= found@.len(),
                        i <= self.count,
                        out@.len() == i,
                        forall|j: int| 0 <= j < i ==> (#[trigger] out@[j])@ == found@[j]@,
                    decreases found@.len() - i,
                {
                    out.push(found[i].clone());
                    i += 1;
                }
                assert(texts(out@) =~= texts(found@).take(i as int));
                assert(texts(found@).take(found@.len() as int) =~= texts(found@));
                out
            },
        }
    }
}

/// Which FFmpeg is used: the one that the user names, if it exists and a name is given;
/// else the first of some places that exists; else the one that the system finds.
pub fn resolve_ffmpeg(named: Option<String>, named_exists: bool, found: Option<String>) -> (r:
    String)
    ensures
        r@ == (if named is Some && named->0@.len() > 0 && named_exists {
            named->0@
        } else if found is Some {
            found->0@
        } else {
            "ffmpeg"@
        }),
{
    if let Some(n) = named {
        if !n.as_str().is_empty() && named_exists {
            return n;
        }
    }
    match found {
        Some(f) => f,
        None => "ffmpeg".to_owned(),
    }
}

/// Where the installed program keeps its FFmpeg, below a directory of programs.
pub fn sidecar_in(directory: &str) -> (r: String)
    ensures
        r@ == directory@ + "\\ATEM IP Patchbay\\resources\\sidecar\\ffmpeg.exe"@,
{
    cat2(directory, "\\ATEM IP Patchbay\\resources\\sidecar\\ffmpeg.exe")
}

// ---------------------------------------------------------------------------
// FFmpeg
// ---------------------------------------------------------------------------

/// The headings of FFmpeg's lists of cards.
pub open spec fn all_headings() -> Seq<Seq<char>> {
    seq![
        "Blackmagic DeckLink devices"@,
        "Blackmagic DeckLink input devices"@,
        "Blackmagic DeckLink output devices"@,
    ]
}

/// The cards in FFmpeg's list, each once, in order.
pub fn enumerate_decklink_outputs(text: &str) -> (r: Vec<String>)
    ensures
        texts(r@) == listed_names(lines_of(text@), all_headings()),
{
    let headings: [&str; 3] = [
        "Blackmagic DeckLink devices",
        "Blackmagic DeckLink input devices",
        "Blackmagic DeckLink output devices",
    ];
    assert(str_texts(headings@) =~= all_headings());
    list_names(text, &headings)
}

/// The rate of the pictures in a mode.
pub open spec fn mode_rate(code: Seq<char>) -> Seq<char> {
    if code == "Hp30"@ {
        "30"@
    } else if code == "Hp59"@ {
        "60000/1001"@
    } else if code == "Hp60"@ {
        "60"@
    } else if code == "Hp25"@ {
        "25"@
    } else if code == "Hp50"@ {
        "50"@
    } else {
        "30000/1001"@
    }
}

/// The arguments with which FFmpeg feeds a test picture to a card.
pub open spec fn trial_args(device: Seq<char>, secs: u64, code: Seq<char>) -> Seq<Seq<char>> {
    seq![
        "-hide_banner"@,
        "-loglevel"@,
        "info"@,
        "-stats_period"@,
        "1"@,
        "-f"@,
        "lavfi"@,
        "-i"@,
        "testsrc2=size=1920x1080:rate="@ + mode_rate(code) + ":duration="@ + decimal(secs as nat),
        "-f"@,
        "lavfi"@,
        "-i"@,
        "anullsrc=channel_layout=stereo:sample_rate=48000:duration="@ + decimal(secs as nat),
        "-vf"@,
        "format=uyvy422"@,
        "-c:v"@,
        "wrapped_avframe"@,
        "-c:a"@,
        "pcm_s16le"@,
        "-ar"@,
        "48000"@,
        "-ac"@,
        "2"@,
        "-t"@,
        decimal(secs as nat),
        "-f"@,
        "decklink"@,
        "-format_code"@,
        code,
        device,
    ]
}

/// The arguments with which FFmpeg feeds a test picture to a card.
pub fn build_ffmpeg_args(device: &str, duration_secs: u64, format_code: &str) -> (r: Vec<String>)
    ensures
        texts(r@) == trial_args(device@, duration_secs, format_code@),
{
    let rate: &str = if same(format_code, "Hp30") {
        "30"
    } else if same(format_code, "Hp59") {
        "60000/1001"
    } else if same(format_code, "Hp60") {
        "60"
    } else if same(format_code, "Hp25") {
        "25"
    } else if same(format_code, "Hp50") {
        "50"
    } else {
        "30000/1001"
    };
    let secs: String = show(duration_secs);
    let picture: String = cat4(
        "testsrc2=size=1920x1080:rate=",
        rate,
        ":duration=",
        secs.as_str(),
    );
    let sound: String = cat2(
        "anullsrc=channel_layout=stereo:sample_rate=48000:duration=",
        secs.as_str(),
    );
    let list: [&str; 30] = [
        "-hide_banner",
        "-loglevel",
        "info",
        "-stats_period",
        "1",
        "-f",
        "lavfi",
        "-i",
        picture.as_str(),
        "-f",
        "lavfi",
        "-i",
        sound.as_str(),
        "-vf",
        "format=uyvy422",
        "-c:v",
        "wrapped_avframe",
        "-c:a",
        "pcm_s16le",
        "-ar",
        "48000",
        "-ac",
        "2",
        "-t",
        secs.as_str(),
        "-f",
        "decklink",
        "-format_code",
        format_code,
        device,
    ];
    let mut out: Vec<String> = Vec::new();
    args(&mut out, &list);
    assert(str_texts(list@) =~= trial_args(device@, duration_secs, format_code@));
    assert(texts(out@) =~= trial_args(device@, duration_secs, format_code@));
    out
}

/// An argument as it is shown: between quotes if it holds a space.
pub open spec fn shown_arg(a: Seq<char>) -> Seq<char> {
    if holds(a, " "@) {
        "\""@ + a + "\""@
    } else {
        a
    }
}

/// Arguments as they are shown.
pub open spec fn shown_args(v: Seq<Seq<char>>) -> Seq<Seq<char>> {
    Seq::new(v.len(), |i: int| shown_arg(v[i]))
}

/// A command as it is shown.
pub fn command_preview(ffmpeg: &str, v: &Vec<String>) -> (r: String)
    ensures
        r@ == ffmpeg@ + " "@ + joined(shown_args(texts(v@)), " "@),
{
    let mut shown: Vec<String> = Vec::new();
    let mut i: usize = 0;
    while i < v.len()
        invariant
            i <= v@.len(),
            shown@.len() == i,
            forall|j: int| 0 <= j < i ==> (#[trigger] shown@[j])@ == shown_arg(v@[j]@),
        decreases v@.len() - i,
    {
        if contains(v[i].as_str(), " ") {
            shown.push(cat3("\"", v[i].as_str(), "\""));
        } else {
            shown.push(v[i].clone());
        }
        i += 1;
    }
    assert(texts(shown@) =~= shown_args(texts(v@)));
    let all: String = join(&shown, " ");
    cat3(ffmpeg, " ", all.as_str())
}

// ---------------------------------------------------------------------------
// What FFmpeg prints
// ---------------------------------------------------------------------------

/// What one more byte does: as a line ends, or as it grows too long.
pub open spec fn limited_step(l: Lines, b: u8) -> Lines {
    if b == 13 || b == 10 {
        if l.rest.len() > 0 {
            Lines { lines: l.lines.push(l.rest), rest: Seq::empty() }
        } else {
            l
        }
    } else if l.rest.len() + 1 >= LINE_LIMIT {
        Lines { lines: l.lines.push(l.rest.push(b)), rest: Seq::empty() }
    } else {
        Lines { lines: l.lines, rest: l.rest.push(b) }
    }
}

/// What the bytes of `s` do.
pub open spec fn limited_run(l: Lines, s: Seq<u8>) -> Lines
    decreases s.len(),
{
    if s.len() == 0 {
        l
    } else {
        limited_step(limited_run(l, s.drop_last()), s.last())
    }
}

/// The lines do not depend on the pieces in which the bytes arrive, and no more than
/// one line is ever held back.
pub proof fn limited_lines_in_pieces(l: Lines, a: Seq<u8>, b: Seq<u8>)
    requires
        l.rest.len() < LINE_LIMIT,
    ensures
        limited_run(l, a + b) == limited_run(limited_run(l, a), b),
        limited_run(l, a + b).rest.len() < LINE_LIMIT,
    decreases a.len() + b.len(),
{
    if b.len() == 0 {
        assert(a + b =~= a);
        if a.len() > 0 {
            limited_lines_in_pieces(l, a.drop_last(), b);
            assert(a.drop_last() + b =~= a.drop_last());
        }
    } else {
        assert((a + b).drop_last() =~= a + b.drop_last());
        limited_lines_in_pieces(l, a, b.drop_last());
    }
}

/// Bytes that FFmpeg printed, of a line that has not ended yet.
#[derive(Debug)]
pub struct LimitedSplitter {
    pub rest: Vec<u8>,
}

impl LimitedSplitter {
    /// No more is held back than a line may be long.
    pub open spec fn valid(&self) -> bool {
        self.rest@.len() < LINE_LIMIT
    }

    /// Nothing has been printed yet.
    pub fn new() -> (r: LimitedSplitter)
        ensures
            r.rest@ == Seq::<u8>::empty(),
            r.valid(),
    {
        LimitedSplitter { rest: Vec::new() }
    }

    fn flush(&mut self, out: &mut Vec<String>)
        ensures
            final(self).rest@ == Seq::<u8>::empty(),
            forall|had: Seq<Seq<u8>>|
                texts(old(out)@) == line_texts(had) ==> texts(final(out)@) == #[trigger] line_texts(
                    had.push(old(self).rest@),
                ),
    {
        let line: String = std_lossy(&self.rest);
        let ghost text = line@;
        let ghost before = texts(out@);
        let ghost bytes = self.rest@;
        out.push(line);
        self.rest = Vec::new();
        proof {
            assert(texts(out@) =~= before.push(text));
            assert forall|had: Seq<Seq<u8>>| before == line_texts(had) implies texts(out@)
                == #[trigger] line_texts(had.push(bytes)) by {
                assert(line_texts(had.push(bytes)) =~= line_texts(had).push(text));
            }
        }
    }

    /// Takes bytes; gives the lines that have ended.
    pub fn feed(&mut self, chunk: &[u8]) -> (r: Vec<String>)
        requires
            old(self).valid(),
        ensures
            final(self).valid(),
            ({
                let l = limited_run(Lines { lines: Seq::empty(), rest: old(self).rest@ }, chunk@);
                texts(r@) == line_texts(l.lines) && final(self).rest@ == l.rest
            }),
    {
        let ghost begin = Lines { lines: Seq::<Seq<u8>>::empty(), rest: self.rest@ };
        let ghost mut state = begin;
        let mut out: Vec<String> = Vec::new();
        let mut i: usize = 0;
        assert(chunk@.take(0).len() == 0);
        assert(texts(out@) =~= line_texts(state.lines));
        while i < chunk.len()
            invariant
                i <= chunk@.len(),
                self.valid(),
                state == limited_run(begin, chunk@.take(i as int)),
                self.rest@ == state.rest,
                texts(out@) == line_texts(state.lines),
            decreases chunk@.len() - i,
        {
            let b: u8 = chunk[i];
            assert(chunk@.take(i + 1).drop_last() =~= chunk@.take(i as int));
            let ghost before = state;
            proof {
                state = limited_step(state, b);
            }
            if b == 13 || b == 10 {
                if self.rest.len() > 0 {
                    self.flush(&mut out);
                    assert(texts(out@) == line_texts(before.lines.push(before.rest)));
                }
            } else {
                self.rest.push(b);
                if self.rest.len() >= LINE_LIMIT {
                    self.flush(&mut out);
                    assert(texts(out@) == line_texts(before.lines.push(before.rest.push(b))));
                }
            }
            i += 1;
        }
        assert(chunk@.take(i as int) =~= chunk@);
        out
    }

    /// No more bytes come: gives the line at hand, if there is one.
    pub fn finish(&mut self) -> (r: Option<String>)
        ensures
            final(self).rest@ == Seq::<u8>::empty(),
            r is Some <==> old(self).rest@.len() > 0,
            r matches Some(x) ==> x@ == line_texts(seq![old(self).rest@])[0],
    {
        if self.rest.len() == 0 {
            assert(self.rest@ =~= Seq::<u8>::empty());
            return None;
        }
        let line: String = std_lossy(&self.rest);
        self.rest = Vec::new();
        Some(line)
    }
}

/// The figures in a line of progress.
#[derive(Debug)]
pub struct ProgressWords {
    pub frames: u64,
    /// The pictures a second; none are told if `None`.
    pub fps: Option<String>,
    /// The kilobits a second.
    pub bitrate: Option<String>,
}

/// How far the words of a line have been read. `key` is what the next word belongs to.
pub struct WordsModel {
    pub frames: u64,
    pub fps: Option<Seq<char>>,
    pub bitrate: Option<Seq<char>>,
    pub key: Option<Seq<char>>,
}

/// No word has been read.
pub open spec fn no_words() -> WordsModel {
    WordsModel { frames: 0, fps: None, bitrate: None, key: None }
}

/// The figures with one more. What cannot be read changes nothing.
pub open spec fn assigned(m: WordsModel, key: Seq<char>, value: Seq<char>) -> WordsModel {
    if key == "frame"@ {
        match parsed(value, u64::MAX as int) {
            Some(n) => WordsModel { frames: n as u64, ..m },
            None => m,
        }
    } else if key == "fps"@ {
        if is_float_text(value) {
            WordsModel { fps: Some(value), ..m }
        } else {
            m
        }
    } else if key == "bitrate"@ {
        let n = value.take(value.len() - "kbits/s"@.len());
        if finishes(value, "kbits/s"@) && is_float_text(n) {
            WordsModel { bitrate: Some(n), ..m }
        } else {
            m
        }
    } else {
        m
    }
}

/// What one more word does. A figure's name and its value are one word, or two.
pub open spec fn word_step(m: WordsModel, w: Seq<char>) -> WordsModel {
    let i = position(w, '=') as int;
    if i < w.len() {
        if i + 1 == w.len() {
            WordsModel { key: Some(w.take(i)), ..m }
        } else {
            WordsModel { key: None, ..assigned(m, w.take(i), w.skip(i + 1)) }
        }
    } else {
        match m.key {
            Some(k) => WordsModel { key: None, ..assigned(m, k, w) },
            None => m,
        }
    }
}

/// What words do, one after the other.
pub open spec fn word_run(words: Seq<Seq<char>>) -> WordsModel
    decreases words.len(),
{
    if words.len() == 0 {
        no_words()
    } else {
        word_step(word_run(words.drop_last()), words.last())
    }
}

impl ProgressWords {
    /// What has been read, with the name that the next word belongs to.
    pub open spec fn with_key(&self, key: Option<String>) -> WordsModel {
        WordsModel {
            frames: self.frames,
            fps: opt_text(self.fps),
            bitrate: opt_text(self.bitrate),
            key: opt_text(key),
        }
    }

    fn assign(&mut self, key: &str, value: &str)
        ensures
            forall|k: Option<String>|
                #[trigger] final(self).with_key(k) == assigned(old(self).with_key(k), key@, value@),
    {
        if same(key, "frame") {
            if let Some(n) = parse_u64(value) {
                self.frames = n;
            }
        } else if same(key, "fps") {
            if is_float(value) {
                self.fps = Some(value.to_owned());
            }
        } else if same(key, "bitrate") {
            if let Some(n) = strip_suffix(value, "kbits/s") {
                if is_float(n.as_str()) {
                    self.bitrate = Some(n);
                }
            }
        }
    }
}

/// The figures in a line of progress.
pub fn parse_progress(line: &str) -> (r: ProgressWords)
    ensures
        ({
            let m = word_run(words_of(line@));
            r.frames == m.frames && opt_text(r.fps) == m.fps && opt_text(r.bitrate) == m.bitrate
        }),
{
    let all: Vec<String> = words(line);
    let ghost t = texts(all@);
    let mut p: ProgressWords = ProgressWords { frames: 0, fps: None, bitrate: None };
    let mut key: Option<String> = None;
    let mut i: usize = 0;
    assert(t.take(0).len() == 0);
    while i < all.len()
        invariant
            i <= all@.len(),
            t == texts(all@),
            p.with_key(key) == word_run(t.take(i as int)),
        decreases all@.len() - i,
    {
        let w: &str = all[i].as_str();
        let ghost before = p;
        let ghost key_before = key;
        assert(t.take(i + 1).drop_last() =~= t.take(i as int));
        assert(t.take(i + 1).last() == w@);
        match split_once(w, '=') {
            Some((k, v)) => {
                if v.as_str().is_empty() {
                    key = Some(k);
                } else {
                    p.assign(k.as_str(), v.as_str());
                    assert(p.with_key(key_before) == assigned(
                        before.with_key(key_before),
                        k@,
                        v@,
                    ));
                    key = None;
                }
            },
            None => {
                match key {
                    Some(k) => {
                        p.assign(k.as_str(), w);
                        assert(p.with_key(key_before) == assigned(
                            before.with_key(key_before),
                            k@,
                            w@,
                        ));
                        key = None;
                    },
                    None => {
                        key = None;
                    },
                }
            },
        }
        i += 1;
    }
    assert(t.take(i as int) =~= t);
    p
}

/// What a line of FFmpeg's output tells.
#[derive(Debug)]
pub enum SpikeLine {
    /// The card has taken the mode.
    Negotiated,
    Progress(ProgressWords),
    /// What went wrong.
    Fault(String),
    Other,
}

/// A line that tells that something went wrong, in lower case.
pub open spec fn is_fault(low: Seq<char>) -> bool {
    holds(low, "error"@) || holds(low, "could not"@) || holds(low, "failed"@) || holds(
        low,
        "invalid"@,
    ) || holds(low, "unable"@)
}

/// What a line of FFmpeg's output tells.
pub open spec fn is_told(line: Seq<char>, told: SpikeLine) -> bool {
    if holds(lowered(line), "found decklink mode"@) {
        told is Negotiated
    } else if holds(line, "frame="@) && holds(line, "fps="@) {
        let m = word_run(words_of(line));
        told matches SpikeLine::Progress(p) && p.frames == m.frames && opt_text(p.fps) == m.fps
            && opt_text(p.bitrate) == m.bitrate
    } else if is_fault(lowered(line)) {
        told matches SpikeLine::Fault(e) && e@ == trimmed(line)
    } else {
        told is Other
    }
}

/// What a line of FFmpeg's output tells.
pub fn read_stderr_line(line: &str) -> (r: SpikeLine)
    ensures
        is_told(line@, r),
{
    let low: String = to_lower(line);
    if contains(low.as_str(), "found decklink mode") {
        return SpikeLine::Negotiated;
    }
    if contains(line, "frame=") && contains(line, "fps=") {
        return SpikeLine::Progress(parse_progress(line));
    }
    if contains(low.as_str(), "error") || contains(low.as_str(), "could not") || contains(
        low.as_str(),
        "failed",
    ) || contains(low.as_str(), "invalid") || contains(low.as_str(), "unable") {
        return SpikeLine::Fault(trim(line));
    }
    SpikeLine::Other
}

// ---------------------------------------------------------------------------
// The cards
// ---------------------------------------------------------------------------

/// A card under trial. Times are in nanoseconds.
#[derive(Debug)]
pub struct TileState {
    pub idx: usize,
    pub device: String,
    /// The pictures a second, as they are printed; none yet if `None`.
    pub fps: Option<String>,
    pub frames: u64,
    /// The kilobits a second, as they are printed.
    pub bitrate_kbps: Option<String>,
    pub started_at: u64,
    pub last_progress: u64,
    pub alive: bool,
    pub exit_status: Option<String>,
    pub last_err_line: Option<String>,
    pub decklink_negotiated: bool,
}

/// What a `TileState` holds.
pub struct TileModel {
    pub idx: usize,
    pub device: Seq<char>,
    pub fps: Option<Seq<char>>,
    pub frames: u64,
    pub bitrate_kbps: Option<Seq<char>>,
    pub started_at: u64,
    pub last_progress: u64,
    pub alive: bool,
    pub exit_status: Option<Seq<char>>,
    pub last_err_line: Option<Seq<char>>,
    pub decklink_negotiated: bool,
}

impl View for TileState {
    type V = TileModel;

    open spec fn view(&self) -> TileModel {
        TileModel {
            idx: self.idx,
            device: self.device@,
            fps: opt_text(self.fps),
            frames: self.frames,
            bitrate_kbps: opt_text(self.bitrate_kbps),
            started_at: self.started_at,
            last_progress: self.last_progress,
            alive: self.alive,
            exit_status: opt_text(self.exit_status),
            last_err_line: opt_text(self.last_err_line),
            decklink_negotiated: self.decklink_negotiated,
        }
    }
}

/// A card at the start of a trial.
pub open spec fn fresh_tile(idx: usize, device: Seq<char>, now: u64) -> TileModel {
    TileModel {
        idx,
        device,
        fps: None,
        frames: 0,
        bitrate_kbps: None,
        started_at: now,
        last_progress: now,
        alive: true,
        exit_status: None,
        last_err_line: None,
        decklink_negotiated: false,
    }
}

/// A card after a line. `has_rate` says that the kilobits a second in it are more than
/// none.
pub open spec fn after_line(m: TileModel, told: SpikeLine, has_rate: bool, now: u64) -> TileModel {
    match told {
        SpikeLine::Negotiated => TileModel { decklink_negotiated: true, last_progress: now, ..m },
        SpikeLine::Progress(p) => TileModel {
            frames: if p.frames > m.frames {
                p.frames
            } else {
                m.frames
            },
            fps: opt_text(p.fps),
            bitrate_kbps: if has_rate {
                opt_text(p.bitrate)
            } else {
                m.bitrate_kbps
            },
            last_progress: now,
            ..m
        },
        SpikeLine::Fault(e) => TileModel { last_err_line: Some(e@), ..m },
        SpikeLine::Other => m,
    }
}

/// A card that is given up, unless it has been already.
pub open spec fn given_up(m: TileModel, why: Seq<char>) -> TileModel {
    if m.alive {
        TileModel { alive: false, exit_status: Some(why), ..m }
    } else {
        m
    }
}

/// A card has shown no progress for too long.
pub open spec fn is_stalled(m: TileModel, now: u64) -> bool {
    m.alive && now >= m.last_progress && (now - m.last_progress) / 1_000_000_000
        >= NO_PROGRESS_TIMEOUT_SECS
}

/// An exit code, if there is one.
pub open spec fn code_text(code: Option<i32>) -> Seq<char> {
    match code {
        Some(c) => "Some("@ + decimal_int(c as int) + ")"@,
        None => "None"@,
    }
}

impl TileState {
    /// A card at the start of a trial.
    pub fn new(idx: usize, device: String, now: u64) -> (r: TileState)
        ensures
            r@ == fresh_tile(idx, device@, now),
    {
        TileState {
            idx,
            device,
            fps: None,
            frames: 0,
            bitrate_kbps: None,
            started_at: now,
            last_progress: now,
            alive: true,
            exit_status: None,
            last_err_line: None,
            decklink_negotiated: false,
        }
    }

    /// Takes note of a line. `has_rate` says that the kilobits a second in it are more
    /// than none.
    pub fn take_line(&mut self, told: SpikeLine, has_rate: bool, now: u64)
        ensures
            final(self)@ == after_line(old(self)@, told, has_rate, now),
    {
        match told {
            SpikeLine::Negotiated => {
                self.decklink_negotiated = true;
                self.last_progress = now;
            },
            SpikeLine::Progress(p) => {
                if p.frames > self.frames {
                    self.frames = p.frames;
                }
                self.fps = p.fps;
                if has_rate {
                    self.bitrate_kbps = p.bitrate;
                }
                self.last_progress = now;
            },
            SpikeLine::Fault(e) => {
                self.last_err_line = Some(e);
            },
            SpikeLine::Other => {},
        }
    }

    /// FFmpeg could not be started.
    pub fn spawn_failed(&mut self, error: &str)
        ensures
            final(self)@ == (TileModel {
                alive: false,
                exit_status: Some("spawn failed: "@ + error@),
                ..old(self)@
            }),
    {
        self.alive = false;
        self.exit_status = Some(cat2("spawn failed: ", error));
    }

    /// FFmpeg has ended. `after` is the time in seconds, as it is printed.
    pub fn exited(&mut self, code: Option<i32>, after: &str)
        ensures
            final(self)@ == given_up(
                old(self)@,
                "exited with "@ + code_text(code) + " after "@ + after@ + "s"@,
            ),
    {
        if self.alive {
            let c: String = match code {
                Some(n) => {
                    let t: String = show_signed(n as i64);
                    cat3("Some(", t.as_str(), ")")
                },
                None => "None".to_owned(),
            };
            self.alive = false;
            self.exit_status = Some(cat5("exited with ", c.as_str(), " after ", after, "s"));
        }
    }

    /// Gives the card up if it has shown no progress for too long.
    pub fn check_stall(&mut self, now: u64)
        ensures
            final(self)@ == (if is_stalled(old(self)@, now) {
                given_up(old(self)@, "stalled — no progress for 15s"@)
            } else {
                old(self)@
            }),
    {
        if self.alive && now >= self.last_progress && (now - self.last_progress) / 1_000_000_000
            >= NO_PROGRESS_TIMEOUT_SECS {
            self.alive = false;
            self.exit_status = Some("stalled — no progress for 15s".to_owned());
        }
    }

    /// How the card is doing, in a word.
    pub fn badge(&self) -> (r: &'static str)
        ensures
            r@ == (if !self.alive {
                "DEAD"@
            } else if self.decklink_negotiated {
                "OK"@
            } else {
                "WAIT"@
            }),
    {
        if self.alive {
            if self.decklink_negotiated {
                "OK"
            } else {
                "WAIT"
            }
        } else {
            "DEAD"
        }
    }

    /// What is to be said of the card.
    pub fn note(&self) -> (r: String)
        ensures
            r@ == tile_note(self@),
    {
        if !self.alive {
            match &self.exit_status {
                Some(e) => first_chars(e.as_str(), 60),
                None => "dead".to_owned(),
            }
        } else {
            match &self.last_err_line {
                Some(e) => {
                    let t: String = first_chars(e.as_str(), 50);
                    cat2("err: ", t.as_str())
                },
                None => if self.decklink_negotiated {
                    String::new()
                } else {
                    "negotiating decklink…".to_owned()
                },
            }
        }
    }

    /// The card's name where there is little room: of a long one only the first 37
    /// bytes, which have to be whole characters.
    pub fn short_name(&self) -> (r: String)
        requires
            encode_utf8(self.device@).len() > 38 ==> valid_utf8(encode_utf8(self.device@).take(37)),
        ensures
            r@ == (if encode_utf8(self.device@).len() > 38 {
                decode_utf8(encode_utf8(self.device@).take(37)) + "…"@
            } else {
                self.device@
            }),
    {
        let bytes: &[u8] = self.device.as_str().as_bytes();
        if bytes.len() <= 38 {
            return self.device.clone();
        }
        let mut short: Vec<u8> = Vec::new();
        let mut i: usize = 0;
        while i < 37
            invariant
                i <= 37,
                bytes@.len() > 38,
                short@ == bytes@.take(i as int),
            decreases 37 - i,
        {
            short.push(bytes[i]);
            i += 1;
            assert(bytes@.take(i as int) =~= bytes@.take(i - 1).push(bytes@[i - 1]));
        }
        match std_from_utf8(short) {
            Some(t) => cat2(t.as_str(), "…"),
            None => self.device.clone(),
        }
    }
}

/// What is to be said of a card.
pub open spec fn tile_note(m: TileModel) -> Seq<char> {
    if !m.alive {
        match m.exit_status {
            Some(e) => snippet(e, 60),
            None => "dead"@,
        }
    } else {
        match m.last_err_line {
            Some(e) => "err: "@ + snippet(e, 50),
            None => if m.decklink_negotiated {
                Seq::empty()
            } else {
                "negotiating decklink…"@
            },
        }
    }
}

fn first_chars(s: &str, n: usize) -> (r: String)
    ensures
        r@ == snippet(s@, n as int),
{
    let v: Vec<char> = to_chars(s);
    let k: usize = if v.len() > n {
        n
    } else {
        v.len()
    };
    let r: String = slice_text(&v, 0, k);
    assert(r@ =~= snippet(s@, n as int));
    r
}

/// Once a card has been given up, no line and no wait brings it back, and why it was
/// given up stays.
pub proof fn given_up_for_good(m: TileModel, told: SpikeLine, has_rate: bool, now: u64, why: Seq<char>)
    requires
        !m.alive,
    ensures
        !after_line(m, told, has_rate, now).alive,
        after_line(m, told, has_rate, now).exit_status == m.exit_status,
        given_up(m, why) == m,
        !is_stalled(m, now),
{
}

// ---------------------------------------------------------------------------
// The outcome
// ---------------------------------------------------------------------------

/// What the cards hold.
pub open spec fn tile_models(v: Seq<TileState>) -> Seq<TileModel> {
    Seq::new(v.len(), |i: int| v[i]@)
}

/// How many cards have been given up.
pub open spec fn dead_count(v: Seq<TileModel>) -> nat
    decreases v.len(),
{
    if v.len() == 0 {
        0
    } else if v.last().alive {
        dead_count(v.drop_last())
    } else {
        dead_count(v.drop_last()) + 1
    }
}

/// What is told of a card that was given up.
pub open spec fn death_lines(m: TileModel) -> Seq<Seq<char>> {
    let first = "  ["@ + decimal(m.idx as nat) + "] "@ + m.device + " — "@ + match m.exit_status {
        Some(e) => e,
        None => "unknown"@,
    };
    match m.last_err_line {
        Some(e) => seq![first, "      last err: "@ + e],
        None => seq![first],
    }
}

/// What is told of the cards that were given up.
pub open spec fn all_deaths(v: Seq<TileModel>) -> Seq<Seq<char>>
    decreases v.len(),
{
    if v.len() == 0 {
        Seq::empty()
    } else if v.last().alive {
        all_deaths(v.drop_last())
    } else {
        all_deaths(v.drop_last()) + death_lines(v.last())
    }
}

/// What is told at the end of a trial.
pub open spec fn verdict_lines(v: Seq<TileModel>, secs: u64) -> Seq<Seq<char>> {
    if dead_count(v) == 0 {
        seq![
            "PASS: all "@ + decimal(v.len()) + " child(ren) held their DeckLink output for the full "@
                + decimal(secs as nat) + "s."@,
            "Implication: single-process Option A is viable."@,
            "  Bump EncoderFleet::TILE_COUNT to 8 in fleet.rs and proceed."@,
        ]
    } else {
        seq![
            "FAIL: "@ + decimal(dead_count(v)) + " of "@ + decimal(v.len())
                + " child(ren) died or stalled during the run."@,
        ] + all_deaths(v) + seq![
            "Implication: pursue Option B (N processes via spawn_instance)."@,
            "  Even one death under sustained load = the multiview UI"@,
            "  needs kernel-level isolation, not just per-tile supervisor."@,
        ]
    }
}

/// What a trial ends with.
#[derive(Debug)]
pub struct Verdict {
    pub code: i32,
    pub lines: Vec<String>,
}

fn push_lines(out: &mut Vec<String>, line: String)
    ensures
        texts(final(out)@) == texts(old(out)@).push(line@),
{
    let ghost had = out@;
    let ghost text = line@;
    out.push(line);
    assert(texts(out@) =~= texts(had).push(text));
}

fn tell_death(t: &TileState, out: &mut Vec<String>)
    ensures
        texts(final(out)@) == texts(old(out)@) + death_lines(t@),
{
    let idx: String = show(t.idx as u64);
    let status: &str = match &t.exit_status {
        Some(e) => e.as_str(),
        None => "unknown",
    };
    let ghost had = texts(out@);
    push_lines(out, cat6("  [", idx.as_str(), "] ", t.device.as_str(), " — ", status));
    if let Some(e) = &t.last_err_line {
        push_lines(out, cat2("      last err: ", e.as_str()));
    }
    assert(texts(out@) =~= had + death_lines(t@));
}

/// What is told at the end of a trial, and the code with which the program ends: zero
/// if every card held out.
pub fn verdict(tiles: &Vec<TileState>, duration_secs: u64) -> (r: Verdict)
    ensures
        r.code == (if dead_count(tile_models(tiles@)) == 0 {
            0
        } else {
            1int
        }),
        texts(r.lines@) == verdict_lines(tile_models(tiles@), duration_secs),
{
    let ghost all = tile_models(tiles@);
    let mut dead: usize = 0;
    let mut deaths: Vec<String> = Vec::new();
    let mut i: usize = 0;
    assert(texts(deaths@) =~= Seq::<Seq<char>>::empty());
    while i < tiles.len()
        invariant
            i <= tiles@.len(),
            all == tile_models(tiles@),
            dead <= i,
            dead == dead_count(all.take(i as int)),
            texts(deaths@) == all_deaths(all.take(i as int)),
        decreases tiles@.len() - i,
    {
        assert(all.take(i + 1).drop_last() =~= all.take(i as int));
        assert(all.take(i + 1).last() == tiles@[i as int]@);
        if !tiles[i].alive {
            dead += 1;
            tell_death(&tiles[i], &mut deaths);
        }
        i += 1;
    }
    assert(all.take(i as int) =~= all);
    let n: String = show(tiles.len() as u64);
    let mut lines: Vec<String> = Vec::new();
    assert(texts(lines@) =~= Seq::<Seq<char>>::empty());
    if dead == 0 {
        let secs: String = show(duration_secs);
        push_lines(
            &mut lines,
            cat5(
                "PASS: all ",
                n.as_str(),
                " child(ren) held their DeckLink output for the full ",
                secs.as_str(),
                "s.",
            ),
        );
        push_lines(&mut lines, "Implication: single-process Option A is viable.".to_owned());
        push_lines(
            &mut lines,
            "  Bump EncoderFleet::TILE_COUNT to 8 in fleet.rs and proceed.".to_owned(),
        );
        assert(texts(lines@) =~= verdict_lines(all, duration_secs));
        return Verdict { code: 0, lines };
    }
    let d: String = show(dead as u64);
    push_lines(
        &mut lines,
        cat5(
            "FAIL: ",
            d.as_str(),
            " of ",
            n.as_str(),
            " child(ren) died or stalled during the run.",
        ),
    );
    let ghost first = texts(lines@);
    let mut k: usize = 0;
    assert(texts(deaths@).take(0) =~= Seq::<Seq<char>>::empty());
    while k < deaths.len()
        invariant
            k <= deaths@.len(),
            texts(lines@) == first + texts(deaths@).take(k as int),
        decreases deaths@.len() - k,
    {
        let ghost had = texts(lines@);
        push_lines(&mut lines, deaths[k].clone());
        assert(texts(deaths@)[k as int] == deaths@[k as int]@);
        assert(texts(lines@) =~= first + texts(deaths@).take(k + 1));
        k += 1;
    }
    assert(texts(deaths@).take(k as int) =~= texts(deaths@));
    push_lines(
        &mut lines,
        "Implication: pursue Option B (N processes via spawn_instance).".to_owned(),
    );
    push_lines(&mut lines, "  Even one death under sustained load = the multiview UI".to_owned());
    push_lines(
        &mut lines,
        "  needs kernel-level isolation, not just per-tile supervisor.".to_owned(),
    );
    assert(texts(lines@) =~= verdict_lines(all, duration_secs));
    Verdict { code: 1, lines }
}

/// Why a trial ends, if it does.
#[derive(Clone, Copy, Debug, PartialEq, Eq, Structural)]
pub enum TrialEnd {
    /// It has lasted as long as it should.
    TimeIsUp,
    /// Every card has been given up.
    AllDead,
}

/// Why a trial ends, if it does. `elapsed` is in nanoseconds.
pub fn trial_end(tiles: &Vec<TileState>, elapsed: u64, duration_secs: u64) -> (r: Option<TrialEnd>)
    ensures
        r == (if elapsed >= duration_secs * 1_000_000_000 {
            Some(TrialEnd::TimeIsUp)
        } else if dead_count(tile_models(tiles@)) == tiles@.len() {
            Some(TrialEnd::AllDead)
        } else {
            None
        }),
{
    if elapsed as u128 >= duration_secs as u128 * 1_000_000_000 {
        return Some(TrialEnd::TimeIsUp);
    }
    let ghost all = tile_models(tiles@);
    let mut dead: usize = 0;
    let mut i: usize = 0;
    while i < tiles.len()
        invariant
            i <= tiles@.len(),
            all == tile_models(tiles@),
            dead <= i,
            dead == dead_count(all.take(i as int)),
        decreases tiles@.len() - i,
    {
        assert(all.take(i + 1).drop_last() =~= all.take(i as int));
        assert(all.take(i + 1).last() == tiles@[i as int]@);
        if !tiles[i].alive {
            dead += 1;
        }
        i += 1;
    }
    assert(all.take(i as int) =~= all);
    if dead == tiles.len() {
        Some(TrialEnd::AllDead)
    } else {
        None
    }
}

/// A trial passes if and only if every card is still alive.
pub proof fn passing_means_all_alive(v: Seq<TileModel>)
    ensures
        dead_count(v) == 0 <==> forall|i: int| 0 <= i < v.len() ==> (#[trigger] v[i]).alive,
        dead_count(v) <= v.len(),
    decreases v.len(),
{
    if v.len() > 0 {
        passing_means_all_alive(v.drop_last());
        if dead_count(v) == 0 {
            assert forall|i: int| 0 <= i < v.len() implies (#[trigger] v[i]).alive by {
                if i < v.len() - 1 {
                    assert(v.drop_last()[i].alive);
                }
            }
        } else if forall|i: int| 0 <= i < v.len() ==> (#[trigger] v[i]).alive {
            assert(v.last().alive);
            assert forall|i: int| 0 <= i < v.drop_last().len() implies (
            #[trigger] v.drop_last()[i]).alive by {
                assert(v[i].alive);
            }
        }
    }
}

} // verus!
