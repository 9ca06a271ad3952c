//! What FFmpeg prints while it runs: progress, audio levels and errors.
use std::collections::VecDeque;
use vstd::prelude::*;
use vstd::string::*;

use crate::number::{
    all_digits, ascii_lower, lowered, parse_u32, parse_u64, parsed, same_ignoring_case,
    to_ascii_lower, to_lower,
};
use crate::patterns::{captured, captures, group_text, pattern_captures, Captured};
use crate::scan::{contains, find_char, find_text, found_from, holds, position, trim, trimmed};
use crate::state::{StatsModel, StreamStats};
use crate::text::{opt_text, same, slice_text, texts, to_chars};

verus! {

// ---------------------------------------------------------------------------
// Numbers with a fraction
// ---------------------------------------------------------------------------

/// `s` without a sign in front.
pub open spec fn without_sign(s: Seq<char>) -> Seq<char> {
    if s.len() > 0 && (s[0] == '+' || s[0] == '-') {
        s.skip(1)
    } else {
        s
    }
}

/// `s` is a decimal fraction: digits with at most one point among them, at least
/// one digit.
pub open spec fn is_fraction(s: Seq<char>) -> bool {
    let p = position(s, '.') as int;
    if p < s.len() {
        s.len() > 1 && all_digits(s.take(p)) && all_digits(s.skip(p + 1))
    } else {
        s.len() > 0 && all_digits(s)
    }
}

/// `s` is a number in the form of a decimal fraction with an optional power of ten.
pub open spec fn is_scientific(s: Seq<char>) -> bool {
    let p = position(ascii_lower(s), 'e') as int;
    if p < s.len() {
        let power = without_sign(s.skip(p + 1));
        is_fraction(s.take(p)) && power.len() > 0 && all_digits(power)
    } else {
        is_fraction(s)
    }
}

/// `s` is a text that stands for a floating-point number.
pub open spec fn is_float_text(s: Seq<char>) -> bool {
    let t = without_sign(s);
    ||| same_ignoring_case(t, "inf"@)
    ||| same_ignoring_case(t, "infinity"@)
    ||| same_ignoring_case(t, "nan"@)
    ||| is_scientific(t)
}

fn digits_in(v: &Vec<char>, from: usize, to: usize) -> (r: bool)
    requires
        from <= to <= v@.len(),
    ensures
        r == all_digits(v@.subrange(from as int, to as int)),
{
    let ghost part = v@.subrange(from as int, to as int);
    let mut i: usize = from;
    while i < to
        invariant
            from <= i <= to <= v@.len(),
            part == v@.subrange(from as int, to as int),
            forall|j: int| 0 <= j < i - from ==> '0' <= #[trigger] part[j] <= '9',
        decreases to - i,
    {
        let c: char = v[i];
        if c < '0' || c > '9' {
            assert(part[i - from] == c);
            return false;
        }
        i += 1;
    }
    true
}

fn fraction_in(v: &Vec<char>, from: usize, to: usize) -> (r: bool)
    requires
        from <= to <= v@.len(),
    ensures
        r == is_fraction(v@.subrange(from as int, to as int)),
{
    let text: String = slice_text(v, from, to);
    let w: Vec<char> = to_chars(text.as_str());
    let n: usize = w.len();
    let p: usize = find_char(&w, 0, '.');
    assert(w@.skip(0) == w@);
    assert(w@.subrange(0, n as int) == w@);
    if p < n {
        assert(w@.subrange(0, p as int) == w@.take(p as int));
        assert(w@.subrange(p + 1, n as int) == w@.skip(p + 1));
        n > 1 && digits_in(&w, 0, p) && digits_in(&w, p + 1, n)
    } else {
        n > 0 && digits_in(&w, 0, n)
    }
}

fn cut_sign(s: &str) -> (r: String)
    ensures
        r@ == without_sign(s@),
{
    let v: Vec<char> = to_chars(s);
    if v.len() > 0 && (v[0] == '+' || v[0] == '-') {
        let r: String = slice_text(&v, 1, v.len());
        assert(r@ == s@.skip(1));
        r
    } else {
        s.to_owned()
    }
}

/// Whether `s` stands for a floating-point number.
pub fn is_float(s: &str) -> (r: bool)
    ensures
        r == is_float_text(s@),
{
    let t: String = cut_sign(s);
    let low: String = to_ascii_lower(t.as_str());
    proof {
        reveal_strlit("inf");
        reveal_strlit("infinity");
        reveal_strlit("nan");
        assert(ascii_lower("inf"@) =~= "inf"@);
        assert(ascii_lower("infinity"@) =~= "infinity"@);
        assert(ascii_lower("nan"@) =~= "nan"@);
    }
    if same(low.as_str(), "inf") || same(low.as_str(), "infinity") || same(low.as_str(), "nan") {
        return true;
    }
    let v: Vec<char> = to_chars(t.as_str());
    let w: Vec<char> = to_chars(low.as_str());
    let n: usize = v.len();
    assert(w@.len() == n);
    let p: usize = find_char(&w, 0, 'e');
    assert(w@.skip(0) == w@);
    if p < n {
        assert(v@.subrange(0, p as int) == v@.take(p as int));
        let rest: String = slice_text(&v, p + 1, n);
        assert(rest@ == v@.skip(p + 1));
        let power: String = cut_sign(rest.as_str());
        let d: Vec<char> = to_chars(power.as_str());
        assert(d@.subrange(0, d@.len() as int) == d@);
        fraction_in(&v, 0, p) && d.len() > 0 && digits_in(&d, 0, d.len())
    } else {
        assert(v@.subrange(0, n as int) == v@);
        fraction_in(&v, 0, n)
    }
}

// ---------------------------------------------------------------------------
// Progress
// ---------------------------------------------------------------------------

/// What a line says of the progress. Figures with a fraction are kept as they are
/// printed.
#[derive(Debug)]
pub struct Progress {
    /// In thousands of bits a second.
    pub bitrate: Option<String>,
    pub frame: Option<u64>,
    pub fps: Option<String>,
    pub speed: Option<String>,
    pub drop: Option<u64>,
    pub quality: Option<String>,
}

/// What a `Progress` holds.
pub struct ProgressModel {
    pub bitrate: Option<Seq<char>>,
    pub frame: Option<u64>,
    pub fps: Option<Seq<char>>,
    pub speed: Option<Seq<char>>,
    pub drop: Option<u64>,
    pub quality: Option<Seq<char>>,
}

impl View for Progress {
    type V = ProgressModel;

    open spec fn view(&self) -> ProgressModel {
        ProgressModel {
            bitrate: opt_text(self.bitrate),
            frame: self.frame,
            fps: opt_text(self.fps),
            speed: opt_text(self.speed),
            drop: self.drop,
            quality: opt_text(self.quality),
        }
    }
}

/// What the patterns for the figures found in a line.
#[derive(Debug)]
pub struct ProgressHits {
    pub bitrate: Option<Captured>,
    pub frame: Option<Captured>,
    pub fps: Option<Captured>,
    pub speed: Option<Captured>,
    pub drop: Option<Captured>,
    pub quality: Option<Captured>,
}

/// The figure that a pattern found, as it is printed; `None` if there is none or it
/// is no number.
pub open spec fn figure(c: Option<Seq<Option<Seq<char>>>>) -> Option<Seq<char>> {
    match c {
        Some(g) => if is_float_text(group_text(g, 1)) {
            Some(group_text(g, 1))
        } else {
            None
        },
        None => None,
    }
}

/// The whole number that a pattern found.
pub open spec fn whole_figure(c: Option<Seq<Option<Seq<char>>>>) -> Option<u64> {
    match c {
        Some(g) => match parsed(group_text(g, 1), u64::MAX as int) {
            Some(n) => Some(n as u64),
            None => None,
        },
        None => None,
    }
}

/// What the matches say of the progress.
pub open spec fn progress_of(h: ProgressHits) -> ProgressModel {
    ProgressModel {
        bitrate: figure(captured(h.bitrate)),
        frame: whole_figure(captured(h.frame)),
        fps: figure(captured(h.fps)),
        speed: figure(captured(h.speed)),
        drop: whole_figure(captured(h.drop)),
        quality: figure(captured(h.quality)),
    }
}

/// Nothing is said.
pub open spec fn says_nothing(p: ProgressModel) -> bool {
    p.bitrate is None && p.frame is None && p.fps is None && p.speed is None && p.drop is None
        && p.quality is None
}

fn read_figure(c: &Option<Captured>) -> (r: Option<String>)
    ensures
        opt_text(r) == figure(captured(*c)),
{
    match c {
        Some(g) => {
            let t: String = g.group(1);
            if is_float(t.as_str()) {
                Some(t)
            } else {
                None
            }
        },
        None => None,
    }
}

fn read_whole(c: &Option<Captured>) -> (r: Option<u64>)
    ensures
        r == whole_figure(captured(*c)),
{
    match c {
        Some(g) => {
            let t: String = g.group(1);
            parse_u64(t.as_str())
        },
        None => None,
    }
}

/// What the matches say of the progress; `None` if that is nothing.
pub fn progress_from(hits: &ProgressHits) -> (r: Option<Progress>)
    ensures
        r is None <==> says_nothing(progress_of(*hits)),
        r matches Some(p) ==> p@ == progress_of(*hits),
{
    let p: Progress = Progress {
        bitrate: read_figure(&hits.bitrate),
        frame: read_whole(&hits.frame),
        fps: read_figure(&hits.fps),
        speed: read_figure(&hits.speed),
        drop: read_whole(&hits.drop),
        quality: read_figure(&hits.quality),
    };
    if p.bitrate.is_some() || p.frame.is_some() || p.fps.is_some() || p.speed.is_some()
        || p.drop.is_some() || p.quality.is_some() {
        Some(p)
    } else {
        None
    }
}

/// What a line says of the progress.
pub open spec fn line_progress(line: Seq<char>) -> ProgressModel {
    ProgressModel {
        bitrate: figure(pattern_captures(r"bitrate=\s*([\d.]+)\s*kbits/s"@, line)),
        frame: whole_figure(pattern_captures(r"frame=\s*(\d+)"@, line)),
        fps: figure(pattern_captures(r"fps=\s*([\d.]+)"@, line)),
        speed: figure(pattern_captures(r"speed=\s*([\d.]+)x"@, line)),
        drop: whole_figure(pattern_captures(r"drop=\s*(\d+)"@, line)),
        quality: figure(pattern_captures(r"\bq=\s*([\d.]+)"@, line)),
    }
}

/// What a line says of the progress; `None` if that is nothing.
pub fn parse_progress(line: &str) -> (r: Option<Progress>)
    ensures
        r is None <==> says_nothing(line_progress(line@)),
        r matches Some(p) ==> p@ == line_progress(line@),
{
    let hits: ProgressHits = ProgressHits {
        bitrate: captures(r"bitrate=\s*([\d.]+)\s*kbits/s", line),
        frame: captures(r"frame=\s*(\d+)", line),
        fps: captures(r"fps=\s*([\d.]+)", line),
        speed: captures(r"speed=\s*([\d.]+)x", line),
        drop: captures(r"drop=\s*(\d+)", line),
        quality: captures(r"\bq=\s*([\d.]+)", line),
    };
    progress_from(&hits)
}

/// The figures of a line in the units of `StreamStats`.
#[derive(Clone, Copy, Debug)]
pub struct ProgressValues {
    pub bitrate: Option<u64>,
    pub frame: Option<u64>,
    pub fps_tenths: Option<u64>,
    pub speed_hundredths: Option<u64>,
    pub drop: Option<u64>,
    pub quality_tenths: Option<u64>,
}

/// `value`, or `default` if there is none.
pub open spec fn value_or<T>(value: Option<T>, default: T) -> T {
    match value {
        Some(v) => v,
        None => default,
    }
}

/// The figures after a line of progress: frames come out, so the stream runs.
pub open spec fn progressed(s: StatsModel, v: ProgressValues) -> StatsModel {
    StatsModel {
        status: "Streaming"@,
        bitrate: value_or(v.bitrate, s.bitrate),
        frames_sent: value_or(v.frame, s.frames_sent),
        fps_tenths: value_or(v.fps_tenths, s.fps_tenths),
        speed_hundredths: value_or(v.speed_hundredths, s.speed_hundredths),
        frames_dropped: value_or(v.drop, s.frames_dropped),
        quality_tenths: value_or(v.quality_tenths, s.quality_tenths),
        ..s
    }
}

fn pick(value: Option<u64>, default: u64) -> (r: u64)
    ensures
        r == value_or(value, default),
{
    match value {
        Some(v) => v,
        None => default,
    }
}

// ---------------------------------------------------------------------------
// Audio levels
// ---------------------------------------------------------------------------

/// Which level of a channel a line tells.
#[derive(Copy, Clone, Debug, PartialEq, Eq, Structural)]
pub enum AstatsMetric {
    Rms,
    Peak,
}

/// The level with a name, if it is one that is shown.
pub open spec fn metric_named(name: Seq<char>) -> Option<AstatsMetric> {
    if name == "RMS_level"@ {
        Some(AstatsMetric::Rms)
    } else if name == "Peak_level"@ {
        Some(AstatsMetric::Peak)
    } else {
        None
    }
}

/// The level in what follows the mark of a measurement: the channel, a point, the
/// name of the level, an equals sign, and the number.
pub open spec fn level_in(s: Seq<char>) -> Option<(u32, AstatsMetric, Seq<char>)> {
    let dot = position(s, '.') as int;
    if dot >= s.len() {
        None
    } else {
        let rest = s.skip(dot + 1);
        let eq = position(rest, '=') as int;
        match parsed(s.take(dot), u32::MAX as int) {
            None => None,
            Some(channel) => if eq >= rest.len() {
                None
            } else {
                let value = trimmed(rest.skip(eq + 1));
                match metric_named(rest.take(eq)) {
                    Some(m) if is_float_text(value) => Some((channel as u32, m, value)),
                    _ => None,
                }
            },
        }
    }
}

/// The level that a line tells: its channel, what is measured, and the number as it
/// is printed.
pub open spec fn line_level(line: Seq<char>) -> Option<(u32, AstatsMetric, Seq<char>)> {
    match found_from(line, "lavfi.astats."@, 0) {
        Some(i) => level_in(line.skip(i + 13)),
        None => None,
    }
}

/// What the result of reading a level holds.
pub open spec fn level_text(r: Option<(u32, AstatsMetric, String)>) -> Option<
    (u32, AstatsMetric, Seq<char>),
> {
    match r {
        Some(l) => Some((l.0, l.1, l.2@)),
        None => None,
    }
}

fn read_level(s: &str) -> (r: Option<(u32, AstatsMetric, String)>)
    ensures
        level_text(r) == level_in(s@),
{
    let v: Vec<char> = to_chars(s);
    let n: usize = v.len();
    let dot: usize = find_char(&v, 0, '.');
    assert(v@.skip(0) == v@);
    if dot >= n {
        return None;
    }
    let channel_text: String = slice_text(&v, 0, dot);
    assert(channel_text@ == s@.take(dot as int));
    let rest: String = slice_text(&v, dot + 1, n);
    assert(rest@ == s@.skip(dot + 1));
    let channel: u32 = match parse_u32(channel_text.as_str()) {
        Some(c) => c,
        None => return None,
    };
    let w: Vec<char> = to_chars(rest.as_str());
    let m: usize = w.len();
    let eq: usize = find_char(&w, 0, '=');
    assert(w@.skip(0) == w@);
    if eq >= m {
        return None;
    }
    let name: String = slice_text(&w, 0, eq);
    assert(name@ == rest@.take(eq as int));
    let metric: AstatsMetric = if same(name.as_str(), "RMS_level") {
        AstatsMetric::Rms
    } else if same(name.as_str(), "Peak_level") {
        AstatsMetric::Peak
    } else {
        return None;
    };
    let tail: String = slice_text(&w, eq + 1, m);
    assert(tail@ == rest@.skip(eq + 1));
    let value: String = trim(tail.as_str());
    if is_float(value.as_str()) {
        Some((channel, metric, value))
    } else {
        None
    }
}

/// The level that a line tells.
pub fn parse_astats_line(line: &str) -> (r: Option<(u32, AstatsMetric, String)>)
    ensures
        level_text(r) == line_level(line@),
{
    let v: Vec<char> = to_chars(line);
    let mark: Vec<char> = to_chars("lavfi.astats.");
    proof {
        reveal_strlit("lavfi.astats.");
    }
    match find_text(&v, &mark, 0) {
        Some(i) => {
            let n: usize = v.len();
            assert(i + mark@.len() <= n);
            let rest: String = slice_text(&v, i + 13, n);
            assert(rest@ == line@.skip(i + 13));
            read_level(rest.as_str())
        },
        None => None,
    }
}

/// The figures after a level: the first channel is the left one and the second the
/// right one; others are not shown.
pub open spec fn levelled(
    s: StatsModel,
    channel: u32,
    metric: AstatsMetric,
    value: Seq<char>,
    now: u64,
) -> StatsModel {
    match metric {
        AstatsMetric::Rms => if channel == 1 {
            StatsModel { audio_db_rms_l: value, audio_levels_at: now, ..s }
        } else if channel == 2 {
            StatsModel { audio_db_rms_r: value, audio_levels_at: now, ..s }
        } else {
            s
        },
        AstatsMetric::Peak => if channel == 1 {
            StatsModel { audio_db_peak_l: value, audio_levels_at: now, ..s }
        } else if channel == 2 {
            StatsModel { audio_db_peak_r: value, audio_levels_at: now, ..s }
        } else {
            s
        },
    }
}

impl StreamStats {
    /// Takes the figures of a line of progress.
    pub fn apply_progress(&mut self, v: &ProgressValues)
        ensures
            final(self)@ == progressed(old(self)@, *v),
    {
        self.status = "Streaming".to_owned();
        self.bitrate = pick(v.bitrate, self.bitrate);
        self.frames_sent = pick(v.frame, self.frames_sent);
        self.fps_tenths = pick(v.fps_tenths, self.fps_tenths);
        self.speed_hundredths = pick(v.speed_hundredths, self.speed_hundredths);
        self.frames_dropped = pick(v.drop, self.frames_dropped);
        self.quality_tenths = pick(v.quality_tenths, self.quality_tenths);
    }

    /// Takes a level.
    pub fn apply_level(&mut self, channel: u32, metric: AstatsMetric, value: String, now: u64)
        ensures
            final(self)@ == levelled(old(self)@, channel, metric, value@, now),
    {
        if channel != 1 && channel != 2 {
            return;
        }
        match metric {
            AstatsMetric::Rms => if channel == 1 {
                self.audio_db_rms_l = value;
            } else {
                self.audio_db_rms_r = value;
            },
            AstatsMetric::Peak => if channel == 1 {
                self.audio_db_peak_l = value;
            } else {
                self.audio_db_peak_r = value;
            },
        }
        self.audio_levels_at = now;
    }
}

// ---------------------------------------------------------------------------
// Lines
// ---------------------------------------------------------------------------

/// The texts in a line that mean that the stream will not go on.
pub open spec fn error_tags() -> Seq<Seq<char>> {
    seq![
        "connection refused"@,
        "connection setup failure"@,
        "operation timed out"@,
        "no route to host"@,
        "srt error"@,
        "protocol not found"@,
        "input/output error"@,
        "error opening output"@,
        "could not write header"@,
        "broken pipe"@,
        "connection reset"@,
        "no such file or directory"@,
    ]
}

/// One of the texts stands in a line that is in lower case.
pub open spec fn tells_error(lower: Seq<char>) -> bool {
    exists|i: int| 0 <= i < error_tags().len() && holds(lower, #[trigger] error_tags()[i])
}

fn shows_error(lower: &str) -> (r: bool)
    ensures
        r == tells_error(lower@),
{
    let tags: [&str; 12] = [
        "connection refused",
        "connection setup failure",
        "operation timed out",
        "no route to host",
        "srt error",
        "protocol not found",
        "input/output error",
        "error opening output",
        "could not write header",
        "broken pipe",
        "connection reset",
        "no such file or directory",
    ];
    assert forall|j: int| 0 <= j < 12 implies (#[trigger] tags@[j])@ == error_tags()[j] by {}
    let mut i: usize = 0;
    while i < 12
        invariant
            i <= 12,
            tags@.len() == 12,
            error_tags().len() == 12,
            forall|j: int| 0 <= j < 12 ==> (#[trigger] tags@[j])@ == error_tags()[j],
            forall|j: int| 0 <= j < i ==> !holds(lower@, #[trigger] error_tags()[j]),
        decreases 12 - i,
    {
        assert(tags@[i as int]@ == error_tags()[i as int]);
        if contains(lower, tags[i]) {
            return true;
        }
        i += 1;
    }
    false
}

/// The figures after an ordinary line with the progress that it tells. A connection
/// or progress means that the stream runs; an error goes last.
pub open spec fn after_line(s: StatsModel, line: Seq<char>, v: Option<ProgressValues>) -> StatsModel {
    let low = lowered(line);
    let connected = if holds(low, "connection established"@) {
        StatsModel { status: "Streaming"@, ..s }
    } else {
        s
    };
    let moved = match v {
        Some(p) => progressed(connected, p),
        None => connected,
    };
    if tells_error(low) {
        StatsModel { status: "Interrupted"@, error: Some(line), ..moved }
    } else {
        moved
    }
}

/// The figures after a line that tells levels.
pub open spec fn after_level_line(s: StatsModel, line: Seq<char>, now: u64) -> StatsModel {
    match line_level(line) {
        Some(l) => levelled(s, l.0, l.1, l.2, now),
        None => s,
    }
}

/// Lines that tell levels come too often to be kept.
pub open spec fn is_level_line(line: Seq<char>) -> bool {
    holds(line, "lavfi.astats."@)
}

/// The lines that are kept: the last ones that FFmpeg printed.
pub const LOG_TAIL_CAPACITY: usize = 500;

/// The last lines that FFmpeg printed.
#[derive(Debug)]
pub struct LogTail {
    pub lines: VecDeque<String>,
}

impl View for LogTail {
    type V = Seq<Seq<char>>;

    open spec fn view(&self) -> Seq<Seq<char>> {
        texts(self.lines@)
    }
}

/// The kept lines after one more.
pub open spec fn kept(lines: Seq<Seq<char>>, line: Seq<char>) -> Seq<Seq<char>> {
    if lines.len() >= LOG_TAIL_CAPACITY {
        lines.skip(1).push(line)
    } else {
        lines.push(line)
    }
}

/// The last `n` of the lines, or all if there are fewer.
pub open spec fn last_lines(lines: Seq<Seq<char>>, n: nat) -> Seq<Seq<char>> {
    if lines.len() <= n {
        lines
    } else {
        lines.skip(lines.len() - n)
    }
}

impl LogTail {
    /// No more lines are kept than there is room for.
    pub open spec fn valid(&self) -> bool {
        self@.len() <= LOG_TAIL_CAPACITY
    }

    /// No lines.
    pub fn new() -> (r: LogTail)
        ensures
            r@ == Seq::<Seq<char>>::empty(),
            r.valid(),
    {
        let r: LogTail = LogTail { lines: VecDeque::new() };
        assert(r@ =~= Seq::<Seq<char>>::empty());
        r
    }

    /// Keeps a line; the oldest goes if there is no room.
    pub fn push(&mut self, line: &str)
        requires
            old(self).valid(),
        ensures
            final(self)@ == kept(old(self)@, line@),
            final(self).valid(),
    {
        if self.lines.len() >= LOG_TAIL_CAPACITY {
            let _oldest: Option<String> = self.lines.pop_front();
        }
        self.lines.push_back(line.to_owned());
        assert(self@ =~= kept(old(self)@, line@));
    }

    /// The last `lines` of the kept lines, or all if there are fewer.
    pub fn last_log_tail(&self, lines: usize) -> (r: Vec<String>)
        ensures
            texts(r@) == last_lines(self@, lines as nat),
    {
        let n: usize = self.lines.len();
        let from: usize = if n <= lines {
            0
        } else {
            n - lines
        };
        let mut out: Vec<String> = Vec::new();
        let mut i: usize = from;
        while i < n
            invariant
                from <= i <= n,
                n == self.lines@.len(),
                texts(out@) == self@.subrange(from as int, i as int),
            decreases n - i,
        {
            let ghost before = texts(out@);
            out.push(self.lines[i].clone());
            assert(texts(out@) =~= before.push(self.lines@[i as int]@));
            i += 1;
            assert(self@.subrange(from as int, i as int) =~= before.push(self.lines@[i - 1]@));
        }
        assert(self@.subrange(from as int, n as int) =~= last_lines(self@, lines as nat));
        out
    }

    /// Forgets all lines.
    pub fn clear(&mut self)
        ensures
            final(self)@ == Seq::<Seq<char>>::empty(),
            final(self).valid(),
    {
        self.lines.clear();
        assert(self@ =~= Seq::<Seq<char>>::empty());
    }
}

/// Takes a line that FFmpeg printed. `values` are the figures of its progress, if it
/// tells any.
pub fn handle_log_line(
    stats: &mut StreamStats,
    log: &mut LogTail,
    line: &str,
    values: &Option<ProgressValues>,
    now: u64,
)
    requires
        old(log).valid(),
    ensures
        final(log).valid(),
        is_level_line(line@) ==> final(log)@ == old(log)@ && final(stats)@ == after_level_line(
            old(stats)@,
            line@,
            now,
        ),
        !is_level_line(line@) ==> final(log)@ == kept(old(log)@, line@) && final(stats)@
            == after_line(old(stats)@, line@, *values),
{
    if contains(line, "lavfi.astats.") {
        if let Some((channel, metric, value)) = parse_astats_line(line) {
            stats.apply_level(channel, metric, value, now);
        }
        return;
    }
    log.push(line);
    let low: String = to_lower(line);
    if contains(low.as_str(), "connection established") {
        stats.status = "Streaming".to_owned();
    }
    if let Some(v) = values {
        stats.apply_progress(v);
    }
    if shows_error(low.as_str()) {
        stats.status = "Interrupted".to_owned();
        stats.error = Some(line.to_owned());
    }
}

// ---------------------------------------------------------------------------
// What holds of the kept lines
// ---------------------------------------------------------------------------

/// The kept lines after several more.
pub open spec fn kept_all(lines: Seq<Seq<char>>, more: Seq<Seq<char>>) -> Seq<Seq<char>>
    decreases more.len(),
{
    if more.len() == 0 {
        lines
    } else {
        kept(kept_all(lines, more.drop_last()), more.last())
    }
}

/// Of all lines, the last ones are kept, as many as there is room for.
pub proof fn the_last_lines_are_kept(lines: Seq<Seq<char>>, more: Seq<Seq<char>>)
    requires
        lines.len() <= LOG_TAIL_CAPACITY,
    ensures
        kept_all(lines, more) == last_lines(lines + more, LOG_TAIL_CAPACITY as nat),
    decreases more.len(),
{
    if more.len() == 0 {
        assert(lines + more =~= lines);
    } else {
        the_last_lines_are_kept(lines, more.drop_last());
        assert(lines + more =~= (lines + more.drop_last()).push(more.last()));
        assert(kept_all(lines, more) =~= last_lines(lines + more, LOG_TAIL_CAPACITY as nat));
    }
}

/// An error in a line is always shown: the stream is interrupted and the line is
/// the error.
pub proof fn errors_are_shown(s: StatsModel, line: Seq<char>, v: Option<ProgressValues>)
    requires
        tells_error(lowered(line)),
    ensures
        after_line(s, line, v).status == "Interrupted"@,
        after_line(s, line, v).error == Some(line),
{
}

} // verus!
