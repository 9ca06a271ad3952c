//! Trying a destination again and again: whether it takes connections, and how that
//! changes.
use vstd::prelude::*;
use vstd::string::*;
use vstd::utf8::*;

use crate::number::{decimal, show, show_two, two_digits};
use crate::scan::{before, begins, starts_with, trimmed, up_to};
use crate::srt_handshake::{fields_tell_key, key_in};
use crate::streamid::{percent_decoded, percent_encoded, percent_round_trip, url_encode};
use crate::text::{
    args, between_quotes, cat2, cat3, cat5, cat6, same, show_quoted, str_texts, texts,
};

verus! {

// ---------------------------------------------------------------------------
// One try
// ---------------------------------------------------------------------------

/// How a try went.
#[derive(Clone, Copy, Debug, PartialEq, Eq, Structural)]
pub enum ProbeOutcome {
    Connected,
    Rejected,
    Timeout,
}

/// The outcome in a line of the log; all are of one length.
pub open spec fn outcome_label(o: ProbeOutcome) -> Seq<char> {
    match o {
        ProbeOutcome::Connected => "CONNECTED"@,
        ProbeOutcome::Rejected => "REJECTED "@,
        ProbeOutcome::Timeout => "TIMEOUT  "@,
    }
}

/// The outcome in a table.
pub open spec fn outcome_word(o: ProbeOutcome) -> Seq<char> {
    match o {
        ProbeOutcome::Connected => "connected"@,
        ProbeOutcome::Rejected => "rejected"@,
        ProbeOutcome::Timeout => "timeout"@,
    }
}

impl ProbeOutcome {
    /// The outcome in a line of the log.
    pub fn label(&self) -> (r: &'static str)
        ensures
            r@ == outcome_label(*self),
    {
        match self {
            ProbeOutcome::Connected => "CONNECTED",
            ProbeOutcome::Rejected => "REJECTED ",
            ProbeOutcome::Timeout => "TIMEOUT  ",
        }
    }

    /// The outcome in a table.
    pub fn csv_label(&self) -> (r: &'static str)
        ensures
            r@ == outcome_word(*self),
    {
        match self {
            ProbeOutcome::Connected => "connected",
            ProbeOutcome::Rejected => "rejected",
            ProbeOutcome::Timeout => "timeout",
        }
    }
}

/// From so many milliseconds on, a try that failed ran out of time.
pub const TIMEOUT_MS: u64 = 2500;

/// How a try went: whether FFmpeg succeeded, if it could be started, and how long it
/// took.
pub fn outcome_of(success: Option<bool>, elapsed_ms: u64) -> (r: ProbeOutcome)
    ensures
        r == (match success {
            Some(true) => ProbeOutcome::Connected,
            Some(false) => if elapsed_ms >= TIMEOUT_MS {
                ProbeOutcome::Timeout
            } else {
                ProbeOutcome::Rejected
            },
            None => ProbeOutcome::Rejected,
        }),
{
    match success {
        Some(true) => ProbeOutcome::Connected,
        Some(false) => if elapsed_ms >= TIMEOUT_MS {
            ProbeOutcome::Timeout
        } else {
            ProbeOutcome::Rejected
        },
        None => ProbeOutcome::Rejected,
    }
}

/// The arguments with which FFmpeg tries a destination.
pub open spec fn try_args(url: Seq<char>) -> Seq<Seq<char>> {
    seq![
        "-hide_banner"@,
        "-loglevel"@,
        "error"@,
        "-timeout"@,
        "3000000"@,
        "-i"@,
        url,
        "-t"@,
        "0.001"@,
        "-f"@,
        "null"@,
        "-"@,
    ]
}

/// The arguments with which FFmpeg tries a destination.
pub fn probe_args(url: &str) -> (r: Vec<String>)
    ensures
        texts(r@) == try_args(url@),
{
    let list: [&str; 12] = [
        "-hide_banner",
        "-loglevel",
        "error",
        "-timeout",
        "3000000",
        "-i",
        url,
        "-t",
        "0.001",
        "-f",
        "null",
        "-",
    ];
    let mut out: Vec<String> = Vec::new();
    args(&mut out, &list);
    assert(str_texts(list@) =~= try_args(url@));
    assert(texts(out@) =~= try_args(url@));
    out
}

/// The stream id with which a destination is tried.
pub open spec fn probe_streamid(key: Seq<char>) -> Seq<char> {
    "#!::bmd_uuid="@ + "d1a90517-1c00-4e57-9fab-617465616d64"@ + ",bmd_name="@ + "ATEM-net-diag"@
        + ",u="@ + key
}

/// The URL with which a destination is tried with a key.
pub open spec fn probe_url(base: Seq<char>, key: Seq<char>) -> Seq<char> {
    up_to(base, '?') + "?mode=caller&latency=500000&streamid="@ + percent_encoded(
        encode_utf8(probe_streamid(key)),
    )
}

/// The URL with which a destination is tried with a key. A query that the base has
/// is dropped.
pub fn build_bmd_srt_url(base: &str, key: &str) -> (r: Result<String, String>)
    ensures
        begins(up_to(base@, '?'), "srt://"@) ==> (r matches Ok(u) && u@ == probe_url(base@, key@)),
        !begins(up_to(base@, '?'), "srt://"@) ==> (r matches Err(e) && e@
            == "--key requires an srt:// base URL, got "@ + between_quotes(base@)),
{
    let host: String = before(base, '?');
    if !starts_with(host.as_str(), "srt://") {
        let q: String = show_quoted(base);
        return Err(cat2("--key requires an srt:// base URL, got ", q.as_str()));
    }
    let id: String = cat6(
        "#!::bmd_uuid=",
        "d1a90517-1c00-4e57-9fab-617465616d64",
        ",bmd_name=",
        "ATEM-net-diag",
        ",u=",
        key,
    );
    let encoded: String = url_encode(id.as_str());
    Ok(cat3(host.as_str(), "?mode=caller&latency=500000&streamid=", encoded.as_str()))
}

/// A receiver that reads the URL finds the key in it.
pub proof fn probe_url_carries_key(base: Seq<char>, key: Seq<char>)
    requires
        key.len() > 0,
        trimmed(key) == key,
        forall|i: int| 0 <= i < key.len() ==> #[trigger] key[i] != ',',
    ensures
        ({
            let front = up_to(base, '?') + "?mode=caller&latency=500000&streamid="@;
            let sent = percent_decoded(probe_url(base, key).skip(front.len() as int));
            sent == encode_utf8(probe_streamid(key))
        }),
        key_in(probe_streamid(key)) == Some(key),
{
    let front = up_to(base, '?') + "?mode=caller&latency=500000&streamid="@;
    let bytes = encode_utf8(probe_streamid(key));
    percent_round_trip(bytes);
    assert(probe_url(base, key).skip(front.len() as int) =~= percent_encoded(bytes));
    reveal_strlit("d1a90517-1c00-4e57-9fab-617465616d64");
    reveal_strlit("ATEM-net-diag");
    fields_tell_key("d1a90517-1c00-4e57-9fab-617465616d64"@, "ATEM-net-diag"@, key);
}

// ---------------------------------------------------------------------------
// Figures
// ---------------------------------------------------------------------------

/// The figures of all tries.
#[derive(Clone, Copy, Debug, PartialEq, Eq, Structural)]
pub struct Stats {
    pub total_probes: u64,
    pub connected: u64,
    pub rejected: u64,
    pub timeout: u64,
    pub latency_min_ms: u64,
    pub latency_max_ms: u64,
    pub latency_sum_ms: u64,
}

/// No try has been made.
pub open spec fn no_tries() -> Stats {
    Stats {
        total_probes: 0,
        connected: 0,
        rejected: 0,
        timeout: 0,
        latency_min_ms: 0,
        latency_max_ms: 0,
        latency_sum_ms: 0,
    }
}

/// The figures hold together: each try had one outcome.
pub open spec fn adds_up(s: Stats) -> bool {
    s.connected + s.rejected + s.timeout == s.total_probes
}

/// There is room for one more try.
pub open spec fn has_room(s: Stats, latency_ms: u64) -> bool {
    s.total_probes < u64::MAX && s.latency_sum_ms + latency_ms <= u64::MAX
}

/// The figures after one more try.
pub open spec fn counted(s: Stats, outcome: ProbeOutcome, latency_ms: u64) -> Stats {
    Stats {
        total_probes: (s.total_probes + 1) as u64,
        connected: if outcome == ProbeOutcome::Connected {
            (s.connected + 1) as u64
        } else {
            s.connected
        },
        rejected: if outcome == ProbeOutcome::Rejected {
            (s.rejected + 1) as u64
        } else {
            s.rejected
        },
        timeout: if outcome == ProbeOutcome::Timeout {
            (s.timeout + 1) as u64
        } else {
            s.timeout
        },
        latency_min_ms: if s.total_probes == 0 || latency_ms < s.latency_min_ms {
            latency_ms
        } else {
            s.latency_min_ms
        },
        latency_max_ms: if latency_ms > s.latency_max_ms {
            latency_ms
        } else {
            s.latency_max_ms
        },
        latency_sum_ms: (s.latency_sum_ms + latency_ms) as u64,
    }
}

impl Default for Stats {
    /// No try has been made.
    fn default() -> (r: Self)
        ensures
            r == no_tries(),
            adds_up(r),
    {
        Stats {
            total_probes: 0,
            connected: 0,
            rejected: 0,
            timeout: 0,
            latency_min_ms: 0,
            latency_max_ms: 0,
            latency_sum_ms: 0,
        }
    }
}

impl Stats {
    /// Counts a try.
    pub fn record(&mut self, outcome: &ProbeOutcome, latency_ms: u64)
        requires
            adds_up(*old(self)),
            has_room(*old(self), latency_ms),
        ensures
            *final(self) == counted(*old(self), *outcome, latency_ms),
            adds_up(*final(self)),
    {
        let first: bool = self.total_probes == 0;
        self.total_probes = self.total_probes + 1;
        match outcome {
            ProbeOutcome::Connected => {
                self.connected = self.connected + 1;
            },
            ProbeOutcome::Rejected => {
                self.rejected = self.rejected + 1;
            },
            ProbeOutcome::Timeout => {
                self.timeout = self.timeout + 1;
            },
        }
        if first || latency_ms < self.latency_min_ms {
            self.latency_min_ms = latency_ms;
        }
        if latency_ms > self.latency_max_ms {
            self.latency_max_ms = latency_ms;
        }
        self.latency_sum_ms = self.latency_sum_ms + latency_ms;
    }

    /// The mean time a try took, in whole milliseconds.
    pub fn average_ms(&self) -> (r: u64)
        ensures
            r == (if self.total_probes == 0 {
                0
            } else {
                self.latency_sum_ms / self.total_probes
            }),
    {
        if self.total_probes == 0 {
            0
        } else {
            self.latency_sum_ms / self.total_probes
        }
    }

    /// The figures in one line. The share of tries that connected, in percent, is
    /// given as it is to be shown.
    pub fn summary_tail(&self, success_pct: &str) -> (r: String)
        ensures
            r@ == summary(*self, success_pct@),
    {
        let avg: u64 = self.average_ms();
        let total: String = show(self.total_probes);
        let ok: String = show(self.connected);
        let rejected: String = show(self.rejected);
        let timeout: String = show(self.timeout);
        let min: String = show(self.latency_min_ms);
        let mean: String = show(avg);
        let max: String = show(self.latency_max_ms);
        let mut out: String = cat6("probes=", total.as_str(), "  ok=", ok.as_str(), " (", success_pct);
        out.push_str("%)  reject=");
        out.push_str(rejected.as_str());
        out.push_str("  timeout=");
        out.push_str(timeout.as_str());
        out.push_str("  latency: min=");
        out.push_str(min.as_str());
        out.push_str("ms avg=");
        out.push_str(mean.as_str());
        out.push_str("ms max=");
        out.push_str(max.as_str());
        out.push_str("ms");
        out
    }
}

/// The figures in one line.
pub open spec fn summary(s: Stats, success_pct: Seq<char>) -> Seq<char> {
    let avg: nat = if s.total_probes == 0 {
        0
    } else {
        (s.latency_sum_ms / s.total_probes) as nat
    };
    "probes="@ + decimal(s.total_probes as nat) + "  ok="@ + decimal(s.connected as nat) + " ("@
        + success_pct + "%)  reject="@ + decimal(s.rejected as nat) + "  timeout="@ + decimal(
        s.timeout as nat,
    ) + "  latency: min="@ + decimal(s.latency_min_ms as nat) + "ms avg="@ + decimal(avg)
        + "ms max="@ + decimal(s.latency_max_ms as nat) + "ms"@
}

/// The mean lies between the shortest and the longest time.
pub proof fn figures_stay_ordered(s: Stats, outcome: ProbeOutcome, latency_ms: u64)
    requires
        has_room(s, latency_ms),
        is_ordered(s),
    ensures
        is_ordered(counted(s, outcome, latency_ms)),
{
    let t = counted(s, outcome, latency_ms);
    let n = s.total_probes as int;
    if n > 0 {
        assert(t.latency_min_ms * (n + 1) <= s.latency_sum_ms + latency_ms) by (nonlinear_arith)
            requires
                t.latency_min_ms <= s.latency_min_ms,
                t.latency_min_ms <= latency_ms,
                s.latency_min_ms * n <= s.latency_sum_ms,
                n >= 0,
        ;
        assert(s.latency_sum_ms + latency_ms <= t.latency_max_ms * (n + 1)) by (nonlinear_arith)
            requires
                t.latency_max_ms >= s.latency_max_ms,
                t.latency_max_ms >= latency_ms,
                s.latency_sum_ms <= s.latency_max_ms * n,
                n >= 0,
        ;
    } else {
        assert(t.latency_min_ms * 1 == latency_ms && t.latency_max_ms * 1 == latency_ms);
    }
    assert(t.total_probes == n + 1);
}

/// The sum of all times lies between the shortest and the longest time, each taken
/// as often as there were tries.
pub open spec fn is_ordered(s: Stats) -> bool {
    &&& s.latency_min_ms * s.total_probes <= s.latency_sum_ms
    &&& s.latency_sum_ms <= s.latency_max_ms * s.total_probes
    &&& s.total_probes == 0 ==> s.latency_sum_ms == 0 && s.latency_max_ms == 0
}

/// The figures after some tries, each with its outcome and its time.
pub open spec fn after_tries(v: Seq<(ProbeOutcome, u64)>) -> Stats
    decreases v.len(),
{
    if v.len() == 0 {
        no_tries()
    } else {
        counted(after_tries(v.drop_last()), v.last().0, v.last().1)
    }
}

/// How many of the tries had an outcome.
pub open spec fn outcomes(v: Seq<(ProbeOutcome, u64)>, o: ProbeOutcome) -> nat
    decreases v.len(),
{
    if v.len() == 0 {
        0
    } else if v.last().0 == o {
        outcomes(v.drop_last(), o) + 1
    } else {
        outcomes(v.drop_last(), o)
    }
}

/// How long the tries took together.
pub open spec fn time_taken(v: Seq<(ProbeOutcome, u64)>) -> nat
    decreases v.len(),
{
    if v.len() == 0 {
        0
    } else {
        time_taken(v.drop_last()) + v.last().1 as nat
    }
}

proof fn tries_add_up(v: Seq<(ProbeOutcome, u64)>)
    requires
        v.len() <= u64::MAX,
        time_taken(v) <= u64::MAX,
    ensures
        ({
            let s = after_tries(v);
            &&& s.total_probes == v.len()
            &&& s.connected == outcomes(v, ProbeOutcome::Connected)
            &&& s.rejected == outcomes(v, ProbeOutcome::Rejected)
            &&& s.timeout == outcomes(v, ProbeOutcome::Timeout)
            &&& s.latency_sum_ms == time_taken(v)
            &&& adds_up(s)
            &&& is_ordered(s)
            &&& forall|i: int|
                0 <= i < v.len() ==> s.latency_min_ms <= (#[trigger] v[i]).1 <= s.latency_max_ms
            &&& v.len() > 0 ==> exists|i: int|
                0 <= i < v.len() && (#[trigger] v[i]).1 == s.latency_min_ms
            &&& v.len() > 0 ==> exists|i: int|
                0 <= i < v.len() && (#[trigger] v[i]).1 == s.latency_max_ms
        }),
    decreases v.len(),
{
    if v.len() > 0 {
        let w = v.drop_last();
        let n = v.len() - 1;
        tries_add_up(w);
        let b = after_tries(w);
        let s = after_tries(v);
        figures_stay_ordered(b, v.last().0, v.last().1);
        assert forall|i: int| 0 <= i < v.len() implies s.latency_min_ms <= (#[trigger] v[i]).1
            <= s.latency_max_ms by {
            if i < n {
                assert(w[i] == v[i]);
            }
        }
        assert(v[n] == v.last());
        if n > 0 {
            let lo = choose|i: int| 0 <= i < w.len() && (#[trigger] w[i]).1 == b.latency_min_ms;
            let hi = choose|i: int| 0 <= i < w.len() && (#[trigger] w[i]).1 == b.latency_max_ms;
            assert(v[lo] == w[lo] && v[hi] == w[hi]);
        }
    }
}

/// After any number of tries the figures are those of all of them: how many there were, how
/// many had each outcome, the shortest and the longest time, and the time that all took. The
/// mean lies between the two.
pub proof fn all_tries_are_counted(v: Seq<(ProbeOutcome, u64)>)
    requires
        0 < v.len() <= u64::MAX,
        time_taken(v) <= u64::MAX,
    ensures
        ({
            let s = after_tries(v);
            &&& s.total_probes == v.len()
            &&& s.connected == outcomes(v, ProbeOutcome::Connected)
            &&& s.rejected == outcomes(v, ProbeOutcome::Rejected)
            &&& s.timeout == outcomes(v, ProbeOutcome::Timeout)
            &&& s.connected + s.rejected + s.timeout == v.len()
            &&& s.latency_sum_ms == time_taken(v)
            &&& forall|i: int|
                0 <= i < v.len() ==> s.latency_min_ms <= (#[trigger] v[i]).1 <= s.latency_max_ms
            &&& exists|i: int| 0 <= i < v.len() && (#[trigger] v[i]).1 == s.latency_min_ms
            &&& exists|i: int| 0 <= i < v.len() && (#[trigger] v[i]).1 == s.latency_max_ms
            &&& s.latency_min_ms <= s.latency_sum_ms / s.total_probes <= s.latency_max_ms
        }),
{
    tries_add_up(v);
    let s = after_tries(v);
    let (lo, hi, sum, n) = (
        s.latency_min_ms as int,
        s.latency_max_ms as int,
        s.latency_sum_ms as int,
        s.total_probes as int,
    );
    assert(lo <= sum / n <= hi) by (nonlinear_arith)
        requires
            n > 0,
            lo * n <= sum <= hi * n,
    ;
}

// ---------------------------------------------------------------------------
// The run of tries with each key
// ---------------------------------------------------------------------------

/// The tries with one key. The key is empty if the destination is tried without.
#[derive(Debug)]
pub struct KeyTrack {
    pub key: String,
    pub stats: Stats,
    /// Whether the last try connected.
    pub last: Option<bool>,
    /// How many tries in a row went the same way.
    pub streak: u32,
}

/// What a `KeyTrack` holds beside its key.
pub struct TrackModel {
    pub stats: Stats,
    pub last: Option<bool>,
    pub streak: u32,
}

/// The tries with each key.
#[derive(Debug)]
pub struct Tracker {
    pub tracks: Vec<KeyTrack>,
}

/// The place of the tries with a key; the number of keys if there are none.
pub open spec fn track_place(v: Seq<KeyTrack>, key: Seq<char>) -> nat
    decreases v.len(),
{
    if v.len() == 0 || v[0].key@ == key {
        0
    } else {
        1 + track_place(v.drop_first(), key)
    }
}

/// The tries with a key.
pub open spec fn track_of(v: Seq<KeyTrack>, key: Seq<char>) -> TrackModel {
    let i = track_place(v, key) as int;
    if i < v.len() {
        TrackModel { stats: v[i].stats, last: v[i].last, streak: v[i].streak }
    } else {
        TrackModel { stats: no_tries(), last: None, streak: 0 }
    }
}

/// The keys with which tries have been made, in the order of the first.
pub open spec fn tried_keys(v: Seq<KeyTrack>) -> Seq<Seq<char>> {
    Seq::new(v.len(), |i: int| v[i].key@)
}

/// The keys after a try with one: it comes to the end if it is new.
pub open spec fn with_key(keys: Seq<Seq<char>>, key: Seq<char>) -> Seq<Seq<char>> {
    if keys.contains(key) {
        keys
    } else {
        keys.push(key)
    }
}

/// The tries with a key after one more.
pub open spec fn noted(t: TrackModel, outcome: ProbeOutcome, ms: u64) -> TrackModel {
    let connected = outcome == ProbeOutcome::Connected;
    TrackModel {
        stats: counted(t.stats, outcome, ms),
        last: Some(connected),
        streak: if is_change(t, outcome) {
            1
        } else {
            (t.streak + 1) as u32
        },
    }
}

/// The try went another way than the one before.
pub open spec fn is_change(t: TrackModel, outcome: ProbeOutcome) -> bool {
    t.last is Some && t.last->0 != (outcome == ProbeOutcome::Connected)
}

/// What is told of a try.
pub open spec fn try_line(key: Seq<char>, t: TrackModel, outcome: ProbeOutcome, ms: u64) -> Seq<
    char,
> {
    let prefix = if key.len() == 0 {
        Seq::empty()
    } else {
        key + "  "@
    };
    if is_change(t, outcome) {
        "=== STATE CHANGE === "@ + prefix + (if t.last->0 {
            "CONNECTED"@
        } else {
            "REJECTED "@
        }) + " -> "@ + outcome_label(outcome) + "   ("@ + decimal(ms as nat) + "ms)"@
    } else {
        prefix + outcome_label(outcome) + "  ("@ + decimal(ms as nat) + "ms)"@ + (if t.streak > 0 {
            "  [streak "@ + decimal((t.streak + 1) as nat) + "]"@
        } else {
            Seq::empty()
        })
    }
}

/// What is told after a try.
#[derive(Debug)]
pub struct ProbeReport {
    pub line: String,
    /// Whether a summary is due.
    pub summary_due: bool,
    /// The figures with the key.
    pub stats: Stats,
}

proof fn place_facts(v: Seq<KeyTrack>, key: Seq<char>)
    ensures
        track_place(v, key) <= v.len(),
        track_place(v, key) < v.len() ==> v[track_place(v, key) as int].key@ == key,
        forall|j: int| 0 <= j < track_place(v, key) ==> (#[trigger] v[j]).key@ != key,
    decreases v.len(),
{
    if v.len() > 0 && v[0].key@ != key {
        let t = v.drop_first();
        place_facts(t, key);
        assert forall|j: int| 0 <= j < track_place(v, key) implies (#[trigger] v[j]).key@
            != key by {
            if j > 0 {
                assert(v[j] == t[j - 1]);
            }
        }
    }
}

proof fn place_is(v: Seq<KeyTrack>, key: Seq<char>, i: int)
    requires
        0 <= i <= v.len(),
        forall|j: int| 0 <= j < i ==> (#[trigger] v[j]).key@ != key,
        i < v.len() ==> v[i].key@ == key,
    ensures
        track_place(v, key) == i,
{
    place_facts(v, key);
}

fn say(key: &str, change: bool, last: bool, streak: u32, outcome: ProbeOutcome, ms: u64) -> (r:
    String)
    ensures
        forall|t: TrackModel|
            change == is_change(t, outcome) && (change ==> t.last == Some(last)) && (!change
                ==> t.streak + 1 == streak) ==> r@ == #[trigger] try_line(key@, t, outcome, ms),
{
    let prefix: String = if key.is_empty() {
        String::new()
    } else {
        cat2(key, "  ")
    };
    let time: String = show(ms);
    if change {
        let before_label: &str = if last {
            "CONNECTED"
        } else {
            "REJECTED "
        };
        let mut out: String = cat5(
            "=== STATE CHANGE === ",
            prefix.as_str(),
            before_label,
            " -> ",
            outcome.label(),
        );
        out.push_str("   (");
        out.push_str(time.as_str());
        out.push_str("ms)");
        out
    } else {
        let mut out: String = cat5(prefix.as_str(), outcome.label(), "  (", time.as_str(), "ms)");
        if streak > 1 {
            let n: String = show(streak as u64);
            out.push_str("  [streak ");
            out.push_str(n.as_str());
            out.push_str("]");
        }
        assert(out@ + Seq::<char>::empty() =~= out@);
        out
    }
}

impl Tracker {
    /// Each key has its own tries, and their figures hold together.
    pub open spec fn valid(&self) -> bool {
        &&& forall|i: int, j: int|
            0 <= i < j < self.tracks@.len() ==> (#[trigger] self.tracks@[i]).key@ != (
            #[trigger] self.tracks@[j]).key@
        &&& forall|i: int|
            0 <= i < self.tracks@.len() ==> adds_up((#[trigger] self.tracks@[i]).stats)
    }

    /// No try has been made.
    pub fn new() -> (r: Tracker)
        ensures
            r.tracks@.len() == 0,
            r.valid(),
    {
        Tracker { tracks: Vec::new() }
    }

    fn place(&mut self, key: &str) -> (r: usize)
        requires
            old(self).valid(),
        ensures
            final(self).valid(),
            r < final(self).tracks@.len(),
            final(self).tracks@[r as int].key@ == key@,
            forall|k: Seq<char>|
                #[trigger] track_of(final(self).tracks@, k) == track_of(old(self).tracks@, k),
            tried_keys(final(self).tracks@) == with_key(tried_keys(old(self).tracks@), key@),
    {
        let ghost had = self.tracks@;
        let mut i: usize = 0;
        while i < self.tracks.len()
            invariant
                i <= self.tracks@.len(),
                self.tracks@ == had,
                self.valid(),
                forall|j: int| 0 <= j < i ==> (#[trigger] self.tracks@[j]).key@ != key@,
            decreases self.tracks@.len() - i,
        {
            if same(self.tracks[i].key.as_str(), key) {
                assert(tried_keys(had)[i as int] == key@);
                return i;
            }
            i += 1;
        }
        self.tracks.push(
            KeyTrack { key: key.to_owned(), stats: Stats::default(), last: None, streak: 0 },
        );
        proof {
            let now = self.tracks@;
            assert(tried_keys(now) =~= tried_keys(had).push(key@));
            assert forall|k: Seq<char>| #[trigger] track_of(now, k) == track_of(had, k) by {
                place_facts(had, k);
                let p = track_place(had, k) as int;
                if p < had.len() {
                    assert forall|j: int| 0 <= j < p implies (#[trigger] now[j]).key@ != k by {
                        assert(now[j] == had[j]);
                    }
                    place_is(now, k, p);
                } else {
                    assert forall|j: int| 0 <= j < had.len() implies (#[trigger] now[j]).key@
                        != k by {
                        assert(now[j] == had[j]);
                    }
                    if k == key@ {
                        place_is(now, k, had.len() as int);
                    } else {
                        place_is(now, k, now.len() as int);
                    }
                }
            }
        }
        i
    }

    /// Takes note of a try with a key, and says what is told of it. With
    /// `summary_every` a summary is due after so many tries; with zero, never.
    pub fn note(&mut self, key: &str, outcome: ProbeOutcome, elapsed_ms: u64, summary_every: u32)
        -> (r: ProbeReport)
        requires
            old(self).valid(),
            has_room(track_of(old(self).tracks@, key@).stats, elapsed_ms),
            track_of(old(self).tracks@, key@).streak < u32::MAX,
        ensures
            final(self).valid(),
            track_of(final(self).tracks@, key@) == noted(
                track_of(old(self).tracks@, key@),
                outcome,
                elapsed_ms,
            ),
            forall|k: Seq<char>|
                k != key@ ==> #[trigger] track_of(final(self).tracks@, k) == track_of(
                    old(self).tracks@,
                    k,
                ),
            tried_keys(final(self).tracks@) == with_key(tried_keys(old(self).tracks@), key@),
            r.line@ == try_line(
                key@,
                track_of(old(self).tracks@, key@),
                outcome,
                elapsed_ms,
            ),
            r.stats == counted(track_of(old(self).tracks@, key@).stats, outcome, elapsed_ms),
            r.summary_due == (summary_every > 0 && r.stats.total_probes % (summary_every as u64)
                == 0),
    {
        let at: usize = self.place(key);
        let ghost mid = self.tracks@;
        let ghost t = track_of(mid, key@);
        proof {
            place_facts(mid, key@);
            assert(track_place(mid, key@) == at) by {
                let p = track_place(mid, key@) as int;
                if p < at {
                    assert(mid[p].key@ != mid[at as int].key@);
                }
            }
            assert(adds_up(mid[at as int].stats));
        }
        let connected: bool = outcome == ProbeOutcome::Connected;
        let (change, was): (bool, bool) = match self.tracks[at].last {
            Some(l) => (l != connected, l),
            None => (false, false),
        };
        let streak: u32 = if change {
            1
        } else {
            self.tracks[at].streak + 1
        };
        let mut stats: Stats = self.tracks[at].stats;
        stats.record(&outcome, elapsed_ms);
        let line: String = say(key, change, was, streak, outcome, elapsed_ms);
        assert(line@ == try_line(key@, t, outcome, elapsed_ms));
        let fresh: KeyTrack = KeyTrack {
            key: key.to_owned(),
            stats,
            last: Some(connected),
            streak,
        };
        self.tracks.set(at, fresh);
        proof {
            let now = self.tracks@;
            assert(now =~= mid.update(at as int, fresh));
            assert(tried_keys(now) =~= tried_keys(mid));
            assert forall|i: int, j: int| 0 <= i < j < now.len() implies (#[trigger] now[i]).key@
                != (#[trigger] now[j]).key@ by {
                assert(mid[i].key@ != mid[j].key@);
                assert(now[i].key@ == mid[i].key@);
                assert(now[j].key@ == mid[j].key@);
            }
            assert forall|i: int| 0 <= i < now.len() implies adds_up((#[trigger] now[i]).stats) by {
                if i != at {
                    assert(adds_up(mid[i].stats));
                }
            }
            assert forall|k: Seq<char>| track_place(now, k) == track_place(mid, k) by {
                place_facts(mid, k);
                let p = track_place(mid, k) as int;
                assert forall|j: int| 0 <= j < p implies (#[trigger] now[j]).key@ != k by {
                    assert(mid[j].key@ != k);
                    assert(now[j].key@ == mid[j].key@);
                }
                if p < mid.len() {
                    assert(now[p].key@ == mid[p].key@);
                }
                place_is(now, k, p);
            }
            assert forall|k: Seq<char>| k != key@ implies #[trigger] track_of(now, k) == track_of(
                mid,
                k,
            ) by {
                assert(track_place(now, k) == track_place(mid, k));
                place_facts(mid, k);
                let p = track_place(mid, k) as int;
                if p < mid.len() {
                    assert(mid[p].key@ == k);
                    assert(p != at);
                    assert(now[p] == mid[p]);
                }
            }
            assert(track_place(now, key@) == track_place(mid, key@));
        }
        ProbeReport {
            line,
            summary_due: summary_every > 0 && stats.total_probes % (summary_every as u64) == 0,
            stats,
        }
    }
}

/// The heading of a summary.
pub fn summary_heading(key: &str) -> (r: String)
    ensures
        r@ == (if key@.len() == 0 {
            "summary"@
        } else {
            "summary  key="@ + key@
        }),
{
    if key.is_empty() {
        "summary".to_owned()
    } else {
        cat2("summary  key=", key)
    }
}

// ---------------------------------------------------------------------------
// Tables
// ---------------------------------------------------------------------------

/// The time of day, from the seconds since the epoch.
pub open spec fn clock(secs: u64) -> Seq<char> {
    two_digits(((secs / 3600) % 24) as nat) + ":"@ + two_digits(((secs / 60) % 60) as nat) + ":"@
        + two_digits((secs % 60) as nat)
}

/// The time of day, from the seconds since the epoch.
pub fn clock_at(secs: u64) -> (r: String)
    ensures
        r@ == clock(secs),
{
    let h: String = show_two((secs / 3600) % 24);
    let m: String = show_two((secs / 60) % 60);
    let s: String = show_two(secs % 60);
    cat5(h.as_str(), ":", m.as_str(), ":", s.as_str())
}

/// The first row of a table of tries.
pub open spec fn csv_heading() -> Seq<char> {
    "unix_seconds,clock,key,outcome,latency_ms"@
}

/// The first row of a table of tries.
pub fn csv_header() -> (r: String)
    ensures
        r@ == csv_heading(),
{
    "unix_seconds,clock,key,outcome,latency_ms".to_owned()
}

/// The row of a try.
pub open spec fn csv_line(secs: u64, key: Seq<char>, outcome: ProbeOutcome, ms: u64) -> Seq<char> {
    decimal(secs as nat) + ","@ + clock(secs) + ","@ + key + ","@ + outcome_word(outcome) + ","@
        + decimal(ms as nat)
}

/// The row of a try.
pub fn csv_row(secs: u64, key: &str, outcome: ProbeOutcome, latency_ms: u64) -> (r: String)
    ensures
        r@ == csv_line(secs, key@, outcome, latency_ms),
{
    let unix: String = show(secs);
    let time: String = clock_at(secs);
    let ms: String = show(latency_ms);
    let mut out: String = cat6(unix.as_str(), ",", time.as_str(), ",", key, ",");
    out.push_str(outcome.csv_label());
    out.push_str(",");
    out.push_str(ms.as_str());
    out
}

} // verus!
