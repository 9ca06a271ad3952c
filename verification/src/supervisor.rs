//! The run of a stream: attempts, what ends them, and when the next one comes.
use vstd::prelude::*;
use vstd::string::*;
use vstd::utf8::*;

use crate::number::{decimal, decimal_int, lowered, show, show_signed, to_lower};
use crate::progress::{last_lines, LogTail};
use crate::shell::{command_line, shlex_join};
use crate::state::{StatsModel, StreamStats};
use crate::text::{cat2, cat3, cat4, join, joined, opt_text, same, texts};

verus! {

// ---------------------------------------------------------------------------
// Lines out of bytes
// ---------------------------------------------------------------------------

/// How far bytes have been taken apart: the finished lines and the bytes of the one
/// at hand.
pub struct Lines {
    pub lines: Seq<Seq<u8>>,
    pub rest: Seq<u8>,
}

/// What one more byte does. A line ends at a carriage return, as progress is
/// overwritten in place, or at a line feed; empty lines are dropped.
pub open spec fn line_step(l: Lines, b: u8) -> Lines {
    if b == 13 || b == 10 {
        if l.rest.len() > 0 {
            Lines { lines: l.lines.push(l.rest), rest: Seq::empty() }
        } else {
            l
        }
    } else {
        Lines { lines: l.lines, rest: l.rest.push(b) }
    }
}

/// What the bytes of `s` do.
pub open spec fn line_run(l: Lines, s: Seq<u8>) -> Lines
    decreases s.len(),
{
    if s.len() == 0 {
        l
    } else {
        line_step(line_run(l, s.drop_last()), s.last())
    }
}

/// The lines do not depend on the pieces in which the bytes arrive.
pub proof fn lines_in_pieces(l: Lines, a: Seq<u8>, b: Seq<u8>)
    ensures
        line_run(l, a + b) == line_run(line_run(l, a), b),
    decreases b.len(),
{
    if b.len() == 0 {
        assert(a + b =~= a);
    } else {
        assert((a + b).drop_last() =~= a + b.drop_last());
        lines_in_pieces(l, a, b.drop_last());
    }
}

/// What `String::from_utf8_lossy` makes of bytes that are not UTF-8.
pub uninterp spec fn lossy_form(bytes: Seq<u8>) -> Seq<char>;

/// `String::from_utf8_lossy`: the text that the bytes encode. Where they are not
/// UTF-8, the parts that are wrong are replaced; the text is then a function of the
/// bytes alone.
#[verifier::external_body]
pub(crate) fn std_lossy(bytes: &Vec<u8>) -> (r: String)
    ensures
        valid_utf8(bytes@) ==> r@ == decode_utf8(bytes@),
        !valid_utf8(bytes@) ==> r@ == lossy_form(bytes@),
{
    String::from_utf8_lossy(bytes).into_owned()
}

/// The text of a line.
pub open spec fn line_text(bytes: Seq<u8>) -> Seq<char> {
    if valid_utf8(bytes) {
        decode_utf8(bytes)
    } else {
        lossy_form(bytes)
    }
}

/// The texts of lines.
pub open spec fn line_texts(lines: Seq<Seq<u8>>) -> Seq<Seq<char>> {
    Seq::new(lines.len(), |i: int| line_text(lines[i]))
}

/// Bytes that FFmpeg printed, of a line that has not ended yet.
#[derive(Debug)]
pub struct LineSplitter {
    pub rest: Vec<u8>,
}

impl LineSplitter {
    /// Nothing has been printed yet.
    pub fn new() -> (r: LineSplitter)
        ensures
            r.rest@ == Seq::<u8>::empty(),
    {
        LineSplitter { rest: Vec::new() }
    }

    /// Takes bytes; gives the lines that have ended.
    pub fn feed(&mut self, chunk: &[u8]) -> (r: Vec<String>)
        ensures
            ({
                let l = line_run(Lines { lines: Seq::empty(), rest: old(self).rest@ }, chunk@);
                texts(r@) == line_texts(l.lines) && final(self).rest@ == l.rest
            }),
    {
        let ghost begin = Lines { lines: Seq::<Seq<u8>>::empty(), rest: self.rest@ };
        let ghost mut state = begin;
        let mut out: Vec<String> = Vec::new();
        let mut i: usize = 0;
        assert(chunk@.take(0).len() == 0);
        assert(texts(out@) =~= line_texts(state.lines));
        while i < chunk.len()
            invariant
                i <= chunk@.len(),
                state == line_run(begin, chunk@.take(i as int)),
                self.rest@ == state.rest,
                texts(out@) == line_texts(state.lines),
            decreases chunk@.len() - i,
        {
            let b: u8 = chunk[i];
            assert(chunk@.take(i + 1).drop_last() == chunk@.take(i as int));
            let ghost before = state;
            proof {
                state = line_step(state, b);
            }
            if b == 13 || b == 10 {
                if self.rest.len() > 0 {
                    let ghost had = texts(out@);
                    let line: String = std_lossy(&self.rest);
                    out.push(line);
                    assert(texts(out@) =~= had.push(line_text(before.rest)));
                    assert(line_texts(state.lines) =~= had.push(line_text(before.rest)));
                    self.rest = Vec::new();
                }
            } else {
                self.rest.push(b);
            }
            i += 1;
        }
        assert(chunk@.take(i as int) == chunk@);
        out
    }

    /// The last line, if bytes of it are left when no more come.
    pub fn finish(self) -> (r: Option<String>)
        ensures
            opt_text(r) == (if self.rest@.len() > 0 {
                Some(line_text(self.rest@))
            } else {
                None
            }),
    {
        if self.rest.len() > 0 {
            Some(std_lossy(&self.rest))
        } else {
            None
        }
    }
}

// ---------------------------------------------------------------------------
// Stalls
// ---------------------------------------------------------------------------

/// After so many looks without frames, a second apart, the stream is restarted.
pub const STALL_TICKS: u32 = 5;

/// Notices when FFmpeg runs but no frames come out.
#[derive(Clone, Copy, Debug)]
pub struct StallDetector {
    pub stalls: u32,
}

/// The stream runs but gives less than half a frame a second.
pub open spec fn looks_stalled(status: Seq<char>, fps_tenths: u64) -> bool {
    lowered(status) == "streaming"@ && fps_tenths < 5
}

impl StallDetector {
    /// It has not come to a restart.
    pub open spec fn valid(&self) -> bool {
        self.stalls < STALL_TICKS
    }

    /// Nothing seen yet.
    pub fn new() -> (r: StallDetector)
        ensures
            r.stalls == 0,
            r.valid(),
    {
        StallDetector { stalls: 0 }
    }

    /// Takes a look, once a second. `true` means that FFmpeg has to be stopped: it
    /// has given no frames at the last looks in a row.
    pub fn tick(&mut self, status: &str, fps_tenths: u64) -> (r: bool)
        requires
            old(self).valid(),
        ensures
            final(self).stalls == (if looks_stalled(status@, fps_tenths) {
                (old(self).stalls + 1) as u32
            } else {
                0
            }),
            r == !final(self).valid(),
    {
        let low: String = to_lower(status);
        if same(low.as_str(), "streaming") && fps_tenths < 5 {
            self.stalls = self.stalls + 1;
        } else {
            self.stalls = 0;
        }
        self.stalls >= STALL_TICKS
    }
}

/// The count of a detector after several looks.
pub open spec fn stalls_after(looks: Seq<bool>) -> nat
    decreases looks.len(),
{
    if looks.len() > 0 && looks.last() {
        stalls_after(looks.drop_last()) + 1
    } else {
        0
    }
}

/// A restart takes as many stalled looks in a row: one good look among the last ones
/// rules it out.
pub proof fn a_good_look_prevents_restart(looks: Seq<bool>, k: int)
    requires
        0 <= k < looks.len(),
        looks.len() - k <= STALL_TICKS,
        !looks[k],
    ensures
        stalls_after(looks) < STALL_TICKS,
{
    good_look(looks, k);
}

proof fn good_look(looks: Seq<bool>, k: int)
    requires
        0 <= k < looks.len(),
        !looks[k],
    ensures
        stalls_after(looks) <= looks.len() - 1 - k,
    decreases looks.len(),
{
    if looks.last() {
        good_look(looks.drop_last(), k);
    }
}

// ---------------------------------------------------------------------------
// Waiting
// ---------------------------------------------------------------------------

/// The seconds to wait before an attempt; the first one has the number one. They
/// double from attempt to attempt up to a minute.
pub open spec fn backoff(next_attempt: u32) -> u32 {
    if next_attempt <= 1 {
        0
    } else if next_attempt == 2 {
        1
    } else if next_attempt == 3 {
        2
    } else if next_attempt == 4 {
        4
    } else if next_attempt == 5 {
        8
    } else if next_attempt == 6 {
        16
    } else if next_attempt == 7 {
        32
    } else {
        60
    }
}

/// The seconds to wait before an attempt.
pub fn backoff_secs(next_attempt: u32) -> (r: u32)
    ensures
        r == backoff(next_attempt),
{
    match next_attempt {
        0 | 1 => 0,
        2 => 1,
        3 => 2,
        4 => 4,
        5 => 8,
        6 => 16,
        7 => 32,
        _ => 60,
    }
}

/// A later attempt never waits less, and none waits more than a minute.
pub proof fn backoff_grows(a: u32, b: u32)
    requires
        a <= b,
    ensures
        backoff(a) <= backoff(b) <= 60,
{
}

// ---------------------------------------------------------------------------
// Attempts
// ---------------------------------------------------------------------------

/// How an attempt ended.
#[derive(Clone, Copy, Debug, PartialEq, Eq, Structural)]
pub enum AttemptOutcome {
    /// The operator stopped it.
    UserStopped,
    /// FFmpeg ended by itself.
    UnexpectedExit { exit_code: Option<i32> },
}

/// What comes after an attempt.
#[derive(Clone, Copy, Debug, PartialEq, Eq, Structural)]
pub enum NextStep {
    /// Nothing: the run is over.
    End,
    /// Another attempt, after waiting for so many seconds.
    Retry { wait: u32 },
}

/// The figures at the start of an attempt.
pub open spec fn connecting(s: StatsModel, now: u64) -> StatsModel {
    StatsModel {
        status: "Connecting"@,
        error: None,
        started_at: Some(now),
        bitrate: 0,
        fps_tenths: 0,
        speed_hundredths: 0,
        frames_sent: 0,
        frames_dropped: 0,
        quality_tenths: 0,
        ..s
    }
}

/// The figures at the start of a run: no attempt has failed.
pub open spec fn fresh_run(s: StatsModel) -> StatsModel {
    StatsModel {
        reconnect_attempt: 0,
        reconnect_next_secs: 0,
        total_reconnects_this_session: 0,
        ..s
    }
}

/// The figures when the operator stopped the stream.
pub open spec fn idle(s: StatsModel) -> StatsModel {
    StatsModel { status: "Idle"@, reconnect_attempt: 0, reconnect_next_secs: 0, ..s }
}

/// What is told of an exit: the exit code, if there is one, and the last lines that
/// FFmpeg printed.
pub open spec fn exit_text(exit_code: Option<i32>, log: Seq<Seq<char>>) -> Seq<char> {
    let tail = joined(last_lines(log, 3), " | "@);
    match exit_code {
        Some(rc) => "FFmpeg exited with code "@ + decimal_int(rc as int) + ": "@ + tail,
        None => "FFmpeg exited unexpectedly: "@ + tail,
    }
}

/// The figures after an attempt. An error that is known already stays.
pub open spec fn ended(
    s: StatsModel,
    stopped: bool,
    exit_code: Option<i32>,
    log: Seq<Seq<char>>,
) -> StatsModel {
    let off = StatsModel { started_at: None, bitrate: 0, ..s };
    if stopped {
        idle(off)
    } else if s.error is None {
        StatsModel { error: Some(exit_text(exit_code, log)), ..off }
    } else {
        off
    }
}

/// The figures when no further attempt is made.
pub open spec fn interrupted(s: StatsModel) -> StatsModel {
    StatsModel { status: "Interrupted"@, reconnect_attempt: 0, reconnect_next_secs: 0, ..s }
}

/// What is told when there were too many attempts.
pub open spec fn gave_up_text(max_attempts: u32) -> Seq<char> {
    "Stopped after "@ + decimal(max_attempts as nat) + " reconnect attempts."@
}

/// Whether the attempt with a number may be followed by another. A limit of zero is
/// none.
pub open spec fn may_go_on(attempt: u32, max_attempts: u32) -> bool {
    max_attempts == 0 || attempt < max_attempts
}

/// What comes after the attempt with a number failed.
pub open spec fn step_after_failure(attempt: u32, auto_reconnect: bool, max_attempts: u32) -> NextStep {
    if auto_reconnect && may_go_on(attempt, max_attempts) {
        NextStep::Retry { wait: backoff((attempt + 1) as u32) }
    } else {
        NextStep::End
    }
}

/// The figures after the attempt with a number failed.
pub open spec fn failed(
    s: StatsModel,
    attempt: u32,
    auto_reconnect: bool,
    max_attempts: u32,
) -> StatsModel {
    if !auto_reconnect {
        interrupted(s)
    } else if !may_go_on(attempt, max_attempts) {
        interrupted(StatsModel { error: Some(gave_up_text(max_attempts)), ..s })
    } else {
        StatsModel {
            total_reconnects_this_session: if s.total_reconnects_this_session < u32::MAX {
                (s.total_reconnects_this_session + 1) as u32
            } else {
                u32::MAX
            },
            ..s
        }
    }
}

/// The figures while waiting for an attempt.
pub open spec fn waiting(s: StatsModel, attempt: u32, remaining: u32) -> StatsModel {
    StatsModel {
        status: "Reconnecting"@,
        reconnect_attempt: attempt,
        reconnect_next_secs: remaining,
        ..s
    }
}

/// A run of a stream: from the operator's start to their stop, or to the last
/// attempt.
#[derive(Debug)]
pub struct Session {
    /// Whether FFmpeg runs.
    pub running: bool,
    pub last_command: Vec<String>,
    pub log: LogTail,
    pub stop_requested: bool,
    /// The number of the attempt, the first being one.
    pub attempt: u32,
}

/// An attempt that ran for longer than this did not fail at the start.
pub const STABLE_NANOS: u128 = 60_000_000_000;

impl Session {
    /// The kept lines fit.
    pub open spec fn valid(&self) -> bool {
        self.log.valid()
    }

    /// No stream has been started.
    pub fn new() -> (r: Session)
        ensures
            !r.running,
            texts(r.last_command@) == Seq::<Seq<char>>::empty(),
            r.log@ == Seq::<Seq<char>>::empty(),
            !r.stop_requested,
            r.attempt == 1,
            r.valid(),
    {
        let r: Session = Session {
            running: false,
            last_command: Vec::new(),
            log: LogTail::new(),
            stop_requested: false,
            attempt: 1,
        };
        assert(texts(r.last_command@) =~= Seq::<Seq<char>>::empty());
        r
    }

    /// Whether FFmpeg runs.
    pub fn is_running(&self) -> (r: bool)
        ensures
            r == self.running,
    {
        self.running
    }

    /// Why a stream cannot be started, if it cannot: one runs already.
    pub fn start_fault(&self) -> (r: Option<String>)
        ensures
            opt_text(r) == (if self.running {
                Some("Stream already running."@)
            } else {
                None
            }),
    {
        if self.running {
            Some("Stream already running.".to_owned())
        } else {
            None
        }
    }

    /// The last command as one would type it; empty if there was none.
    pub fn last_command(&self) -> (r: String)
        ensures
            r@ == command_line(texts(self.last_command@)),
    {
        shlex_join(&self.last_command)
    }

    /// Begins a run, after its first attempt has been started.
    pub fn begin_run(&mut self, stats: &mut StreamStats)
        ensures
            final(stats)@ == fresh_run(old(stats)@),
            final(self).attempt == 1,
            final(self).running == old(self).running,
            final(self).last_command == old(self).last_command,
            final(self).log == old(self).log,
            final(self).stop_requested == old(self).stop_requested,
    {
        stats.reconnect_attempt = 0;
        stats.reconnect_next_secs = 0;
        stats.total_reconnects_this_session = 0;
        self.attempt = 1;
    }

    /// Begins an attempt with the command that FFmpeg was started with.
    pub fn begin_attempt(&mut self, stats: &mut StreamStats, command: Vec<String>, now: u64)
        ensures
            final(stats)@ == connecting(old(stats)@, now),
            final(self).running,
            final(self).last_command == command,
            final(self).log@ == Seq::<Seq<char>>::empty(),
            !final(self).stop_requested,
            final(self).attempt == old(self).attempt,
            final(self).valid(),
    {
        stats.status = "Connecting".to_owned();
        stats.error = None;
        stats.started_at = Some(now);
        stats.bitrate = 0;
        stats.fps_tenths = 0;
        stats.speed_hundredths = 0;
        stats.frames_sent = 0;
        stats.frames_dropped = 0;
        stats.quality_tenths = 0;
        self.last_command = command;
        self.log.clear();
        self.stop_requested = false;
        self.running = true;
    }

    /// The operator stops the stream.
    pub fn stop(&mut self)
        ensures
            *final(self) == (Session { stop_requested: true, ..*old(self) }),
    {
        self.stop_requested = true;
    }

    /// Ends an attempt, when FFmpeg has exited. If it is known to have ended before,
    /// the operator stopped it and nothing changes.
    pub fn end_attempt(&mut self, stats: &mut StreamStats, exit_code: Option<i32>) -> (r:
        AttemptOutcome)
        ensures
            *final(self) == (Session { running: false, ..*old(self) }),
            !old(self).running ==> r == AttemptOutcome::UserStopped && final(stats)@ == old(
                stats,
            )@,
            old(self).running ==> final(stats)@ == ended(
                old(stats)@,
                old(self).stop_requested,
                exit_code,
                old(self).log@,
            ) && r == (if old(self).stop_requested {
                AttemptOutcome::UserStopped
            } else {
                AttemptOutcome::UnexpectedExit { exit_code }
            }),
    {
        if !self.running {
            return AttemptOutcome::UserStopped;
        }
        self.running = false;
        stats.started_at = None;
        stats.bitrate = 0;
        if self.stop_requested {
            set_idle(stats);
            return AttemptOutcome::UserStopped;
        }
        if stats.error.is_none() {
            let last: Vec<String> = self.log.last_log_tail(3);
            let tail: String = join(&last, " | ");
            let text: String = match exit_code {
                Some(rc) => {
                    let n: String = show_signed(rc as i64);
                    cat4("FFmpeg exited with code ", n.as_str(), ": ", tail.as_str())
                },
                None => cat2("FFmpeg exited unexpectedly: ", tail.as_str()),
            };
            stats.error = Some(text);
        }
        AttemptOutcome::UnexpectedExit { exit_code }
    }

    /// What comes after an attempt that FFmpeg ended by itself or that could not be
    /// started.
    pub fn handle_unexpected_exit(
        &mut self,
        stats: &mut StreamStats,
        auto_reconnect: bool,
        max_attempts: u32,
    ) -> (r: NextStep)
        requires
            auto_reconnect && max_attempts == 0 ==> old(self).attempt < u32::MAX,
        ensures
            final(stats)@ == failed(old(stats)@, old(self).attempt, auto_reconnect, max_attempts),
            r == step_after_failure(old(self).attempt, auto_reconnect, max_attempts),
            *final(self) == (Session {
                attempt: if r is Retry {
                    (old(self).attempt + 1) as u32
                } else {
                    old(self).attempt
                },
                ..*old(self)
            }),
    {
        if !auto_reconnect {
            set_interrupted(stats);
            return NextStep::End;
        }
        if max_attempts > 0 && self.attempt >= max_attempts {
            let n: String = show(max_attempts as u64);
            stats.error = Some(cat3("Stopped after ", n.as_str(), " reconnect attempts."));
            set_interrupted(stats);
            return NextStep::End;
        }
        self.attempt = self.attempt + 1;
        if stats.total_reconnects_this_session < u32::MAX {
            stats.total_reconnects_this_session = stats.total_reconnects_this_session + 1;
        }
        NextStep::Retry { wait: backoff_secs(self.attempt) }
    }

    /// What comes after an attempt that ran for a time. After a long run, counting
    /// starts again.
    pub fn after_attempt(
        &mut self,
        stats: &mut StreamStats,
        outcome: AttemptOutcome,
        ran_nanos: u128,
        auto_reconnect: bool,
        max_attempts: u32,
    ) -> (r: NextStep)
        requires
            auto_reconnect && max_attempts == 0 ==> old(self).attempt < u32::MAX,
        ensures
            ({
                let attempt = if ran_nanos > STABLE_NANOS {
                    1
                } else {
                    old(self).attempt
                };
                match outcome {
                    AttemptOutcome::UserStopped => r == NextStep::End && final(stats)@ == old(
                        stats,
                    )@ && *final(self) == *old(self),
                    AttemptOutcome::UnexpectedExit { .. } => final(stats)@ == failed(
                        old(stats)@,
                        attempt,
                        auto_reconnect,
                        max_attempts,
                    ) && r == step_after_failure(attempt, auto_reconnect, max_attempts)
                        && *final(self) == (Session {
                        attempt: if r is Retry {
                            (attempt + 1) as u32
                        } else {
                            attempt
                        },
                        ..*old(self)
                    }),
                }
            }),
    {
        match outcome {
            AttemptOutcome::UserStopped => NextStep::End,
            AttemptOutcome::UnexpectedExit { .. } => {
                if ran_nanos > STABLE_NANOS {
                    self.attempt = 1;
                }
                self.handle_unexpected_exit(stats, auto_reconnect, max_attempts)
            },
        }
    }

    /// What comes after an attempt that could not be started, for the given reason.
    pub fn after_setup_failure(
        &mut self,
        stats: &mut StreamStats,
        reason: &str,
        auto_reconnect: bool,
        max_attempts: u32,
    ) -> (r: NextStep)
        requires
            auto_reconnect && max_attempts == 0 ==> old(self).attempt < u32::MAX,
        ensures
            final(stats)@ == failed(
                (StatsModel {
                    error: Some("Reconnect setup failed: "@ + reason@),
                    ..old(stats)@
                }),
                old(self).attempt,
                auto_reconnect,
                max_attempts,
            ),
            r == step_after_failure(old(self).attempt, auto_reconnect, max_attempts),
            *final(self) == (Session {
                attempt: if r is Retry {
                    (old(self).attempt + 1) as u32
                } else {
                    old(self).attempt
                },
                ..*old(self)
            }),
    {
        stats.error = Some(cat2("Reconnect setup failed: ", reason));
        self.handle_unexpected_exit(stats, auto_reconnect, max_attempts)
    }

    /// One second of waiting, with `remaining` of them to go. `false` if the operator
    /// has stopped the stream.
    pub fn backoff_tick(&self, stats: &mut StreamStats, remaining: u32) -> (r: bool)
        ensures
            final(stats)@ == waiting(old(stats)@, self.attempt, remaining),
            r == !self.stop_requested,
    {
        stats.status = "Reconnecting".to_owned();
        stats.reconnect_attempt = self.attempt;
        stats.reconnect_next_secs = remaining;
        !self.stop_requested
    }
}

/// The figures when the operator stops the stream while it waits.
pub fn set_idle(stats: &mut StreamStats)
    ensures
        final(stats)@ == idle(old(stats)@),
{
    stats.status = "Idle".to_owned();
    stats.reconnect_attempt = 0;
    stats.reconnect_next_secs = 0;
}

fn set_interrupted(stats: &mut StreamStats)
    ensures
        final(stats)@ == interrupted(old(stats)@),
{
    stats.status = "Interrupted".to_owned();
    stats.reconnect_attempt = 0;
    stats.reconnect_next_secs = 0;
}

/// What is told when a stream that gave no frames is restarted.
pub fn set_frozen(stats: &mut StreamStats)
    ensures
        final(stats)@ == (StatsModel {
            error: Some("Stream froze (no frames for 5s) — restarting"@),
            ..old(stats)@
        }),
{
    stats.error = Some("Stream froze (no frames for 5s) — restarting".to_owned());
}

// ---------------------------------------------------------------------------
// What holds of every run
// ---------------------------------------------------------------------------

/// The numbers of the attempts that are made when each fails soon after its start,
/// from one on.
pub open spec fn attempts_from(attempt: u32, auto_reconnect: bool, max_attempts: u32) -> nat
    decreases u32::MAX - attempt,
{
    match step_after_failure(attempt, auto_reconnect, max_attempts) {
        NextStep::Retry { .. } if attempt < u32::MAX => 1 + attempts_from(
            (attempt + 1) as u32,
            auto_reconnect,
            max_attempts,
        ),
        _ => 1,
    }
}

/// A run whose attempts are limited and all fail soon after their start ends after as
/// many attempts as are allowed, or after the first if none is to be repeated.
pub proof fn runs_end(attempt: u32, auto_reconnect: bool, max_attempts: u32)
    requires
        auto_reconnect ==> max_attempts > 0,
    ensures
        attempts_from(attempt, auto_reconnect, max_attempts) == (if auto_reconnect && attempt
            < max_attempts {
            (max_attempts - attempt + 1) as nat
        } else {
            1
        }),
    decreases u32::MAX - attempt,
{
    if auto_reconnect && attempt < max_attempts {
        runs_end((attempt + 1) as u32, auto_reconnect, max_attempts);
    }
}

/// A run whose attempts are not limited never ends by itself: whichever attempt fails,
/// another comes, and the stream is not shown as interrupted on its account.
pub proof fn unlimited_runs_go_on(s: StatsModel, attempt: u32)
    ensures
        step_after_failure(attempt, true, 0) is Retry,
        failed(s, attempt, true, 0).status == s.status,
        failed(s, attempt, true, 0).error == s.error,
{
}

/// A stream that the operator stopped is idle and never tried again.
pub proof fn stopped_streams_are_idle(
    s: StatsModel,
    exit_code: Option<i32>,
    log: Seq<Seq<char>>,
)
    ensures
        ended(s, true, exit_code, log).status == "Idle"@,
        ended(s, true, exit_code, log).error == s.error,
{
}

/// When no further attempt is made, the stream is shown as interrupted, with an
/// error if there was one or if there were too many attempts.
pub proof fn last_failure_is_shown(
    s: StatsModel,
    attempt: u32,
    auto_reconnect: bool,
    max_attempts: u32,
)
    requires
        step_after_failure(attempt, auto_reconnect, max_attempts) == NextStep::End,
        s.error is Some,
    ensures
        failed(s, attempt, auto_reconnect, max_attempts).status == "Interrupted"@,
        failed(s, attempt, auto_reconnect, max_attempts).error is Some,
{
}

} // verus!
