//! What holds of every run of FFmpeg: what its lines say is shown where it belongs, and what
//! comes after a failure follows from how often it has failed.
use vstd::prelude::*;

use crate::number::{decimal, decimal_int, decimal_is_digits, is_digit, lowered, parsed_decimal};
use crate::patterns::{group_text, pattern_captures};
use crate::progress::{
    after_level_line, after_line, figure, line_progress, whole_figure, is_float_text, last_lines, level_in, levelled, progressed,
    AstatsMetric, ProgressValues, LOG_TAIL_CAPACITY,
};
use crate::scan::{begins, finishes, holds, matches_at, position_is, trimmed};
use crate::state::StatsModel;
use crate::supervisor::{
    backoff, connecting, ended, exit_text, failed, fresh_run, line_run, looks_stalled,
    stalls_after, step_after_failure, waiting, Lines, NextStep, STABLE_NANOS, STALL_TICKS,
};
use crate::system_monitor::{judged, streak_after, told, HealthStatus, Percent};
use crate::text::joined;

verus! {

// ---------------------------------------------------------------------------
// What FFmpeg says
// ---------------------------------------------------------------------------

/// Each figure that a line gives is shown under its own name; those that it does not give stay.
/// A line with figures means that the stream runs.
pub proof fn figures_go_to_their_place(s: StatsModel, v: ProgressValues)
    ensures
        ({
            let r = progressed(s, v);
            &&& r.status == "Streaming"@
            &&& r.bitrate == (match v.bitrate {
                Some(x) => x,
                None => s.bitrate,
            })
            &&& r.frames_sent == (match v.frame {
                Some(x) => x,
                None => s.frames_sent,
            })
            &&& r.fps_tenths == (match v.fps_tenths {
                Some(x) => x,
                None => s.fps_tenths,
            })
            &&& r.speed_hundredths == (match v.speed_hundredths {
                Some(x) => x,
                None => s.speed_hundredths,
            })
            &&& r.frames_dropped == (match v.drop {
                Some(x) => x,
                None => s.frames_dropped,
            })
            &&& r.quality_tenths == (match v.quality_tenths {
                Some(x) => x,
                None => s.quality_tenths,
            })
            &&& r == StatsModel {
                status: r.status,
                bitrate: r.bitrate,
                frames_sent: r.frames_sent,
                fps_tenths: r.fps_tenths,
                speed_hundredths: r.speed_hundredths,
                frames_dropped: r.frames_dropped,
                quality_tenths: r.quality_tenths,
                ..s
            }
        }),
{
}

/// Each of these words in a line means an error, in whatever case it is written.
pub proof fn errors_are_known_by_their_words(s: StatsModel, line: Seq<char>, v: Option<ProgressValues>)
    ensures
        ({
            let low = lowered(line);
            let bad = holds(low, "connection refused"@) || holds(low, "connection setup failure"@)
                || holds(low, "operation timed out"@) || holds(low, "no route to host"@) || holds(
                low,
                "srt error"@,
            ) || holds(low, "protocol not found"@) || holds(low, "input/output error"@) || holds(
                low,
                "error opening output"@,
            ) || holds(low, "could not write header"@) || holds(low, "broken pipe"@) || holds(
                low,
                "connection reset"@,
            ) || holds(low, "no such file or directory"@);
            let r = after_line(s, line, v);
            &&& bad ==> r.status == "Interrupted"@ && r.error == Some(line)
            &&& !bad ==> r.error == s.error
            &&& !bad && (v is Some || holds(low, "connection established"@)) ==> r.status
                == "Streaming"@
            &&& !bad && v is None && !holds(low, "connection established"@) ==> r == s
        }),
{
    let t = crate::progress::error_tags();
    assert(t[0] == "connection refused"@ && t[1] == "connection setup failure"@);
    assert(t[2] == "operation timed out"@ && t[3] == "no route to host"@ && t[4] == "srt error"@);
    assert(t[5] == "protocol not found"@ && t[6] == "input/output error"@);
    assert(t[7] == "error opening output"@ && t[8] == "could not write header"@);
    assert(t[9] == "broken pipe"@ && t[10] == "connection reset"@);
    assert(t[11] == "no such file or directory"@);
    assert(t.len() == 12);
}

/// A level goes to the meter of its channel and kind, and to no other; channels after the
/// second have none.
pub proof fn levels_go_to_their_meter(
    s: StatsModel,
    channel: u32,
    metric: AstatsMetric,
    value: Seq<char>,
    now: u64,
)
    ensures
        ({
            let r = levelled(s, channel, metric, value, now);
            let known = channel == 1 || channel == 2;
            let rms = metric is Rms;
            &&& r.audio_db_rms_l == (if rms && channel == 1 {
                value
            } else {
                s.audio_db_rms_l
            })
            &&& r.audio_db_rms_r == (if rms && channel == 2 {
                value
            } else {
                s.audio_db_rms_r
            })
            &&& r.audio_db_peak_l == (if !rms && channel == 1 {
                value
            } else {
                s.audio_db_peak_l
            })
            &&& r.audio_db_peak_r == (if !rms && channel == 2 {
                value
            } else {
                s.audio_db_peak_r
            })
            &&& r.audio_levels_at == (if known {
                now
            } else {
                s.audio_levels_at
            })
            &&& r.bitrate == s.bitrate && r.status == s.status && r.error == s.error
        }),
{
}

/// A level is read from a line that gives it: the channel, the kind, and the value.
#[verifier::rlimit(60)]
pub proof fn levels_are_read(s: StatsModel, channel: u32, rms: bool, value: Seq<char>, now: u64)
    requires
        is_float_text(value),
        trimmed(value) == value,
    ensures
        ({
            let name = if rms {
                "RMS_level"@
            } else {
                "Peak_level"@
            };
            let line = "lavfi.astats."@ + decimal(channel as nat) + "."@ + name + "="@ + value;
            let metric = if rms {
                AstatsMetric::Rms
            } else {
                AstatsMetric::Peak
            };
            after_level_line(s, line, now) == levelled(s, channel, metric, value, now)
        }),
{
    let name = if rms {
        "RMS_level"@
    } else {
        "Peak_level"@
    };
    let head = "lavfi.astats."@;
    let number = decimal(channel as nat);
    let line = head + number + "."@ + name + "="@ + value;
    reveal_strlit("lavfi.astats.");
    reveal_strlit(".");
    reveal_strlit("=");
    reveal_strlit("RMS_level");
    reveal_strlit("Peak_level");
    assert("RMS_level"@.len() == 9 && "Peak_level"@.len() == 10);
    assert(head.len() == 13);
    assert(line.subrange(0, 13) =~= head);
    assert(matches_at(line, head, 0));
    let t = line.skip(13);
    assert(t =~= number + "."@ + name + "="@ + value);
    decimal_is_digits(channel as nat);
    parsed_decimal(channel as nat, u32::MAX as int);
    let dot = number.len() as int;
    assert forall|j: int| 0 <= j < dot implies t[j] != '.' by {
        assert(t[j] == number[j]);
        assert(is_digit(number[j]));
    }
    assert(t[dot] == '.');
    position_is(t, '.', dot);
    assert(t.take(dot) =~= number);
    let rest = t.skip(dot + 1);
    assert(rest =~= name + "="@ + value);
    let eq = name.len() as int;
    assert forall|j: int| 0 <= j < eq implies rest[j] != '=' by {
        assert(rest[j] == name[j]);
    }
    assert(rest[eq] == '=');
    position_is(rest, '=', eq);
    assert(rest.take(eq) =~= name);
    assert(rest.skip(eq + 1) =~= value);
    assert(level_in(t) == Some(
        (
            channel,
            if rms {
                AstatsMetric::Rms
            } else {
                AstatsMetric::Peak
            },
            value,
        ),
    ));
}

/// Bytes up to an end of line make a line; ends of line after it make no more.
pub proof fn lines_are_cut_at_their_ends(l: Lines, s: Seq<u8>, end: u8)
    requires
        l.rest.len() == 0,
        s.len() > 0,
        forall|i: int| 0 <= i < s.len() ==> #[trigger] s[i] != 10 && s[i] != 13,
        end == 10 || end == 13,
    ensures
        line_run(l, s) == (Lines { lines: l.lines, rest: s }),
        line_run(l, s.push(end)) == (Lines { lines: l.lines.push(s), rest: Seq::empty() }),
        line_run(l, s.push(end).push(10)) == line_run(l, s.push(end)),
{
    bytes_are_kept(l, s);
    assert(s.push(end).drop_last() =~= s);
    assert(s.push(end).push(10).drop_last() =~= s.push(end));
}

proof fn bytes_are_kept(l: Lines, s: Seq<u8>)
    requires
        l.rest.len() == 0,
        forall|i: int| 0 <= i < s.len() ==> #[trigger] s[i] != 10 && s[i] != 13,
    ensures
        line_run(l, s) == (Lines { lines: l.lines, rest: s }),
    decreases s.len(),
{
    if s.len() > 0 {
        let w = s.drop_last();
        assert forall|i: int| 0 <= i < w.len() implies #[trigger] w[i] != 10 && w[i] != 13 by {
            assert(w[i] == s[i]);
        }
        bytes_are_kept(l, w);
        assert(s.last() == s[s.len() - 1]);
        assert(w.push(s.last()) =~= s);
    } else {
        assert(s =~= l.rest);
    }
}

/// Five hundred lines are kept of what FFmpeg prints.
pub proof fn the_log_has_its_room()
    ensures
        LOG_TAIL_CAPACITY == 500,
{
}

// ---------------------------------------------------------------------------
// Attempts
// ---------------------------------------------------------------------------

/// The wait before an attempt: none before the first, a second before the next, then twice as
/// long each time, until it would be more than a minute; then it is a minute.
pub proof fn waits_double(attempt: u32)
    ensures
        attempt <= 1 ==> backoff(attempt) == 0,
        attempt == 2 ==> backoff(attempt) == 1,
        2 <= attempt < 7 ==> backoff((attempt + 1) as u32) == 2 * backoff(attempt),
        attempt > 7 ==> backoff(attempt) == 60,
{
}

/// An attempt begins with figures of nothing, at the time it is begun; what was counted over
/// the attempts stays.
pub proof fn attempts_begin_with_nothing(s: StatsModel, now: u64)
    ensures
        ({
            let r = connecting(s, now);
            &&& r.status == "Connecting"@
            &&& r.error is None
            &&& r.started_at == Some(now)
            &&& r.bitrate == 0 && r.fps_tenths == 0 && r.speed_hundredths == 0 && r.frames_sent
                == 0 && r.frames_dropped == 0 && r.quality_tenths == 0
            &&& r.reconnect_attempt == s.reconnect_attempt
            &&& r.reconnect_next_secs == s.reconnect_next_secs
            &&& r.total_reconnects_this_session == s.total_reconnects_this_session
            &&& r.cache_used_pct == s.cache_used_pct
            &&& r.audio_db_rms_l == s.audio_db_rms_l && r.audio_db_rms_r == s.audio_db_rms_r
            &&& r.audio_db_peak_l == s.audio_db_peak_l && r.audio_db_peak_r == s.audio_db_peak_r
        }),
{
}

/// A run begins with no reconnects counted; nothing else changes.
pub proof fn runs_begin_with_no_reconnects(s: StatsModel)
    ensures
        ({
            let r = fresh_run(s);
            &&& r.reconnect_attempt == 0 && r.reconnect_next_secs == 0
                && r.total_reconnects_this_session == 0
            &&& r == StatsModel {
                reconnect_attempt: 0,
                reconnect_next_secs: 0,
                total_reconnects_this_session: 0,
                ..s
            }
        }),
{
}

/// When FFmpeg has ended, no stream runs and nothing is sent. One that the operator stopped is
/// idle. For another the error that was shown stays; if there was none, the exit code and the
/// last line that FFmpeg printed are told.
#[verifier::rlimit(60)]
pub proof fn ends_are_told(
    s: StatsModel,
    stopped: bool,
    exit_code: Option<i32>,
    log: Seq<Seq<char>>,
)
    ensures
        ({
            let r = ended(s, stopped, exit_code, log);
            &&& r.started_at is None && r.bitrate == 0
            &&& stopped ==> r.status == "Idle"@ && r.error == s.error && r.reconnect_attempt == 0
            &&& !stopped ==> r.status == s.status
            &&& !stopped && s.error is Some ==> r.error == s.error
            &&& !stopped && s.error is None ==> {
                let t = r.error->0;
                &&& r.error is Some
                &&& exit_code matches Some(c) ==> begins(
                    t,
                    "FFmpeg exited with code "@ + decimal_int(c as int) + ": "@,
                )
                &&& exit_code is None ==> begins(t, "FFmpeg exited unexpectedly: "@)
                &&& log.len() > 0 ==> finishes(t, log.last())
                &&& log.len() > 1 ==> finishes(t, log[log.len() - 2] + " | "@ + log.last())
                &&& log.len() > 2 ==> finishes(
                    t,
                    log[log.len() - 3] + " | "@ + log[log.len() - 2] + " | "@ + log.last(),
                )
            }
        }),
{
    let t = exit_text(exit_code, log);
    let v = last_lines(log, 3);
    let tail = joined(v, " | "@);
    let sep = " | "@;
    let head = match exit_code {
        Some(c) => "FFmpeg exited with code "@ + decimal_int(c as int) + ": "@,
        None => "FFmpeg exited unexpectedly: "@,
    };
    assert(t =~= head + tail);
    assert(t.subrange(0, head.len() as int) =~= head);
    reveal_with_fuel(joined, 4);
    if log.len() > 2 {
        let a = log[log.len() - 3];
        let b = log[log.len() - 2];
        let c = log.last();
        assert(v =~= seq![a, b, c]);
        assert(v.drop_last() =~= seq![a, b]);
        assert(seq![a, b].drop_last() =~= seq![a]);
        assert(tail =~= a + sep + b + sep + c);
        ends_with(head, tail);
        ends_with(head + a + sep, b + sep + c);
        ends_with(head + a + sep + b + sep, c);
        assert(t =~= head + a + sep + (b + sep + c));
        assert(t =~= head + a + sep + b + sep + c);
    } else if log.len() == 2 {
        let b = log[0];
        let c = log[1];
        assert(v =~= seq![b, c]);
        assert(v.drop_last() =~= seq![b]);
        assert(tail =~= b + sep + c);
        ends_with(head, tail);
        ends_with(head + b + sep, c);
        assert(t =~= head + b + sep + c);
    } else if log.len() == 1 {
        assert(tail == log[0]);
        ends_with(head, tail);
    }
}

proof fn ends_with(a: Seq<char>, b: Seq<char>)
    ensures
        finishes(a + b, b),
{
    assert((a + b).subrange(a.len() as int, (a + b).len() as int) =~= b);
}

/// After a failure another attempt is made if and only if reconnecting is on and the attempts
/// are not used up; none allowed means any number. It is counted, and it is made after the
/// wait of the next attempt. Otherwise the stream is interrupted, and if attempts were used
/// up, their number is told.
pub proof fn failures_are_followed_up(
    s: StatsModel,
    attempt: u32,
    auto_reconnect: bool,
    max_attempts: u32,
)
    requires
        attempt < u32::MAX,
    ensures
        ({
            let again = auto_reconnect && (max_attempts == 0 || attempt < max_attempts);
            let step = step_after_failure(attempt, auto_reconnect, max_attempts);
            let r = failed(s, attempt, auto_reconnect, max_attempts);
            &&& again ==> step == (NextStep::Retry { wait: backoff((attempt + 1) as u32) })
            &&& !again ==> step == NextStep::End
            &&& again && s.total_reconnects_this_session < u32::MAX ==> r == StatsModel {
                total_reconnects_this_session: (s.total_reconnects_this_session + 1) as u32,
                ..s
            }
            &&& !again ==> r.status == "Interrupted"@ && r.reconnect_attempt == 0
                && r.reconnect_next_secs == 0 && r.total_reconnects_this_session
                == s.total_reconnects_this_session
            &&& !auto_reconnect ==> r.error == s.error
            &&& auto_reconnect && !again ==> r.error == Some(
                "Stopped after "@ + decimal(max_attempts as nat) + " reconnect attempts."@,
            )
        }),
{
}

/// While it waits, the stream says that it reconnects, with which attempt, and when.
pub proof fn waiting_is_told(s: StatsModel, attempt: u32, remaining: u32)
    ensures
        waiting(s, attempt, remaining).status == "Reconnecting"@,
        waiting(s, attempt, remaining).reconnect_attempt == attempt,
        waiting(s, attempt, remaining).reconnect_next_secs == remaining,
        waiting(s, attempt, remaining).error == s.error,
        waiting(s, attempt, remaining).total_reconnects_this_session
            == s.total_reconnects_this_session,
{
}

/// An attempt that has run for more than a minute was a good one, and five looks in a row at a
/// stream that gives less than half a frame a second mean that it has stalled. A stream that
/// does not run yet cannot stall.
pub proof fn stalls_are_seen(status: Seq<char>, fps_tenths: u64, looks: Seq<bool>)
    ensures
        STABLE_NANOS == 60 * 1_000_000_000,
        STALL_TICKS == 5,
        looks_stalled(status, fps_tenths) <==> lowered(status) == "streaming"@ && 2 * fps_tenths
            < 10,
        looks.len() >= 5 && looks[looks.len() - 1] && looks[looks.len() - 2] && looks[looks.len()
            - 3] && looks[looks.len() - 4] && looks[looks.len() - 5] ==> stalls_after(looks)
            >= STALL_TICKS,
{
    if looks.len() >= 5 {
        let a = looks.drop_last();
        let b = a.drop_last();
        let c = b.drop_last();
        let d = c.drop_last();
        assert(a.last() == looks[looks.len() - 2]);
        assert(b.last() == looks[looks.len() - 3]);
        assert(c.last() == looks[looks.len() - 4]);
        assert(d.last() == looks[looks.len() - 5]);
        reveal_with_fuel(stalls_after, 6);
    }
}

// ---------------------------------------------------------------------------
// The machine
// ---------------------------------------------------------------------------

/// How bad a health is.
pub open spec fn badness(h: HealthStatus) -> int {
    match h {
        HealthStatus::Red => 2,
        HealthStatus::Yellow => 1,
        HealthStatus::Green => 0,
        HealthStatus::Unknown => -1,
    }
}

/// The machine is in a bad state if and only if the memory is at eighty-five per cent or the
/// processor has been at ninety three times in a row; else it is in a doubtful one if either
/// is at seventy. More load is never better.
pub proof fn health_follows_the_load(cpu: Percent, mem: Percent, more_cpu: Percent, more_mem: Percent, streak: int)
    requires
        cpu.whole <= more_cpu.whole,
        mem.whole <= more_mem.whole,
    ensures
        judged(cpu, mem, streak) == HealthStatus::Red <==> mem.whole >= 85 || streak >= 3,
        judged(cpu, mem, streak) == HealthStatus::Green <==> mem.whole < 70 && cpu.whole < 70
            && streak < 3,
        judged(cpu, mem, streak) != HealthStatus::Unknown,
        badness(judged(cpu, mem, streak)) <= badness(judged(more_cpu, more_mem, streak)),
        streak_after(streak, cpu) == (if cpu.whole >= 90 {
            streak + 1
        } else {
            0
        }),
{
}

/// Each figure of a line is read behind its own name.
pub proof fn figures_are_read_behind_their_name(line: Seq<char>)
    ensures
        line_progress(line).bitrate == figure(
            pattern_captures(r"bitrate=\s*([\d.]+)\s*kbits/s"@, line),
        ),
        line_progress(line).frame == whole_figure(pattern_captures(r"frame=\s*(\d+)"@, line)),
        line_progress(line).fps == figure(pattern_captures(r"fps=\s*([\d.]+)"@, line)),
        line_progress(line).speed == figure(pattern_captures(r"speed=\s*([\d.]+)x"@, line)),
        line_progress(line).drop == whole_figure(pattern_captures(r"drop=\s*(\d+)"@, line)),
        line_progress(line).quality == figure(pattern_captures(r"\bq=\s*([\d.]+)"@, line)),
{
}

/// A figure is what the first group of its pattern holds, if that is a number.
pub proof fn figures_are_the_first_group(g: Seq<Option<Seq<char>>>, n: u64)
    ensures
        is_float_text(group_text(g, 1)) ==> figure(Some(g)) == Some(group_text(g, 1)),
        !is_float_text(group_text(g, 1)) ==> figure(Some(g)) is None,
        group_text(g, 1) == decimal(n as nat) ==> whole_figure(Some(g)) == Some(n),
        figure(None) is None,
        whole_figure(None) is None,
{
    parsed_decimal(n as nat, u64::MAX as int);
}

/// A warning names what is wrong, the worst first: the memory at its limit, the processor at its
/// limit for long, or for a moment, and then either of them on the way there.
pub proof fn warnings_name_the_cause(cpu: Percent, mem: Percent, streak: int)
    ensures
        ({
            let c = decimal(cpu.shown as nat);
            let m = decimal(mem.shown as nat);
            let w = told(cpu, mem, streak);
            &&& mem.whole >= 85 ==> (w matches Some(t) && begins(t, "Memory at "@ + m + "% "@))
            &&& mem.whole < 85 && streak >= 3 ==> (w matches Some(t) && begins(
                t,
                "CPU sustained at "@ + c + "% "@,
            ))
            &&& mem.whole < 85 && streak < 3 && cpu.whole >= 90 ==> w == Some(
                "CPU spike at "@ + c + "%"@,
            )
            &&& mem.whole < 85 && streak < 3 && 70 <= cpu.whole < 90 ==> w == Some(
                "CPU at "@ + c + "%"@,
            )
            &&& 70 <= mem.whole < 85 && streak < 3 && cpu.whole < 70 ==> w == Some(
                "Memory at "@ + m + "%"@,
            )
            &&& mem.whole < 70 && streak < 3 && cpu.whole < 70 ==> w is None
        }),
{
    let c = decimal(cpu.shown as nat);
    let m = decimal(mem.shown as nat);
    let w = told(cpu, mem, streak);
    reveal_strlit("% ");
    reveal_strlit("% — risk of system unresponsive");
    reveal_strlit("% — encoder frame drops imminent");
    if mem.whole >= 85 {
        let h = "Memory at "@ + m + "% "@;
        assert((w->0).subrange(0, h.len() as int) =~= h);
    } else if streak >= 3 {
        let h = "CPU sustained at "@ + c + "% "@;
        assert((w->0).subrange(0, h.len() as int) =~= h);
    }
}

} // verus!
