//! A stream that runs: what FFmpeg tells, and what becomes of it.
use atem_ip_patchbay::progress::{
    handle_log_line, is_float, parse_astats_line, parse_progress, AstatsMetric, LogTail,
    ProgressValues, LOG_TAIL_CAPACITY,
};
use atem_ip_patchbay::state::StreamStats;
use atem_ip_patchbay::supervisor::{
    backoff_secs, set_frozen, set_idle, AttemptOutcome, LineSplitter, NextStep, Session,
    StallDetector,
};

/// Hands a line on that holds no progress.
fn told(stats: &mut StreamStats, log: &mut LogTail, line: &str) {
    handle_log_line(stats, log, line, &None, 5)
}

#[test]
fn progress_is_read() {
    let p = parse_progress(
        "frame=  120 fps= 29.97 q=28.0 size=    1024kB time=00:00:04.00 bitrate=6000.5kbits/s \
         dup=0 drop=3 speed=1.01x",
    )
    .unwrap();
    assert_eq!(p.frame, Some(120));
    assert_eq!(p.fps.as_deref(), Some("29.97"));
    assert_eq!(p.quality.as_deref(), Some("28.0"));
    assert_eq!(p.bitrate.as_deref(), Some("6000.5"));
    assert_eq!(p.drop, Some(3));
    assert_eq!(p.speed.as_deref(), Some("1.01"));
    let p = parse_progress("frame=1 q=-1.0 fps=1.2.3 bitrate=N/A").unwrap();
    assert_eq!(p.frame, Some(1));
    assert_eq!(p.quality, None);
    assert_eq!(p.fps, None);
    assert_eq!(p.bitrate, None);
    assert!(parse_progress("Stream mapping:").is_none());
    assert!(parse_progress("frame=99999999999999999999").is_none());
}

#[test]
fn levels_are_read() {
    let (channel, metric, value) =
        parse_astats_line("[Parsed_ametadata_1 @ 0x7f80] lavfi.astats.1.RMS_level=-23.456").unwrap();
    assert_eq!((channel, metric, value.as_str()), (1, AstatsMetric::Rms, "-23.456"));
    let (channel, metric, value) =
        parse_astats_line("lavfi.astats.2.Peak_level= -12.345 ").unwrap();
    assert_eq!((channel, metric, value.as_str()), (2, AstatsMetric::Peak, "-12.345"));
    assert_eq!(parse_astats_line("lavfi.astats.1.RMS_level=-inf").unwrap().2, "-inf");
    assert!(parse_astats_line("lavfi.astats.Overall.RMS_level=-1").is_none());
    assert!(parse_astats_line("lavfi.astats.1.DC_offset=0").is_none());
    assert!(parse_astats_line("lavfi.astats.1.RMS_level=loud").is_none());
    assert!(parse_astats_line("RMS_level=-1").is_none());
}

#[test]
fn numbers_are_told_apart() {
    for s in ["1", "1.5", ".5", "5.", "-3e2", "+1E-7", "inf", "NaN", "-Infinity"] {
        assert!(is_float(s), "{s}");
        assert!(s.parse::<f32>().is_ok(), "{s}");
    }
    for s in ["", ".", "1.2.3", "e5", "1e", "+", "0x1", " 1", "in"] {
        assert!(!is_float(s), "{s}");
        assert!(s.parse::<f32>().is_err(), "{s}");
    }
}

#[test]
fn the_last_lines_are_kept() {
    let mut log = LogTail::new();
    for i in 0..LOG_TAIL_CAPACITY + 2 {
        log.push(&format!("line {i}"));
    }
    let all = log.last_log_tail(10_000);
    assert_eq!(all.len(), 500);
    assert_eq!(all[0], "line 2");
    assert_eq!(log.last_log_tail(2), ["line 500", "line 501"]);
    assert!(log.last_log_tail(0).is_empty());
    log.clear();
    assert!(log.last_log_tail(5).is_empty());
}

#[test]
fn lines_change_the_figures() {
    let mut s = StreamStats::default();
    let mut log = LogTail::new();
    s.status = "Connecting".to_string();
    told(&mut s, &mut log, "Stream mapping:");
    assert_eq!(s.status, "Connecting");
    told(&mut s, &mut log, "SRT Connection Established");
    assert_eq!(s.status, "Streaming");
    s.status = "Connecting".to_string();
    let v = ProgressValues {
        bitrate: Some(6_000_500),
        frame: Some(120),
        fps_tenths: Some(300),
        speed_hundredths: None,
        drop: Some(3),
        quality_tenths: Some(280),
    };
    s.speed_hundredths = 99;
    handle_log_line(&mut s, &mut log, "frame=120", &Some(v), 5);
    assert_eq!(s.status, "Streaming");
    assert_eq!((s.bitrate, s.frames_sent, s.fps_tenths), (6_000_500, 120, 300));
    assert_eq!((s.speed_hundredths, s.frames_dropped, s.quality_tenths), (99, 3, 280));
    assert_eq!(log.last_log_tail(9).len(), 3);
}

#[test]
fn levels_are_not_logged() {
    let mut s = StreamStats::default();
    let mut log = LogTail::new();
    told(&mut s, &mut log, "lavfi.astats.1.RMS_level=-20");
    told(&mut s, &mut log, "lavfi.astats.2.RMS_level=-21");
    told(&mut s, &mut log, "lavfi.astats.1.Peak_level=-10");
    told(&mut s, &mut log, "lavfi.astats.2.Peak_level=-11");
    assert_eq!((s.audio_db_rms_l.as_str(), s.audio_db_rms_r.as_str()), ("-20", "-21"));
    assert_eq!((s.audio_db_peak_l.as_str(), s.audio_db_peak_r.as_str()), ("-10", "-11"));
    assert_eq!(s.audio_levels_at, 5);
    let status = s.status.clone();
    handle_log_line(&mut s, &mut log, "lavfi.astats.3.RMS_level=-1", &None, 8);
    handle_log_line(&mut s, &mut log, "lavfi.astats.1.x=srt error", &None, 9);
    assert_eq!(s.audio_levels_at, 5);
    assert_eq!(s.status, status);
    assert!(s.error.is_none());
    assert!(log.last_log_tail(9).is_empty());
}

#[test]
fn errors_are_shown() {
    for tag in [
        "connection refused",
        "connection setup failure",
        "operation timed out",
        "no route to host",
        "srt error",
        "protocol not found",
        "input/output error",
        "error opening output",
        "could not write header",
        "broken pipe",
        "connection reset",
        "no such file or directory",
    ] {
        let mut s = StreamStats::default();
        let mut log = LogTail::new();
        let line = format!("[x] {}!", tag.to_uppercase());
        told(&mut s, &mut log, &line);
        assert_eq!(s.status, "Interrupted");
        assert_eq!(s.error.as_deref(), Some(line.as_str()));
    }
}

#[test]
fn lines_come_in_pieces() {
    let mut a = LineSplitter::new();
    assert_eq!(a.feed(b"one\rtw"), ["one"]);
    assert_eq!(a.feed(b"o\r\n\nthree\n\xff"), ["two", "three"]);
    assert_eq!(a.finish().as_deref(), Some("\u{fffd}"));
    let mut b = LineSplitter::new();
    assert_eq!(b.feed(b"one\rtwo\r\n\nthree\n"), ["one", "two", "three"]);
    assert_eq!(b.finish(), None);
}

#[test]
fn a_frozen_stream_is_noticed() {
    let mut d = StallDetector::new();
    for _ in 0..4 {
        assert!(!d.tick("Streaming", 4));
    }
    assert!(!d.tick("Streaming", 5));
    for _ in 0..4 {
        assert!(!d.tick("STREAMING", 0));
    }
    assert!(!d.tick("Connecting", 0));
    for _ in 0..4 {
        assert!(!d.tick("streaming", 0));
    }
    assert!(d.tick("Streaming", 0));
    let mut s = StreamStats::default();
    set_frozen(&mut s);
    assert_eq!(s.error.as_deref(), Some("Stream froze (no frames for 5s) — restarting"));
}

#[test]
fn waits_grow() {
    let waits: Vec<u32> = (0..10).map(backoff_secs).collect();
    assert_eq!(waits, [0, 0, 1, 2, 4, 8, 16, 32, 60, 60]);
    assert_eq!(backoff_secs(u32::MAX), 60);
}

#[test]
fn a_run_starts_afresh() {
    let mut r = Session::new();
    let mut s = StreamStats::default();
    assert_eq!(r.last_command(), "");
    assert_eq!(r.start_fault(), None);
    s.error = Some("old".to_string());
    s.frames_sent = 9;
    s.reconnect_attempt = 4;
    r.begin_attempt(&mut s, vec!["ff".to_string(), "a b".to_string()], 77);
    r.begin_run(&mut s);
    assert!(r.is_running());
    assert_eq!(r.last_command(), "ff 'a b'");
    assert_eq!(r.start_fault().as_deref(), Some("Stream already running."));
    assert_eq!((s.status.as_str(), s.error.as_ref(), s.started_at), ("Connecting", None, Some(77)));
    assert_eq!((s.frames_sent, s.reconnect_attempt), (0, 0));
}

#[test]
fn a_stopped_stream_is_idle() {
    let mut r = Session::new();
    let mut s = StreamStats::default();
    r.begin_attempt(&mut s, Vec::new(), 1);
    r.stop();
    let end = r.end_attempt(&mut s, Some(255));
    assert_eq!(end, AttemptOutcome::UserStopped);
    assert_eq!((s.status.as_str(), s.started_at), ("Idle", None));
    assert_eq!(r.after_attempt(&mut s, end, 0, true, 12), NextStep::End);
    s.status = "x".to_string();
    assert_eq!(r.end_attempt(&mut s, Some(1)), AttemptOutcome::UserStopped);
    assert_eq!(s.status, "x");
}

#[test]
fn an_exit_is_explained() {
    let mut r = Session::new();
    let mut s = StreamStats::default();
    r.begin_attempt(&mut s, Vec::new(), 1);
    for line in ["a", "b", "c", "d"] {
        told(&mut s, &mut r.log, line);
    }
    let end = r.end_attempt(&mut s, Some(-5));
    assert_eq!(end, AttemptOutcome::UnexpectedExit { exit_code: Some(-5) });
    assert_eq!(s.error.as_deref(), Some("FFmpeg exited with code -5: b | c | d"));
    assert!(!r.is_running());
    r.begin_attempt(&mut s, Vec::new(), 1);
    r.end_attempt(&mut s, None);
    assert_eq!(s.error.as_deref(), Some("FFmpeg exited unexpectedly: "));
    r.begin_attempt(&mut s, Vec::new(), 1);
    told(&mut s, &mut r.log, "Broken pipe");
    r.end_attempt(&mut s, Some(1));
    assert_eq!(s.error.as_deref(), Some("Broken pipe"));
}

#[test]
fn a_failed_attempt_is_repeated() {
    let exit = AttemptOutcome::UnexpectedExit { exit_code: Some(1) };
    let mut r = Session::new();
    let mut s = StreamStats::default();
    assert_eq!(r.after_attempt(&mut s, exit, 0, true, 3), NextStep::Retry { wait: 1 });
    assert_eq!((r.attempt, s.total_reconnects_this_session), (2, 1));
    assert!(r.backoff_tick(&mut s, 1));
    assert_eq!((s.status.as_str(), s.reconnect_attempt, s.reconnect_next_secs), ("Reconnecting", 2, 1));
    assert_eq!(r.after_setup_failure(&mut s, "gone", true, 3), NextStep::Retry { wait: 2 });
    assert_eq!(s.error.as_deref(), Some("Reconnect setup failed: gone"));
    // A minute is not longer than a minute.
    assert_eq!(r.after_attempt(&mut s, exit, 60_000_000_000, true, 3), NextStep::End);
    assert_eq!(s.status, "Interrupted");
    assert_eq!(s.error.as_deref(), Some("Stopped after 3 reconnect attempts."));
    assert_eq!((s.reconnect_attempt, s.reconnect_next_secs), (0, 0));
    assert_eq!(
        r.after_attempt(&mut s, exit, 60_000_000_001, true, 3),
        NextStep::Retry { wait: 1 }
    );
    r.stop();
    assert!(!r.backoff_tick(&mut s, 1));
    set_idle(&mut s);
    assert_eq!((s.status.as_str(), s.reconnect_attempt), ("Idle", 0));
}

#[test]
fn without_reconnecting_the_first_failure_is_the_last() {
    let exit = AttemptOutcome::UnexpectedExit { exit_code: None };
    let mut r = Session::new();
    let mut s = StreamStats::default();
    s.error = Some("why".to_string());
    assert_eq!(r.after_attempt(&mut s, exit, 0, false, 12), NextStep::End);
    assert_eq!((s.status.as_str(), s.error.as_deref()), ("Interrupted", Some("why")));
    assert_eq!(s.total_reconnects_this_session, 0);
}

#[test]
fn unlimited_runs_go_on() {
    let mut r = Session::new();
    let mut s = StreamStats::default();
    s.status = "Streaming".to_string();
    let exit = AttemptOutcome::UnexpectedExit { exit_code: Some(1) };
    for attempt in 2..300 {
        assert!(matches!(r.after_attempt(&mut s, exit, 0, true, 0), NextStep::Retry { .. }));
        assert_eq!(r.attempt, attempt);
    }
    assert_eq!((s.status.as_str(), s.error.is_none()), ("Streaming", true));
    assert_eq!(r.after_attempt(&mut s, exit, 0, false, 0), NextStep::End);
    assert_eq!(s.status, "Interrupted");
}
