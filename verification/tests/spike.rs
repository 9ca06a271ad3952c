//! The trial of many cards at once.
use atem_ip_patchbay::decklink_spike::{
    build_ffmpeg_args, command_preview, enumerate_decklink_outputs, parse_progress,
    parse_string_arg, parse_u64_arg, parse_usize_arg, read_stderr_line, resolve_ffmpeg, sidecar_in,
    trial_end, verdict, LimitedSplitter, SpikeLine, SpikeOptions, TileState, TrialEnd,
};

const SECOND: u64 = 1_000_000_000;

/// The number that a figure shows; none counts as zero.
fn number(figure: &Option<String>) -> f32 {
    figure.as_ref().map(|f| f.parse().unwrap()).unwrap_or(0.0)
}

fn words(list: &[&str]) -> Vec<String> {
    list.iter().map(|w| w.to_string()).collect()
}

#[test]
fn parses_progress_with_padded_equals() {
    let line = "frame=  120 fps= 30 q=-0.0 size=N/A time=00:00:04.00 bitrate=N/A speed=1.01x";
    let p = parse_progress(line);
    assert_eq!(p.frames, 120);
    assert!((number(&p.fps) - 30.0).abs() < 0.01);
}

#[test]
fn parses_progress_with_compact_equals() {
    let line = "frame=120 fps=29.97 q=20.0 size=1024kB time=00:00:04.00 bitrate=2048.0kbits/s speed=1.01x";
    let p = parse_progress(line);
    assert_eq!(p.frames, 120);
    assert!((number(&p.fps) - 29.97).abs() < 0.01);
    assert!((number(&p.bitrate) - 2048.0).abs() < 0.01);
}

#[test]
fn ignores_non_progress_lines() {
    let line = "Input #0, lavfi, from 'testsrc2=size=1920x1080:rate=30':";
    let p = parse_progress(line);
    assert_eq!(p.frames, 0);
    assert_eq!(number(&p.fps), 0.0);
}

#[test]
fn options_are_read() {
    let v = words(&["x", "--count", "3", "--count", "4", "--duration", "y", "--devices", " a ,,b"]);
    assert_eq!(parse_string_arg(&v, "--count").as_deref(), Some("3"));
    assert_eq!(parse_string_arg(&v, "--none"), None);
    assert_eq!(parse_string_arg(&words(&["--count"]), "--count"), None);
    assert_eq!(parse_usize_arg(&v, "--count"), Some(3));
    assert_eq!(parse_u64_arg(&v, "--duration"), None);
    let o = SpikeOptions::from_args(&v);
    assert_eq!((o.count, o.duration_secs, o.format_code.as_str()), (3, 300, "Hp29"));
    assert_eq!(o.chosen_devices(&words(&["c"])), ["a", "b"]);
    let o = SpikeOptions::from_args(&words(&["--count", "2", "--format-code", "Hp60", "--ffmpeg", "f"]));
    assert_eq!((o.format_code.as_str(), o.ffmpeg.as_deref()), ("Hp60", Some("f")));
    assert_eq!(o.chosen_devices(&words(&["c", "d", "e"])), ["c", "d"]);
    assert_eq!(SpikeOptions::from_args(&Vec::new()).count, 8);
}

#[test]
fn the_program_is_found() {
    let t = |s: &str| Some(s.to_string());
    assert_eq!(resolve_ffmpeg(t("n"), true, t("f")), "n");
    assert_eq!(resolve_ffmpeg(t("n"), false, t("f")), "f");
    assert_eq!(resolve_ffmpeg(t(""), true, None), "ffmpeg");
    assert_eq!(
        sidecar_in("C:\\x"),
        "C:\\x\\ATEM IP Patchbay\\resources\\sidecar\\ffmpeg.exe"
    );
}

#[test]
fn cards_are_listed() {
    let text = "[decklink @ 0x1] Blackmagic DeckLink devices:\n\
                [decklink @ 0x1] \t'Card 1'\n\
                [decklink @ 0x1] \t' Card 2 '\n\
                [decklink @ 0x1] 'Card 1'\n\
                [x] 'blackmagic decklink OUTPUT devices'\n\
                'no bracket'\n";
    assert_eq!(enumerate_decklink_outputs(text), ["Card 1", "Card 2"]);
}

#[test]
fn a_card_is_fed() {
    assert_eq!(
        build_ffmpeg_args("My Card", 60, "Hp59"),
        [
            "-hide_banner", "-loglevel", "info", "-stats_period", "1", "-f", "lavfi", "-i",
            "testsrc2=size=1920x1080:rate=60000/1001:duration=60", "-f", "lavfi", "-i",
            "anullsrc=channel_layout=stereo:sample_rate=48000:duration=60", "-vf",
            "format=uyvy422", "-c:v", "wrapped_avframe", "-c:a", "pcm_s16le", "-ar", "48000",
            "-ac", "2", "-t", "60", "-f", "decklink", "-format_code", "Hp59", "My Card",
        ]
    );
    for (code, rate) in [("Hp25", "25"), ("Hp30", "30"), ("Hp50", "50"), ("Hp60", "60"), ("x", "30000/1001")] {
        assert!(build_ffmpeg_args("c", 1, code)[8].contains(&format!("rate={rate}:")));
    }
    assert_eq!(command_preview("ff", &words(&["-i", "a b"])), "ff -i \"a b\"");
}

#[test]
fn long_lines_are_cut() {
    let mut s = LimitedSplitter::new();
    let long = vec![b'x'; 5_000];
    let lines = s.feed(&long);
    assert_eq!((lines.len(), lines[0].len()), (1, 4_096));
    assert_eq!(s.feed(b"\ra\n\nb"), ["x".repeat(904), "a".to_string()]);
    assert_eq!(s.finish().as_deref(), Some("b"));
    assert_eq!(s.finish(), None);
}

#[test]
fn lines_are_told_apart() {
    assert!(matches!(read_stderr_line("[d] Found Decklink Mode 1"), SpikeLine::Negotiated));
    match read_stderr_line("frame=1 fps=2 bitrate=3kbits/s error") {
        SpikeLine::Progress(p) => assert_eq!(
            (p.frames, p.fps.as_deref(), p.bitrate.as_deref()),
            (1, Some("2"), Some("3"))
        ),
        other => panic!("{other:?}"),
    }
    match read_stderr_line("  COULD NOT open ") {
        SpikeLine::Fault(f) => assert_eq!(f, "COULD NOT open"),
        other => panic!("{other:?}"),
    }
    assert!(matches!(read_stderr_line("frame=1"), SpikeLine::Other));
}

#[test]
fn a_card_is_watched() {
    let mut c = TileState::new(2, "Card".to_string(), 0);
    assert_eq!((c.badge(), c.note().as_str()), ("WAIT", "negotiating decklink…"));
    c.take_line(read_stderr_line("found decklink mode"), false, SECOND);
    assert_eq!((c.badge(), c.note().as_str(), c.last_progress), ("OK", "", SECOND));
    c.take_line(read_stderr_line("frame=9 fps=30 bitrate=5kbits/s"), true, 2 * SECOND);
    c.take_line(read_stderr_line("frame=3 fps=25 bitrate=0kbits/s"), false, 3 * SECOND);
    assert_eq!((c.frames, c.fps.as_deref(), c.bitrate_kbps.as_deref()), (9, Some("25"), Some("5")));
    c.take_line(read_stderr_line("an error"), false, 9 * SECOND);
    assert_eq!((c.note().as_str(), c.last_progress), ("err: an error", 3 * SECOND));
    c.check_stall(18 * SECOND - 1);
    assert!(c.alive);
    c.check_stall(18 * SECOND);
    assert_eq!((c.badge(), c.note().as_str()), ("DEAD", "stalled — no progress for 15s"));
    c.exited(Some(1), "9.0");
    assert_eq!(c.note(), "stalled — no progress for 15s");
}

#[test]
fn exits_are_told() {
    let mut c = TileState::new(0, "é".repeat(40), 0);
    c.exited(Some(-1), "2.5");
    assert_eq!(c.note(), "exited with Some(-1) after 2.5s");
    let mut c = TileState::new(0, "C".repeat(38), 0);
    assert_eq!(c.short_name(), "C".repeat(38));
    c.exited(None, "0.1");
    assert_eq!(c.note(), "exited with None after 0.1s");
    let mut c = TileState::new(0, "C".repeat(39), 0);
    assert_eq!(c.short_name(), format!("{}…", "C".repeat(37)));
    c.spawn_failed("gone");
    assert_eq!(c.note(), "spawn failed: gone");
}

#[test]
fn the_trial_ends() {
    let mut tiles = vec![TileState::new(0, "A".to_string(), 0), TileState::new(1, "B".to_string(), 0)];
    assert_eq!(trial_end(&tiles, SECOND, 2), None);
    assert_eq!(trial_end(&tiles, 2 * SECOND, 2), Some(TrialEnd::TimeIsUp));
    let v = verdict(&tiles, 2);
    assert_eq!(v.code, 0);
    assert_eq!(
        v.lines[0],
        "PASS: all 2 child(ren) held their DeckLink output for the full 2s."
    );
    assert_eq!(v.lines.len(), 3);
    tiles[1].take_line(read_stderr_line("it failed"), false, 0);
    tiles[1].exited(Some(1), "1.0");
    let v = verdict(&tiles, 2);
    assert_eq!(v.code, 1);
    assert_eq!(
        v.lines[..3],
        [
            "FAIL: 1 of 2 child(ren) died or stalled during the run.",
            "  [1] B — exited with Some(1) after 1.0s",
            "      last err: it failed",
        ]
    );
    assert_eq!(v.lines.len(), 6);
    tiles[0].spawn_failed("x");
    assert_eq!(trial_end(&tiles, SECOND, 2), Some(TrialEnd::AllDead));
}
