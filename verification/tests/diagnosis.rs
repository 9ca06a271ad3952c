//! Tries of a destination, captured packets and the dashboard.
use atem_ip_patchbay::addresses::{is_private_or_loopback, normalize_mac};
use atem_ip_patchbay::dashboard::{
    config_answer, json_escape, recapture_pause_ms, route, DashboardState, LanVisibility, Route,
    UnifiStatus, KEEP_LAST_PROBES,
};
use atem_ip_patchbay::diag_cli::{stream_url, usage, Cli};
use atem_ip_patchbay::diag_config::{
    config_update_of, AtemUpdate, ConfigSnapshot, ConfigUpdate, DiagMode, LabelUpdate, SourceLabel,
};
use atem_ip_patchbay::flows::{
    capture_filter, find_tshark, monitored_ports, parse_tshark_bool, parse_tshark_line, stream_key,
    tshark_field_args, tshark_paths, FlowStats, FlowTable, PacketInfo,
};
use atem_ip_patchbay::json::JsonNode;
use atem_ip_patchbay::probe::{
    build_bmd_srt_url, clock_at, csv_header, csv_row, outcome_of, probe_args, summary_heading,
    ProbeOutcome, Stats, Tracker,
};
use atem_ip_patchbay::rank::rank;
use atem_ip_patchbay::timestamps::parse_iso8601_to_unix;
use atem_ip_patchbay::unifi::{
    auth_headers, both_failed, choose_credentials, integration_path, legacy_path, login_path,
    login_token, request_url, status_error, IntegrationClient, PollMemory, RawClient,
    UnifiCredentials,
};

const SECOND: u64 = 1_000_000_000;

fn words(line: &str) -> Vec<String> {
    line.split_whitespace().map(|w| w.to_string()).collect()
}

fn parsed(line: &str) -> Result<Cli, String> {
    Cli::parse(&words(line), false)
}

fn t(s: &str) -> Option<String> {
    Some(s.to_string())
}

#[test]
fn outcomes_are_told() {
    assert_eq!(outcome_of(Some(true), 9_000), ProbeOutcome::Connected);
    assert_eq!(outcome_of(Some(false), 2_499), ProbeOutcome::Rejected);
    assert_eq!(outcome_of(Some(false), 2_500), ProbeOutcome::Timeout);
    assert_eq!(outcome_of(None, 9_000), ProbeOutcome::Rejected);
    assert_eq!(ProbeOutcome::Rejected.label(), "REJECTED ");
    assert_eq!(ProbeOutcome::Timeout.csv_label(), "timeout");
}

#[test]
fn tries_are_commanded() {
    assert_eq!(
        probe_args("srt://h:1"),
        [
            "-hide_banner", "-loglevel", "error", "-timeout", "3000000", "-i", "srt://h:1", "-t",
            "0.001", "-f", "null", "-",
        ]
    );
    assert_eq!(
        build_bmd_srt_url("srt://h:1?x=y?z", "a b").unwrap(),
        "srt://h:1?mode=caller&latency=500000&streamid=%23%21%3A%3Abmd_uuid%3D\
         d1a90517-1c00-4e57-9fab-617465616d64%2Cbmd_name%3DATEM-net-diag%2Cu%3Da%20b"
    );
    assert_eq!(
        build_bmd_srt_url("rtmp://h", "k").unwrap_err(),
        "--key requires an srt:// base URL, got \"rtmp://h\""
    );
}

#[test]
fn figures_are_summed() {
    let mut s = Stats::default();
    assert_eq!(s.average_ms(), 0);
    s.record(&ProbeOutcome::Connected, 30);
    s.record(&ProbeOutcome::Rejected, 10);
    s.record(&ProbeOutcome::Timeout, 21);
    assert_eq!((s.total_probes, s.connected, s.rejected, s.timeout), (3, 1, 1, 1));
    assert_eq!((s.latency_min_ms, s.average_ms(), s.latency_max_ms), (10, 20, 30));
    assert_eq!(
        s.summary_tail("33.3"),
        "probes=3  ok=1 (33.3%)  reject=1  timeout=1  latency: min=10ms avg=20ms max=30ms"
    );
}

#[test]
fn tries_are_reported() {
    let mut k = Tracker::new();
    let r = k.note("", ProbeOutcome::Connected, 5, 2);
    assert_eq!((r.line.as_str(), r.summary_due), ("CONNECTED  (5ms)", false));
    let r = k.note("", ProbeOutcome::Connected, 6, 2);
    assert_eq!((r.line.as_str(), r.summary_due), ("CONNECTED  (6ms)  [streak 2]", true));
    let r = k.note("", ProbeOutcome::Timeout, 7, 0);
    assert_eq!(r.line, "=== STATE CHANGE === CONNECTED -> TIMEOUT     (7ms)");
    assert!(!r.summary_due);
    let r = k.note("", ProbeOutcome::Rejected, 8, 0);
    assert_eq!(r.line, "REJECTED   (8ms)  [streak 2]");
    let r = k.note("K", ProbeOutcome::Rejected, 9, 1);
    assert_eq!((r.line.as_str(), r.stats.total_probes), ("K  REJECTED   (9ms)", 1));
    let r = k.note("K", ProbeOutcome::Connected, 9, 1);
    assert_eq!(r.line, "=== STATE CHANGE === K  REJECTED  -> CONNECTED   (9ms)");
    assert_eq!(summary_heading(""), "summary");
    assert_eq!(summary_heading("K"), "summary  key=K");
}

#[test]
fn tries_are_logged() {
    assert_eq!(clock_at(86_400 + 3_600 * 5 + 60 * 6 + 7), "05:06:07");
    assert_eq!(csv_header(), "unix_seconds,clock,key,outcome,latency_ms");
    assert_eq!(csv_row(61, "K", ProbeOutcome::Connected, 12), "61,00:01:01,K,connected,12");
}

#[test]
fn arguments_are_read() {
    let c = parsed("srt://h:1 --key a --key b --interval 2 --summary-every 3 --csv f --port 7").unwrap();
    assert_eq!((c.url.as_str(), c.interval_secs, c.summary_every), ("srt://h:1", 2, 3));
    assert_eq!(c.keys, ["a", "b"]);
    assert_eq!(c.csv_path.as_deref(), Some("f"));
    assert_eq!(c.monitor_ports, [7]);
    let c = parsed("--ui").unwrap();
    assert_eq!((c.ui_port, c.url.as_str()), (Some(8092), "srt://192.168.20.189:1935"));
    assert_eq!((c.interval_secs, c.summary_every), (5, 12));
    let c = parsed("--ui 99 rtmp://h/a/k --no-summary").unwrap();
    assert_eq!((c.ui_port, c.url.as_str(), c.summary_every), (Some(99), "rtmp://h/a/k", 0));
    let c = parsed("--ui srt://h").unwrap();
    assert_eq!((c.ui_port, c.url.as_str()), (Some(8092), "srt://h"));
    assert_eq!(parsed("--monitor").unwrap().monitor_iface.as_deref(), Some("any"));
    let c = Cli::parse(&words("--monitor"), true).unwrap();
    assert_eq!(c.monitor_iface.as_deref(), Some("en0"));
    assert!(stream_url("rtmps://x"));
    assert!(!stream_url("http://x"));
}

#[test]
fn wrong_arguments_are_told() {
    let fault = |line: &str| parsed(line).unwrap_err();
    assert_eq!(fault(""), usage());
    assert_eq!(fault("srt://h --help"), usage());
    assert_eq!(fault("--no-summary"), usage());
    assert!(usage().starts_with("atem-net-diag — probe an SRT/RTMP destination on a fixed interval, log"));
    assert_eq!(fault("--port"), "--port needs a value");
    assert_eq!(fault("--port 65536"), "--port value not 1..65535: 65536");
    assert_eq!(fault("--interval"), "--interval needs a value (seconds)");
    assert_eq!(fault("--interval x"), "--interval value not an integer: x");
    assert_eq!(fault("--interval 0"), "--interval must be > 0");
    assert_eq!(fault("--summary-every"), "--summary-every needs a value (probes)");
    assert_eq!(fault("--summary-every -1"), "--summary-every value not an integer: -1");
    assert_eq!(fault("--csv"), "--csv needs a path");
    assert_eq!(fault("--key"), "--key needs a value");
    assert_eq!(fault("--what"), "unknown argument: --what");
    assert_eq!(fault("srt://a srt://b"), "unknown argument: srt://b");
    assert_eq!(fault("http://a"), "URL should start with srt:// or rtmp(s):// — got http://a");
    assert_eq!(
        fault("rtmp://a --key k"),
        "--key is SRT-only — RTMP keys are part of the URL path. \
         Drop --key and put the key in the URL like rtmp://host:port/app/KEY."
    );
}

#[test]
fn captures_are_commanded() {
    let args = tshark_field_args("en0", "port 1");
    assert_eq!(
        args[..9],
        ["-i", "en0", "-l", "-f", "port 1", "-T", "fields", "-E", "separator=,"]
    );
    assert_eq!(args.len(), 9 + 2 * 16);
    assert_eq!(args[args.len() - 1], "udp.payload");
    assert_eq!(capture_filter(&monitored_ports(&Vec::new())), "port 1935 or port 9710 or port 9977 or port 1936");
    assert_eq!(capture_filter(&monitored_ports(&vec![7])), "port 7");
    assert_eq!(tshark_paths().len(), 4);
    assert_eq!(
        find_tshark(&vec![false, true, true, false]).as_deref(),
        Some("/usr/local/bin/tshark")
    );
    assert_eq!(find_tshark(&vec![false; 4]), None);
}

#[test]
fn packets_are_read() {
    let p = parse_tshark_line("0.1, 1.1.1.1 ,,5,2.2.2.2,,6,SRT,99,True,1,2,3000,4,5,").unwrap();
    assert_eq!((p.src_ip.as_str(), p.src_port), ("1.1.1.1", 5));
    assert_eq!((p.dst_ip.as_str(), p.dst_port), ("2.2.2.2", 6));
    assert!(p.is_udp);
    assert_eq!((p.protocol.as_str(), p.bytes), ("SRT", 99));
    let a = p.srt.unwrap();
    assert!(a.is_control);
    assert_eq!((a.bw_pkts_s, a.rate_pkts_s, a.rtt_us), (Some(1), Some(2), Some(3000)));
    assert_eq!((a.rttvar_us, a.buf_avail_pkts), (Some(4), Some(5)));
    assert_eq!(p.stream_id, None);
    let p = parse_tshark_line("0,1.1.1.1,7,,2.2.2.2,8,,TCP,x").unwrap();
    assert_eq!((p.src_port, p.dst_port, p.is_udp, p.bytes), (7, 8, false, 0));
    assert!(p.srt.is_none());
    assert!(parse_tshark_line("0,1.1.1.1,7,,2.2.2.2,8,,TCP").is_none());
    assert!(parse_tshark_line("0,,7,,2.2.2.2,8,,TCP,1").is_none());
    assert!(parse_tshark_line("0,1.1.1.1,7,,2.2.2.2,,9,TCP,1").is_none());
    assert_eq!(parse_tshark_bool(" true "), Some(true));
    assert_eq!(parse_tshark_bool("False"), Some(false));
    assert_eq!(parse_tshark_bool("2"), None);
}

/// The bytes of a handshake that tells "u=k1", as hexadecimal digits.
fn handshake() -> String {
    let mut b: Vec<u8> = vec![0x80, 0];
    b.extend([0u8; 14]);
    b.extend([0, 0, 0, 5]);
    b.extend([0u8; 16]);
    b.extend([0xff; 4]);
    b.extend([0u8; 24]);
    b.extend([0, 5, 0, 1]);
    b.extend(*b"1k=u");
    b.iter().map(|x| format!("{x:02x}")).collect()
}

#[test]
fn packets_tell_stream_ids() {
    let line = |control: &str| format!("0,1.1.1.1,,5,2.2.2.2,,6,SRT,99,{control},,,,,,{}", handshake());
    assert_eq!(parse_tshark_line(&line("1")).unwrap().stream_id.as_deref(), Some("u=k1"));
    assert_eq!(parse_tshark_line(&line("0")).unwrap().stream_id, None);
    assert_eq!(stream_key("u=k1"), "k1");
    assert_eq!(stream_key("plain"), "plain");
}

fn packet(src: &str, dst: &str, bytes: u64) -> PacketInfo {
    parse_tshark_line(&format!("0,{src},,5,{dst},,6,,{bytes}")).unwrap()
}

#[test]
fn flows_are_counted() {
    let mut f = FlowTable::new();
    f.note(&packet("1.1.1.1", "2.2.2.2", 10), 0, false);
    f.note(&packet("1.1.1.1", "2.2.2.2", 20), SECOND - 1, false);
    f.note(&packet("1.1.1.1", "2.2.2.2", 40), SECOND, false);
    f.note(&packet("3.3.3.3", "2.2.2.2", 500), SECOND, false);
    assert_eq!(f.flows.len(), 2);
    let s = &f.flows[0].stats;
    assert_eq!((s.total_bytes, s.total_packets, s.window_bytes), (70, 3, 70));
    assert_eq!((s.first_seen, s.last_seen), (Some(0), Some(SECOND)));
    assert_eq!(s.bitrate_samples, [30]);
    assert_eq!(s.bitrate_window_bytes, 40);
    assert_eq!(f.busiest(SECOND, 60 * SECOND), [1, 0]);
    let l = f.listing(2 * SECOND, 5);
    assert_eq!(l.rows.len(), 2);
    assert_eq!(l.rows[0].source, "3.3.3.3:5");
    assert_eq!((l.rows[0].rate, l.rows[0].proto.as_str(), l.rows[0].moving), (100, "UDP", true));
    assert_eq!(l.rows[0].idle, Some(SECOND));
    f.end_window();
    assert_eq!(f.flows[1].stats.window_bytes, 0);
    assert!(f.listing(61 * SECOND, 5).rows.is_empty());
}

#[test]
fn samples_stay_few() {
    let mut f = FlowTable::new();
    for i in 0..70 {
        f.note(&packet("1.1.1.1", "2.2.2.2", i), i * SECOND, false);
    }
    let s = &f.flows[0].stats.bitrate_samples;
    assert_eq!(s.len(), 60);
    assert_eq!((s[0], s[59]), (9, 68));
}

#[test]
fn keys_are_ranked() {
    assert_eq!(rank(&vec![1, 5, 3, 5]), [1, 3, 2, 0]);
    assert!(rank(&Vec::new()).is_empty());
}

#[test]
fn addresses_are_normal() {
    for s in ["7C-2E-0D-21-AB-FE", "7C2E0D21ABFE", "7c:2e:0d:21:ab:fe"] {
        assert_eq!(normalize_mac(s), "7c:2e:0d:21:ab:fe");
    }
    assert_eq!(normalize_mac(" Not a MAC "), "not a mac");
    for ip in ["10.1.1.1", "172.16.0.1", "172.31.9.9", "192.168.1.1", "127.0.0.1", "0.0.0.0",
        "169.254.1.1", "224.0.0.1", "::1", "1.2.3", "256.1.1.1"] {
        assert!(is_private_or_loopback(ip), "{ip}");
    }
    for ip in ["8.8.8.8", "172.32.0.1", "192.167.1.1", "223.1.1.1", "1.2.3.4.x"] {
        assert!(!is_private_or_loopback(ip), "{ip}");
    }
}

#[test]
fn dates_are_read() {
    let at = |s: &str| parse_iso8601_to_unix(Some(s));
    assert_eq!(at("1970-01-01T00:00:00Z"), Some(0));
    assert_eq!(at("2026-04-26T18:30:45.123Z"), Some(1_777_228_245));
    assert_eq!(at("2026-04-26T18:30:45+00:00"), Some(1_777_228_245));
    assert_eq!(at("2000-02-29T12:00"), Some(951_825_600));
    assert_eq!(at("1969-12-31T23:59:59Z"), None);
    assert_eq!(at("2026-04-26"), None);
    assert_eq!(at("2026-04-xxT00:00:00"), None);
    assert_eq!(parse_iso8601_to_unix(None), None);
}

fn dashboard() -> DashboardState {
    DashboardState::new(&parsed("srt://h:1").unwrap(), None, false, false, 100)
}

#[test]
fn a_new_dashboard_watches() {
    let d = dashboard();
    assert_eq!(d.started_at, 100);
    assert_eq!(d.config.mode, DiagMode::Live);
    assert_eq!(d.config.monitor_iface.as_deref(), Some("any"));
    assert_eq!(d.config.unifi_host, "https://192.168.20.1");
    assert_eq!(d.config.atem.ip, "192.168.20.189");
    assert!(!d.config.unifi_configured);
    assert!(d.config.due_probes().targets.is_empty());
    assert_eq!(d.config.due_probes().pause_secs, 2);
    let d = DashboardState::new(&parsed("--ui").unwrap(), t(" "), true, true, 0);
    assert_eq!(d.config.unifi_host, "https://192.168.20.1");
    assert_eq!(d.config.monitor_iface.as_deref(), Some("en0"));
    assert!(d.config.unifi_configured);
}

fn configured() -> ConfigSnapshot {
    dashboard().config
}

#[test]
fn settings_of_the_dashboard_change() {
    let mut c = configured();
    let e = c
        .apply(&ConfigUpdate {
            url: t(" rtmp://x "),
            keys: Some(vec![" a ".to_string(), " ".to_string()]),
            interval_secs: Some(9),
            mode: t("StandBy"),
            atem: Some(AtemUpdate { ip: t(" 1.1.1.1 "), mac: t("7C2E0D21ABFE"), port: Some(70_000) }),
            unifi_host: t(" h "),
            monitor_iface: t("eth0"),
            ..Default::default()
        })
        .unwrap();
    assert!(e.new_target && e.new_iface);
    assert_eq!((c.url.as_str(), c.interval_secs), ("rtmp://x", 9));
    assert_eq!(c.keys, ["a"]);
    assert_eq!(c.mode, DiagMode::Standby);
    assert_eq!((c.atem.ip.as_str(), c.atem.port), ("1.1.1.1", 1935));
    assert_eq!(c.atem.mac.as_deref(), Some("7c:2e:0d:21:ab:fe"));
    assert_eq!((c.unifi_host.as_str(), c.monitor_iface.as_deref()), ("h", Some("eth0")));
    let e = c
        .apply(&ConfigUpdate {
            url: t("rtmp://x"),
            interval_secs: Some(0),
            mode: t("other"),
            monitor_iface: t(" "),
            ..Default::default()
        })
        .unwrap();
    assert!(!e.new_target && !e.new_iface);
    assert_eq!((c.interval_secs, c.mode), (9, DiagMode::Standby));
    let refused = c.apply(&ConfigUpdate { url: t("ftp://x"), ..Default::default() });
    assert_eq!(
        refused.unwrap_err(),
        "URL must start with srt://, rtmp://, or rtmps:// (got \"ftp://x\")"
    );
}

#[test]
fn senders_are_named() {
    let mut c = configured();
    let label = |ip: &str, label: &str| SourceLabel { ip: ip.to_string(), label: label.to_string() };
    let set = |ip: &str, label: Option<&str>| ConfigUpdate {
        source_label_set: Some(LabelUpdate { ip: t(ip), label: label.and_then(t) }),
        ..Default::default()
    };
    c.apply(&ConfigUpdate {
        source_labels: Some(vec![label("a", "1"), label("b", "2")]),
        ..Default::default()
    })
    .unwrap();
    c.apply(&set(" a ", Some("3"))).unwrap();
    c.apply(&set("b", None)).unwrap();
    c.apply(&set(" ", Some("4"))).unwrap();
    assert_eq!(c.source_labels.len(), 1);
    assert_eq!((c.source_labels[0].ip.as_str(), c.source_labels[0].label.as_str()), ("a", "3"));
}

#[test]
fn another_destination_starts_afresh() {
    let mut d = dashboard();
    d.record_probe("k", ProbeOutcome::Connected, 5, 200);
    d.capture_began(42, 300);
    assert_eq!((d.probes.len(), d.last_probe_at), (1, 200));
    let same = ConfigUpdate { url: t("srt://h:1"), ..Default::default() };
    assert_eq!(d.apply_config_update(&same), Ok(None));
    assert_eq!(d.probes.len(), 1);
    let other = ConfigUpdate { url: t("srt://i:1"), monitor_iface: t("eth9"), ..Default::default() };
    assert_eq!(d.apply_config_update(&other), Ok(Some(42)));
    assert_eq!((d.probes.len(), d.last_probe_at), (0, 0));
    assert!(d.key_snapshots().is_empty());
    assert_eq!(d.monitor_pid, None);
}

#[test]
fn due_tries_have_their_keys() {
    let mut c = configured();
    c.mode = DiagMode::Standby;
    let r = c.due_probes();
    assert_eq!((r.targets.len(), r.pause_secs), (1, 5));
    assert_eq!((r.targets[0].url.as_str(), r.targets[0].key.as_str()), ("srt://h:1", ""));
    c.keys = vec!["a".to_string(), "b".to_string()];
    c.interval_secs = 0;
    let r = c.due_probes();
    assert_eq!((r.targets.len(), r.pause_secs), (2, 1));
    assert_eq!(r.targets[1].url, build_bmd_srt_url("srt://h:1", "b").unwrap());
    c.url = "rtmp://h".to_string();
    assert!(c.due_probes().targets.is_empty());
    c.url = String::new();
    assert_eq!(c.due_probes().pause_secs, 2);
}

#[test]
fn the_last_tries_are_shown() {
    let mut d = dashboard();
    for i in 0..(KEEP_LAST_PROBES as u64 + 5) {
        d.record_probe("k", ProbeOutcome::Rejected, i, i);
    }
    d.record_probe("k", ProbeOutcome::Timeout, 0, 999);
    assert_eq!(d.probes.len(), 250);
    assert_eq!(d.probes[0].latency_ms, 6);
    let k = d.key_snapshots();
    assert_eq!((k.len(), k[0].key.as_str(), k[0].stats.total_probes), (1, "k", 256));
    assert_eq!(k[0].last_outcome.as_deref(), Some("timeout"));
}

#[test]
fn captured_flows_are_shown() {
    let mut d = dashboard();
    let mut p = packet("8.8.8.8", "192.168.20.189", 100);
    p.stream_id = t("#!::u=abc");
    d.note_packet(&p, 10 * SECOND, 77);
    d.note_packet(&packet("10.0.0.1", "9.9.9.9", 900), 12 * SECOND, 78);
    assert_eq!(d.last_flow_at, 78);
    assert_eq!(d.rdns_pending, ["8.8.8.8"]);
    let f = d.flow_snapshots(13 * SECOND);
    assert_eq!(f.len(), 2);
    assert_eq!((f[0].recent_bytes, f[0].health.as_str()), (900, "streaming"));
    assert_eq!(f[1].stream_key.as_deref(), Some("abc"));
    assert_eq!((f[1].idle, f[1].duration), (3 * SECOND, 3 * SECOND));
    assert_eq!(d.flow_snapshots(70 * SECOND).len(), 2);
    assert_eq!(d.flow_snapshots(70 * SECOND + 1).len(), 1);
}

#[test]
fn the_health_of_a_flow_is_told() {
    let mut d = dashboard();
    let ack = parse_tshark_line("0,1.1.1.1,,5,2.2.2.2,,6,SRT,9,1,1000,,2500,,7").unwrap();
    d.note_packet(&ack, 0, 0);
    d.flows.end_window();
    let f = d.flow_snapshots(SECOND);
    assert_eq!((f[0].health.as_str(), f[0].control_packets), ("handshake", 1));
    assert_eq!((f[0].last_srt_rtt_ms, f[0].last_srt_rttvar_ms), (Some(2), None));
    assert_eq!((f[0].last_srt_bw_kbps, f[0].last_srt_buf_pkts), (Some(10_528), Some(7)));
    assert_eq!(f[0].last_srt_ack_idle, Some(SECOND));
    assert_eq!(d.flow_snapshots(5 * SECOND + 1)[0].health, "idle");
    for _ in 0..10 {
        d.note_packet(&packet("3.3.3.3", "4.4.4.4", 1), 0, 0);
    }
    d.flows.end_window();
    assert!(d.flow_snapshots(SECOND).iter().any(|f| f.health == "stalling"));
}

#[test]
fn blindness_is_noticed() {
    let mut d = dashboard();
    assert_eq!(d.compute_lan_visibility(1_000), LanVisibility::Unknown);
    d.capture_began(1, 100);
    assert_eq!(d.compute_lan_visibility(129), LanVisibility::Unknown);
    assert_eq!(d.compute_lan_visibility(130), LanVisibility::PossiblyBlind { since: 130 });
    d.note_packet(&packet("1.1.1.1", "2.2.2.2", 1), 0, 0);
    assert_eq!(d.compute_lan_visibility(500), LanVisibility::PossiblyBlind { since: 130 });
    d.note_packet(&packet("192.168.20.189", "2.2.2.2", 1), 0, 0);
    assert_eq!(d.compute_lan_visibility(500), LanVisibility::SeesPeers);
    d.config.atem.ip = " ".to_string();
    assert_eq!(d.compute_lan_visibility(500), LanVisibility::Unknown);
    d.capture_ended();
    assert_eq!(d.monitor_pid, None);
}

#[test]
fn requests_are_answered() {
    assert_eq!(json_escape("a\"\\\n\r\t\u{1}é"), "\"a\\\"\\\\\\n\\r\\t\\u0001é\"");
    assert_eq!(route(false, "/"), Route::Page);
    assert_eq!(route(false, "/index.html"), Route::Page);
    assert_eq!(route(false, "/api/state"), Route::State);
    assert_eq!(route(true, "/api/config"), Route::Config);
    assert_eq!(route(true, "/"), Route::NotFound);
    assert_eq!(route(false, "/api/config"), Route::NotFound);
    assert_eq!(config_answer(None), (200, "{\"ok\":true}".to_string()));
    assert_eq!(config_answer(Some("no")), (400, "{\"error\":\"no\"}".to_string()));
    assert_eq!(recapture_pause_ms(2 * SECOND - 1), 5_000);
    assert_eq!(recapture_pause_ms(2 * SECOND), 300);
}

#[test]
fn credentials_are_chosen() {
    match choose_credentials(t(" key "), t("u"), t("p")) {
        Some(UnifiCredentials::ApiKey(k)) => assert_eq!(k, "key"),
        other => panic!("{other:?}"),
    }
    match choose_credentials(t(" "), t(" u "), t(" p ")) {
        Some(UnifiCredentials::Login { username, password }) => {
            assert_eq!((username.as_str(), password.as_str()), ("u", " p "))
        }
        other => panic!("{other:?}"),
    }
    assert!(choose_credentials(None, t(" "), t("p")).is_none());
    assert!(choose_credentials(None, t("u"), t("")).is_none());
    assert!(choose_credentials(None, t("u"), None).is_none());
}

#[test]
fn the_gateway_is_asked() {
    let key = UnifiCredentials::ApiKey("K".to_string());
    let h = auth_headers(&key, &t("c"));
    assert_eq!((h.len(), h[0].name, h[0].value.as_str()), (2, "X-API-KEY", "K"));
    assert_eq!((h[1].name, h[1].value.as_str()), ("Accept", "application/json"));
    let login = UnifiCredentials::Login { username: "u".to_string(), password: "p".to_string() };
    assert!(auth_headers(&login, &None).is_empty());
    let h = auth_headers(&login, &t("c"));
    assert_eq!((h.len(), h[0].name, h[0].value.as_str()), (1, "X-CSRF-Token", "c"));
    assert_eq!(login_token(t("a"), t("b")).as_deref(), Some("a"));
    assert_eq!(login_token(None, t("b")).as_deref(), Some("b"));
    assert_eq!(request_url("https://h//", login_path()), "https://h/api/auth/login");
    assert_eq!(legacy_path("default"), "/proxy/network/api/s/default/stat/sta");
    assert_eq!(integration_path("s"), "/proxy/network/integration/v1/sites/s/clients");
    assert_eq!(
        both_failed("a", "b"),
        "legacy stat/sta failed: a; integration API also failed: b"
    );
    assert_eq!(status_error(401, &"é".repeat(300)), format!("HTTP 401: {}", "é".repeat(200)));
}

fn client(mac: &str, sent: u64, got: u64) -> RawClient {
    RawClient {
        mac: mac.to_string(),
        ip: None,
        hostname: None,
        name: None,
        oui: None,
        last_seen: None,
        tx_bytes: got,
        rx_bytes: sent,
        wired_tx_bytes: 0,
        wired_rx_bytes: 0,
        rate_kbps: None,
        is_wired: false,
    }
}

#[test]
fn clients_have_rates() {
    let mut m = PollMemory::new();
    let atem = t("AA:BB");
    let c = m.clients(&vec![client("aa:BB", 1_000, 0), client("cc", 0, 0)], &atem, 0);
    assert_eq!((c.len(), c[0].mac.as_str(), c[0].is_atem, c[1].is_atem), (2, "aa:bb", true, false));
    assert_eq!((c[0].tx_bytes, c[0].rx_bytes, c[0].tx_kbps), (1_000, 0, 0));
    let c = m.clients(&vec![client("AA:bb", 3_000, 500)], &atem, 2 * SECOND);
    assert_eq!((c[0].tx_kbps, c[0].rx_kbps), (8, 2));
    let c = m.clients(&vec![client("AA:bb", 9_000, 500)], &atem, 2 * SECOND + SECOND / 10);
    assert_eq!((c[0].tx_kbps, c[0].rx_kbps), (0, 0));
    let mut told = client("AA:bb", 0, 0);
    told.rate_kbps = Some((7, 9));
    told.wired_rx_bytes = u64::MAX;
    told.rx_bytes = 5;
    let c = m.clients(&vec![told], &None, 9 * SECOND);
    assert_eq!((c[0].tx_kbps, c[0].rx_kbps, c[0].is_atem), (7, 9, false));
    assert_eq!(c[0].tx_bytes, u64::MAX);
}

#[test]
fn other_clients_are_taken() {
    let c = RawClient::from_integration(IntegrationClient {
        name: t("n"),
        mac_address: None,
        ip_address: t("i"),
        last_seen: t("1970-01-01T00:01:00Z"),
        kind: t("wired"),
    });
    assert_eq!((c.mac.as_str(), c.ip.as_deref(), c.name.as_deref()), ("", Some("i"), Some("n")));
    assert_eq!((c.last_seen, c.is_wired, c.effective_tx_bytes()), (Some(60), true, 0));
}

#[test]
fn the_poll_is_shown() {
    let mut d = dashboard();
    assert!(matches!(d.unifi_status, UnifiStatus::NotConfigured));
    d.poll_began();
    assert!(matches!(d.unifi_status, UnifiStatus::Connecting));
    let mut m = PollMemory::new();
    d.poll_done(m.clients(&vec![client("a", 1, 2)], &None, 0), 50);
    assert!(matches!(d.unifi_status, UnifiStatus::Connected { last_poll_at: 50 }));
    assert_eq!((d.unifi_clients.len(), d.last_unifi_poll_at), (1, 50));
    d.poll_failed("why".to_string(), 60);
    match &d.unifi_status {
        UnifiStatus::Failed { error, last_attempt } => {
            assert_eq!((error.as_str(), *last_attempt), ("why", 60))
        }
        other => panic!("{other:?}"),
    }
    assert_eq!(d.unifi_clients.len(), 1);
}

#[test]
fn requests_change_the_dashboard() {
    let mut d = dashboard();
    d.capture_began(42, 300);
    let body = r#"{
        "url": " rtmp://x ", "keys": [" a ", 3, ["no"], "b"], "interval_secs": 9,
        "mode": "standby", "atem": {"mac": "7C2E0D21ABFE", "ip": "1.1.1.1", "port": 7},
        "monitor_iface": "eth0", "unifi_host": 5, "wan_upload_cap_mbps": 1.5,
        "source_labels": {"9.9.9.9": "Cam", "8.8.8.8": {"ip": "no"}},
        "source_label_set": {"ip": "7.7.7.7", "label": "Desk"}
    }"#;
    assert_eq!(d.apply_config_body(body), Ok(Some(42)));
    let c = &d.config;
    assert_eq!((c.url.as_str(), c.interval_secs, c.mode), ("rtmp://x", 9, DiagMode::Standby));
    assert_eq!(c.keys, ["a", "b"]);
    assert_eq!((c.atem.ip.as_str(), c.atem.port), ("1.1.1.1", 7));
    assert_eq!(c.atem.mac.as_deref(), Some("7c:2e:0d:21:ab:fe"));
    assert_eq!(c.monitor_iface.as_deref(), Some("eth0"));
    assert_eq!(c.unifi_host, "https://192.168.20.1");
    let labels: Vec<(&str, &str)> =
        c.source_labels.iter().map(|l| (l.ip.as_str(), l.label.as_str())).collect();
    assert_eq!(labels, [("9.9.9.9", "Cam"), ("7.7.7.7", "Desk")]);
    // Something else in place of the switcher is taken as one of which nothing is told.
    assert_eq!(d.apply_config_body(r#"{"atem": 1, "interval_secs": -1}"#), Ok(None));
    assert_eq!((d.config.atem.ip.as_str(), d.config.atem.port), ("", 1935));
    assert_eq!(d.config.interval_secs, 9);
    assert_eq!(d.apply_config_body("[1]"), Ok(None));
}

#[test]
fn requests_can_be_refused() {
    let mut d = dashboard();
    let fault = d.apply_config_body("{\"url\": ").unwrap_err();
    assert!(fault.starts_with("invalid JSON: EOF while parsing a value at line 1"));
    assert_eq!(
        d.apply_config_body(r#"{"url": "ftp://x", "interval_secs": 9}"#).unwrap_err(),
        "URL must start with srt://, rtmp://, or rtmps:// (got \"ftp://x\")"
    );
    assert_eq!((d.config.url.as_str(), d.config.interval_secs), ("srt://h:1", 5));
}

#[test]
fn values_are_found_in_their_objects() {
    let node = |parent: Option<usize>, key: Option<&str>, text: Option<&str>| JsonNode {
        parent,
        key: key.map(str::to_string),
        list: false,
        object: text.is_none(),
        text: text.map(str::to_string),
        number: None,
    };
    let nodes = vec![
        node(None, None, None),
        node(Some(0), Some("atem"), None),
        node(Some(1), Some("url"), Some("inner")),
        node(Some(1), Some("ip"), Some("1.2.3.4")),
        node(Some(0), Some("mode"), Some("live")),
    ];
    let u = config_update_of(&nodes);
    assert_eq!(u.url, None);
    assert_eq!(u.mode.as_deref(), Some("live"));
    assert_eq!(u.atem.unwrap().ip.as_deref(), Some("1.2.3.4"));
    assert!(u.keys.is_none() && u.source_labels.is_none() && u.source_label_set.is_none());
}

#[test]
fn all_tries_are_counted() {
    let mut s = Stats::default();
    for i in 0..30u64 {
        let outcome = match i % 3 {
            0 => ProbeOutcome::Connected,
            1 => ProbeOutcome::Rejected,
            _ => ProbeOutcome::Timeout,
        };
        s.record(&outcome, 100 + (i * 7) % 30);
    }
    assert_eq!((s.total_probes, s.connected, s.rejected, s.timeout), (30, 10, 10, 10));
    assert_eq!((s.latency_min_ms, s.latency_max_ms, s.latency_sum_ms), (100, 129, 3_435));
    assert_eq!(s.average_ms(), 114);
}

#[test]
fn all_packets_are_counted() {
    let mut f = FlowStats::default();
    for i in 0..50u64 {
        f.record(10 + i, i * 600_000_000);
    }
    assert_eq!((f.total_bytes, f.total_packets), (1_725, 50));
    assert_eq!(f.bitrate_samples.len(), 24);
    assert_eq!(f.bitrate_samples.iter().sum::<u64>() + f.bitrate_window_bytes, 1_725);
    for i in 50..200u64 {
        f.record(1, i * 600_000_000);
    }
    assert_eq!((f.total_bytes, f.total_packets, f.bitrate_samples.len()), (1_875, 200, 60));
}
