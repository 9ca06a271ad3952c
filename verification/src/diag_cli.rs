//! The command line of the network diagnostic.
use vstd::prelude::*;
use vstd::string::*;

use crate::number::{parse_u16, parse_u32, parse_u64, parsed};
use crate::scan::{begins, starts_with};
use crate::text::{cat2, opt_text, same, texts};

verus! {

/// Where the switcher is if nothing else is said.
pub const DEFAULT_ATEM_IP: &'static str = "192.168.20.189";

/// The hardware address by which the gateway knows it.
pub const DEFAULT_ATEM_MAC: &'static str = "7c:2e:0d:21:ab:fe";

/// The port on which it takes streams.
pub const DEFAULT_ATEM_PORT: u16 = 1935;

/// Where the gateway is if nothing else is said.
pub const DEFAULT_UDM_HOST: &'static str = "https://192.168.20.1";

/// The destination if nothing else is said.
pub const DEFAULT_URL: &'static str = "srt://192.168.20.189:1935";

/// A try is made every so many seconds if nothing else is said.
pub const DEFAULT_INTERVAL_SECS: u64 = 5;

/// A summary is given after so many tries if nothing else is said.
pub const DEFAULT_SUMMARY_EVERY: u32 = 12;

/// The port of the dashboard if nothing else is said.
pub const DEFAULT_UI_PORT: u16 = 8092;

/// How the program is used.
pub const USAGE: &'static str = "atem-net-diag — probe an SRT/RTMP destination on a fixed interval, \
     log connect-state transitions and latency

usage:
    atem-net-diag <srt://host:port[?streamid=...]> [flags]
    atem-net-diag <srt://host:port> --key KEY [flags]
    atem-net-diag <srt://host:port> --key KEY1 --key KEY2 ... [flags]
    atem-net-diag <rtmp://host:port/app/KEY>       [flags]

flags:
    --interval N         Probe every N seconds (default 5; per cycle when
                         multiple --key flags are used)
    --summary-every N    Print a summary every N probes per key (default 12)
    --no-summary         Don't print periodic summaries
    --csv FILE           Append every probe to FILE as CSV (auto-creates with
                         header: unix_seconds,clock,key,outcome,latency_ms)
    --key K              Build a BMD-flavored streamid (#!::bmd_uuid=...,u=K)
                         and append it to the SRT URL. Repeat --key to rotate
                         through multiple keys per cycle — useful for telling
                         apart 'this key is locked' (only one rejects) vs
                         'destination is locked' (all reject) vs 'destination
                         is unreachable' (all timeout).
    --monitor [IFACE]    Switch to passive-capture mode: spawn tshark on
                         IFACE (default en0 on macOS), watch the configured
                         ports, and print a live flow table every 5s
                         showing source IP:port, destination IP:port, total
                         bytes per flow, and current bandwidth. Requires
                         tshark in PATH and capture permissions (on macOS:
                         the Wireshark installer's ChmodBPF helper, or run
                         this tool with sudo).
    --port P             Add a port to the monitor capture filter. Default
                         monitored ports: 1935 (RTMP/SRT), 9710 (SRT
                         listener), 9977 (BMD ctrl), 1936. Repeat to add
                         multiple. Without --monitor, this flag has no
                         effect.
    --ui [PORT]          Spin up a visual dashboard at http://127.0.0.1:PORT
                         (default 8092) and open it in your browser. The
                         dashboard polls /api/state every 1s and shows
                         per-key probe status, recent probe timeline, and
                         (if --monitor is also set) the live flow table.
                         Combine with all the other flags — probes still
                         run in the background, the UI is just a passive
                         consumer of the same state. Ctrl-C to quit.
    -h, --help           Show this help

what to look for:
    CONNECTED in a row  destination is happy.
    REJECTED bursts after a stream — receiver-state lockout (the
        slot is held for ~30s-2min after a previous source disconnects).
        Wait it out, or use a different key.
    Mixed CONNECTED+REJECTED across keys — per-key lockout: the key
        that REJECTs is held; others work.
    All TIMEOUT — destination is unreachable. Network / power / wrong IP.
    State-change moments are called out with === STATE CHANGE ===.

requires:
    ffmpeg in PATH (with libsrt for srt:// URLs)
";

/// What the program is asked to do.
#[derive(Debug)]
pub struct Cli {
    pub url: String,
    pub keys: Vec<String>,
    pub interval_secs: u64,
    /// No summary is given if zero.
    pub summary_every: u32,
    pub csv_path: Option<String>,
    pub monitor_iface: Option<String>,
    pub monitor_ports: Vec<u16>,
    pub ui_port: Option<u16>,
}

/// What a `Cli` holds.
pub struct CliModel {
    pub url: Seq<char>,
    pub keys: Seq<Seq<char>>,
    pub interval_secs: u64,
    pub summary_every: u32,
    pub csv_path: Option<Seq<char>>,
    pub monitor_iface: Option<Seq<char>>,
    pub monitor_ports: Seq<u16>,
    pub ui_port: Option<u16>,
}

impl View for Cli {
    type V = CliModel;

    open spec fn view(&self) -> CliModel {
        CliModel {
            url: self.url@,
            keys: texts(self.keys@),
            interval_secs: self.interval_secs,
            summary_every: self.summary_every,
            csv_path: opt_text(self.csv_path),
            monitor_iface: opt_text(self.monitor_iface),
            monitor_ports: self.monitor_ports@,
            ui_port: self.ui_port,
        }
    }
}

/// What has been read so far. The URL is empty until one has been read.
pub struct Reading {
    pub has_url: bool,
    pub cli: CliModel,
}

/// Nothing has been read.
pub open spec fn nothing_read() -> Reading {
    Reading {
        has_url: false,
        cli: CliModel {
            url: Seq::empty(),
            keys: Seq::empty(),
            interval_secs: DEFAULT_INTERVAL_SECS,
            summary_every: DEFAULT_SUMMARY_EVERY,
            csv_path: None,
            monitor_iface: None,
            monitor_ports: Seq::empty(),
            ui_port: None,
        },
    }
}

/// The network interface that is watched if none is named.
pub open spec fn default_iface(macos: bool) -> Seq<char> {
    if macos {
        "en0"@
    } else {
        "any"@
    }
}

/// The value after a flag.
pub open spec fn value_after(rest: Seq<Seq<char>>) -> Option<Seq<char>> {
    if rest.len() >= 2 {
        Some(rest[1])
    } else {
        None
    }
}

/// What an argument says, and whether the one after it belongs to it; or what is
/// wrong with it.
pub open spec fn argument(m: Reading, rest: Seq<Seq<char>>, macos: bool) -> Result<
    (Reading, bool),
    Seq<char>,
> {
    let a = rest[0];
    let v = value_after(rest);
    if a == "--ui"@ {
        match v {
            Some(x) if parsed(x, 0xFFFF) is Some => Ok(
                (
                    Reading {
                        cli: CliModel { ui_port: Some(parsed(x, 0xFFFF)->0 as u16), ..m.cli },
                        ..m
                    },
                    true,
                ),
            ),
            _ => Ok(
                (
                    Reading { cli: CliModel { ui_port: Some(DEFAULT_UI_PORT), ..m.cli }, ..m },
                    false,
                ),
            ),
        }
    } else if a == "--monitor"@ {
        match v {
            Some(x) => Ok(
                (Reading { cli: CliModel { monitor_iface: Some(x), ..m.cli }, ..m }, true),
            ),
            None => Ok(
                (
                    Reading {
                        cli: CliModel { monitor_iface: Some(default_iface(macos)), ..m.cli },
                        ..m
                    },
                    false,
                ),
            ),
        }
    } else if a == "--port"@ {
        match v {
            None => Err("--port needs a value"@),
            Some(x) => match parsed(x, 0xFFFF) {
                None => Err("--port value not 1..65535: "@ + x),
                Some(p) => Ok(
                    (
                        Reading {
                            cli: CliModel {
                                monitor_ports: m.cli.monitor_ports.push(p as u16),
                                ..m.cli
                            },
                            ..m
                        },
                        true,
                    ),
                ),
            },
        }
    } else if a == "--interval"@ {
        match v {
            None => Err("--interval needs a value (seconds)"@),
            Some(x) => match parsed(x, u64::MAX as int) {
                None => Err("--interval value not an integer: "@ + x),
                Some(n) => if n == 0 {
                    Err("--interval must be > 0"@)
                } else {
                    Ok((Reading { cli: CliModel { interval_secs: n as u64, ..m.cli }, ..m }, true))
                },
            },
        }
    } else if a == "--summary-every"@ {
        match v {
            None => Err("--summary-every needs a value (probes)"@),
            Some(x) => match parsed(x, 0xFFFF_FFFF) {
                None => Err("--summary-every value not an integer: "@ + x),
                Some(n) => Ok(
                    (Reading { cli: CliModel { summary_every: n as u32, ..m.cli }, ..m }, true),
                ),
            },
        }
    } else if a == "--no-summary"@ {
        Ok((Reading { cli: CliModel { summary_every: 0, ..m.cli }, ..m }, false))
    } else if a == "--csv"@ {
        match v {
            None => Err("--csv needs a path"@),
            Some(x) => Ok((Reading { cli: CliModel { csv_path: Some(x), ..m.cli }, ..m }, true)),
        }
    } else if a == "--key"@ {
        match v {
            None => Err("--key needs a value"@),
            Some(x) => Ok(
                (Reading { cli: CliModel { keys: m.cli.keys.push(x), ..m.cli }, ..m }, true),
            ),
        }
    } else if !begins(a, "-"@) && !m.has_url {
        Ok((Reading { has_url: true, cli: CliModel { url: a, ..m.cli } }, false))
    } else {
        Err("unknown argument: "@ + a)
    }
}

/// What the arguments say, one after the other.
pub open spec fn arguments(m: Reading, rest: Seq<Seq<char>>, macos: bool) -> Result<
    Reading,
    Seq<char>,
>
    decreases rest.len(),
{
    if rest.len() == 0 {
        Ok(m)
    } else {
        match argument(m, rest, macos) {
            Err(e) => Err(e),
            Ok(p) => if p.1 && rest.len() >= 2 {
                arguments(p.0, rest.skip(2), macos)
            } else {
                arguments(p.0, rest.skip(1), macos)
            },
        }
    }
}

/// One of the protocols that can be tried.
pub open spec fn is_stream_url(url: Seq<char>) -> bool {
    begins(url, "srt://"@) || begins(url, "rtmp://"@) || begins(url, "rtmps://"@)
}

/// Whether the URL is of one of the protocols that can be tried.
pub fn stream_url(url: &str) -> (r: bool)
    ensures
        r == is_stream_url(url@),
{
    starts_with(url, "srt://") || starts_with(url, "rtmp://") || starts_with(url, "rtmps://")
}

/// What is asked of the program, once all arguments have been read. To watch or to
/// show the dashboard, no URL is needed.
pub open spec fn asked(m: Reading) -> Result<CliModel, Seq<char>> {
    if !m.has_url {
        if m.cli.monitor_iface is Some || m.cli.ui_port is Some {
            Ok(CliModel { url: DEFAULT_URL@, ..m.cli })
        } else {
            Err(USAGE@)
        }
    } else if !is_stream_url(m.cli.url) {
        Err("URL should start with srt:// or rtmp(s):// — got "@ + m.cli.url)
    } else if m.cli.keys.len() > 0 && !begins(m.cli.url, "srt://"@) {
        Err(
            "--key is SRT-only — RTMP keys are part of the URL path. Drop --key and put the key in the URL like rtmp://host:port/app/KEY."@,
        )
    } else {
        Ok(m.cli)
    }
}

/// One of the arguments asks for help.
pub open spec fn wants_help(args: Seq<Seq<char>>) -> bool {
    exists|i: int| 0 <= i < args.len() && (#[trigger] args[i] == "-h"@ || args[i] == "--help"@)
}

/// What the arguments ask of the program, or what it answers if it cannot do that.
pub open spec fn command_line(args: Seq<Seq<char>>, macos: bool) -> Result<CliModel, Seq<char>> {
    if args.len() == 0 || wants_help(args) {
        Err(USAGE@)
    } else {
        match arguments(nothing_read(), args, macos) {
            Err(e) => Err(e),
            Ok(m) => asked(m),
        }
    }
}

/// What a result holds.
pub open spec fn cli_result(r: Result<Cli, String>) -> Result<CliModel, Seq<char>> {
    match r {
        Ok(c) => Ok(c@),
        Err(e) => Err(e@),
    }
}

fn help_wanted(args: &Vec<String>) -> (r: bool)
    ensures
        r == wants_help(texts(args@)),
{
    let ghost t = texts(args@);
    let mut i: usize = 0;
    while i < args.len()
        invariant
            i <= args@.len(),
            t == texts(args@),
            forall|j: int| 0 <= j < i ==> #[trigger] t[j] != "-h"@ && t[j] != "--help"@,
        decreases args@.len() - i,
    {
        assert(t[i as int] == args@[i as int]@);
        if same(args[i].as_str(), "-h") || same(args[i].as_str(), "--help") {
            return true;
        }
        i += 1;
    }
    false
}

impl Cli {
    /// Takes the argument at `i`. `Ok` says whether the one after it belongs to it.
    fn take(&mut self, has_url: &mut bool, args: &Vec<String>, i: usize, macos: bool) -> (r: Result<
        bool,
        String,
    >)
        requires
            i < args@.len(),
        ensures
            match argument(
                Reading { has_url: *old(has_url), cli: old(self)@ },
                texts(args@).skip(i as int),
                macos,
            ) {
                Ok(p) => r == Ok::<bool, String>(p.1) && p.0 == (Reading {
                    has_url: *final(has_url),
                    cli: final(self)@,
                }) && (p.1 ==> i + 1 < args@.len()),
                Err(e) => r matches Err(x) && x@ == e,
            },
    {
        let ghost rest = texts(args@).skip(i as int);
        let ghost before = self@;
        assert(rest[0] == args@[i as int]@);
        let a: &str = args[i].as_str();
        let n: usize = args.len();
        let value: Option<&String> = if i < n - 1 {
            assert(rest[1] == args@[i + 1]@);
            Some(&args[i + 1])
        } else {
            None
        };
        if same(a, "--ui") {
            if let Some(v) = value {
                if let Some(p) = parse_u16(v.as_str()) {
                    self.ui_port = Some(p);
                    return Ok(true);
                }
            }
            self.ui_port = Some(DEFAULT_UI_PORT);
            Ok(false)
        } else if same(a, "--monitor") {
            match value {
                Some(v) => {
                    self.monitor_iface = Some(v.clone());
                    Ok(true)
                },
                None => {
                    let iface: &str = if macos {
                        "en0"
                    } else {
                        "any"
                    };
                    self.monitor_iface = Some(iface.to_owned());
                    Ok(false)
                },
            }
        } else if same(a, "--port") {
            match value {
                None => Err("--port needs a value".to_owned()),
                Some(v) => match parse_u16(v.as_str()) {
                    None => Err(cat2("--port value not 1..65535: ", v.as_str())),
                    Some(p) => {
                        self.monitor_ports.push(p);
                        Ok(true)
                    },
                },
            }
        } else if same(a, "--interval") {
            match value {
                None => Err("--interval needs a value (seconds)".to_owned()),
                Some(v) => match parse_u64(v.as_str()) {
                    None => Err(cat2("--interval value not an integer: ", v.as_str())),
                    Some(secs) => {
                        if secs == 0 {
                            return Err("--interval must be > 0".to_owned());
                        }
                        self.interval_secs = secs;
                        Ok(true)
                    },
                },
            }
        } else if same(a, "--summary-every") {
            match value {
                None => Err("--summary-every needs a value (probes)".to_owned()),
                Some(v) => match parse_u32(v.as_str()) {
                    None => Err(cat2("--summary-every value not an integer: ", v.as_str())),
                    Some(n) => {
                        self.summary_every = n;
                        Ok(true)
                    },
                },
            }
        } else if same(a, "--no-summary") {
            self.summary_every = 0;
            Ok(false)
        } else if same(a, "--csv") {
            match value {
                None => Err("--csv needs a path".to_owned()),
                Some(v) => {
                    self.csv_path = Some(v.clone());
                    Ok(true)
                },
            }
        } else if same(a, "--key") {
            match value {
                None => Err("--key needs a value".to_owned()),
                Some(v) => {
                    self.keys.push(v.clone());
                    assert(texts(self.keys@) =~= before.keys.push(v@));
                    Ok(true)
                },
            }
        } else if !starts_with(a, "-") && !*has_url {
            self.url = a.to_owned();
            *has_url = true;
            Ok(false)
        } else {
            Err(cat2("unknown argument: ", a))
        }
    }

    /// What the arguments ask of the program, or what it answers if it cannot do that.
    pub fn parse(args: &Vec<String>, macos: bool) -> (r: Result<Cli, String>)
        ensures
            cli_result(r) == command_line(texts(args@), macos),
    {
        if args.len() == 0 || help_wanted(args) {
            return Err(USAGE.to_owned());
        }
        let mut cli: Cli = Cli {
            url: String::new(),
            keys: Vec::new(),
            interval_secs: DEFAULT_INTERVAL_SECS,
            summary_every: DEFAULT_SUMMARY_EVERY,
            csv_path: None,
            monitor_iface: None,
            monitor_ports: Vec::new(),
            ui_port: None,
        };
        let mut has_url: bool = false;
        let ghost t = texts(args@);
        proof {
            assert(cli@.url =~= Seq::<char>::empty());
            assert(cli@.keys =~= Seq::<Seq<char>>::empty());
            assert(cli@.monitor_ports =~= Seq::<u16>::empty());
            assert(t.skip(0) == t);
        }
        let mut i: usize = 0;
        while i < args.len()
            invariant
                i <= args@.len(),
                t == texts(args@),
                t.len() > 0 && !wants_help(t),
                arguments(nothing_read(), t, macos) == arguments(
                    Reading { has_url, cli: cli@ },
                    t.skip(i as int),
                    macos,
                ),
            decreases args@.len() - i,
        {
            let ghost rest = t.skip(i as int);
            match cli.take(&mut has_url, args, i, macos) {
                Err(e) => {
                    return Err(e);
                },
                Ok(two) => {
                    assert(rest.skip(1) =~= t.skip(i + 1));
                    if two {
                        assert(rest.skip(2) =~= t.skip(i + 2));
                        i += 2;
                    } else {
                        i += 1;
                    }
                },
            }
        }
        if !has_url {
            if cli.monitor_iface.is_some() || cli.ui_port.is_some() {
                cli.url = DEFAULT_URL.to_owned();
                return Ok(cli);
            }
            return Err(USAGE.to_owned());
        }
        if !stream_url(cli.url.as_str()) {
            return Err(
                cat2("URL should start with srt:// or rtmp(s):// — got ", cli.url.as_str()),
            );
        }
        if cli.keys.len() > 0 && !starts_with(cli.url.as_str(), "srt://") {
            return Err(
                "--key is SRT-only — RTMP keys are part of the URL path. Drop --key and put the key in the URL like rtmp://host:port/app/KEY.".to_owned(),
            );
        }
        Ok(cli)
    }
}

/// How the program is used.
pub fn usage() -> (r: String)
    ensures
        r@ == USAGE@,
{
    USAGE.to_owned()
}

/// What is asked of the program can be done: it makes its tries with a pause, of a URL
/// that it knows how to try, and with keys only where the URL can hold them or no URL
/// was given.
pub proof fn commands_can_be_done(args: Seq<Seq<char>>, macos: bool)
    requires
        command_line(args, macos) is Ok,
    ensures
        command_line(args, macos)->Ok_0.interval_secs > 0,
        is_stream_url(command_line(args, macos)->Ok_0.url),
        command_line(args, macos)->Ok_0.keys.len() > 0 ==> begins(
            command_line(args, macos)->Ok_0.url,
            "srt://"@,
        ),
{
    interval_stays(nothing_read(), args, macos);
    reveal_strlit("srt://192.168.20.189:1935");
    reveal_strlit("srt://");
    assert(DEFAULT_URL@.take(6) =~= "srt://"@);
}

proof fn interval_stays(m: Reading, rest: Seq<Seq<char>>, macos: bool)
    requires
        m.cli.interval_secs > 0,
        arguments(m, rest, macos) is Ok,
    ensures
        arguments(m, rest, macos)->Ok_0.cli.interval_secs > 0,
    decreases rest.len(),
{
    if rest.len() > 0 {
        match argument(m, rest, macos) {
            Err(e) => {},
            Ok(p) => {
                assert(p.0.cli.interval_secs > 0);
                if p.1 && rest.len() >= 2 {
                    interval_stays(p.0, rest.skip(2), macos);
                } else {
                    interval_stays(p.0, rest.skip(1), macos);
                }
            },
        }
    }
}

} // verus!
