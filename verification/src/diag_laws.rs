//! What holds of the diagnosis: each option, each value of a request and each figure of a flow
//! goes where its name says.
use vstd::prelude::*;

use crate::addresses::{is_unnamed, normal_mac, octets};
use crate::dashboard::{
    changed, due_targets, first_config, flow_snapshot, health_of, kbps_of, kept_probes, mean_ms,
    routed, visibility, wants_name, DashboardState, LanVisibility, ProbeModel, ResolvedName, Route,
};
use crate::diag_cli::{
    arguments, asked, command_line, nothing_read, CliModel, Reading, USAGE,
};
use crate::diag_config::{
    configured, given_keys, labels_under, no_change, refusal, texts_under, update_in, ConfigModel, ConfigUpdateModel, DiagMode,
};
use crate::flows::{Flow, FlowModel};
use crate::json::{member, JsonNodeModel};
use crate::number::{
    ascii_lower, decimal, decimal_is_digits, hex_value, is_digit, parsed_decimal,
};
use crate::probe::{probe_url, Stats};
use crate::reading::{first_piece_is, lacks, only_piece_is};
use crate::scan::{begins, is_blank, pieces, trimmed, up_to};
use crate::srt_handshake::{hex_bytes, is_hex_text, nibbles};
use crate::text::opt_text;
use crate::unifi::{
    auth_pairs, entry, kbps_within, polled, rate_between, set_credentials, shown_client, CredentialsModel,
    RawModel,
};

verus! {

// ---------------------------------------------------------------------------
// The command line
// ---------------------------------------------------------------------------

proof fn options_differ()
    ensures
        "--ui"@ != "--monitor"@,
        "--ui"@ != "--port"@,
        "--ui"@ != "--interval"@,
        "--ui"@ != "--summary-every"@,
        "--ui"@ != "--no-summary"@,
        "--ui"@ != "--csv"@,
        "--ui"@ != "--key"@,
        "--monitor"@ != "--port"@,
        "--monitor"@ != "--interval"@,
        "--monitor"@ != "--summary-every"@,
        "--monitor"@ != "--no-summary"@,
        "--monitor"@ != "--csv"@,
        "--monitor"@ != "--key"@,
        "--port"@ != "--interval"@,
        "--port"@ != "--summary-every"@,
        "--port"@ != "--no-summary"@,
        "--port"@ != "--csv"@,
        "--port"@ != "--key"@,
        "--interval"@ != "--summary-every"@,
        "--interval"@ != "--no-summary"@,
        "--interval"@ != "--csv"@,
        "--interval"@ != "--key"@,
        "--summary-every"@ != "--no-summary"@,
        "--summary-every"@ != "--csv"@,
        "--summary-every"@ != "--key"@,
        "--no-summary"@ != "--csv"@,
        "--no-summary"@ != "--key"@,
        "--csv"@ != "--key"@,
{
    reveal_strlit("--ui");
    reveal_strlit("--monitor");
    reveal_strlit("--port");
    reveal_strlit("--interval");
    reveal_strlit("--summary-every");
    reveal_strlit("--no-summary");
    reveal_strlit("--csv");
    reveal_strlit("--key");
    assert("--ui"@.len() == 4);
    assert("--monitor"@.len() == 9);
    assert("--port"@.len() == 6);
    assert("--interval"@.len() == 10);
    assert("--summary-every"@.len() == 15);
    assert("--no-summary"@.len() == 12);
    assert("--csv"@.len() == 5);
    assert("--key"@.len() == 5);
    assert("--csv"@[2] == 'c');
    assert("--key"@[2] == 'k');
}

/// A key is added to those to try.
pub proof fn keys_are_added(m: Reading, key: Seq<char>, rest: Seq<Seq<char>>, macos: bool)
    ensures
        arguments(m, seq!["--key"@, key] + rest, macos) == arguments(
            Reading { cli: CliModel { keys: m.cli.keys.push(key), ..m.cli }, ..m },
            rest,
            macos,
        ),
{
    options_differ();
    let all = seq!["--key"@, key] + rest;
    reveal_with_fuel(arguments, 2);
    assert(all[0] == "--key"@ && all.len() >= 2);
    assert(all.skip(2) =~= rest);
}

/// The table is written to the path.
pub proof fn tables_are_written_where_asked(m: Reading, path: Seq<char>, rest: Seq<Seq<char>>, macos: bool)
    ensures
        arguments(m, seq!["--csv"@, path] + rest, macos) == arguments(
            Reading { cli: CliModel { csv_path: Some(path), ..m.cli }, ..m },
            rest,
            macos,
        ),
{
    options_differ();
    let all = seq!["--csv"@, path] + rest;
    reveal_with_fuel(arguments, 2);
    assert(all[0] == "--csv"@ && all.len() >= 2);
    assert(all.skip(2) =~= rest);
}

/// The interface is watched.
pub proof fn interfaces_are_watched(m: Reading, iface: Seq<char>, rest: Seq<Seq<char>>, macos: bool)
    ensures
        arguments(m, seq!["--monitor"@, iface] + rest, macos) == arguments(
            Reading { cli: CliModel { monitor_iface: Some(iface), ..m.cli }, ..m },
            rest,
            macos,
        ),
{
    options_differ();
    let all = seq!["--monitor"@, iface] + rest;
    reveal_with_fuel(arguments, 2);
    assert(all[0] == "--monitor"@ && all.len() >= 2);
    assert(all.skip(2) =~= rest);
}

/// A port is added to those to watch.
pub proof fn ports_are_added(m: Reading, port: u16, rest: Seq<Seq<char>>, macos: bool)
    ensures
        arguments(m, seq!["--port"@, decimal(port as nat)] + rest, macos) == arguments(
            Reading { cli: CliModel { monitor_ports: m.cli.monitor_ports.push(port), ..m.cli }, ..m },
            rest,
            macos,
        ),
{
    options_differ();
    let all = seq!["--port"@, decimal(port as nat)] + rest;
    reveal_with_fuel(arguments, 2);
    parsed_decimal(port as nat, 0xFFFF);
    assert(all[0] == "--port"@ && all.len() >= 2);
    assert(all.skip(2) =~= rest);
}

/// The page is served at the port.
pub proof fn pages_are_served_at_their_port(m: Reading, port: u16, rest: Seq<Seq<char>>, macos: bool)
    ensures
        arguments(m, seq!["--ui"@, decimal(port as nat)] + rest, macos) == arguments(
            Reading { cli: CliModel { ui_port: Some(port), ..m.cli }, ..m },
            rest,
            macos,
        ),
{
    options_differ();
    let all = seq!["--ui"@, decimal(port as nat)] + rest;
    reveal_with_fuel(arguments, 2);
    parsed_decimal(port as nat, 0xFFFF);
    assert(all[0] == "--ui"@ && all.len() >= 2);
    assert(all.skip(2) =~= rest);
}

/// The destination is tried at the interval.
pub proof fn intervals_are_kept(m: Reading, secs: u64, rest: Seq<Seq<char>>, macos: bool)
    requires
        secs > 0,
    ensures
        arguments(m, seq!["--interval"@, decimal(secs as nat)] + rest, macos) == arguments(
            Reading { cli: CliModel { interval_secs: secs, ..m.cli }, ..m },
            rest,
            macos,
        ),
{
    options_differ();
    let all = seq!["--interval"@, decimal(secs as nat)] + rest;
    reveal_with_fuel(arguments, 2);
    parsed_decimal(secs as nat, u64::MAX as int);
    assert(all[0] == "--interval"@ && all.len() >= 2);
    assert(all.skip(2) =~= rest);
}

/// A summary comes after so many tries.
pub proof fn summaries_come_as_often_as_asked(m: Reading, n: u32, rest: Seq<Seq<char>>, macos: bool)
    ensures
        arguments(m, seq!["--summary-every"@, decimal(n as nat)] + rest, macos) == arguments(
            Reading { cli: CliModel { summary_every: n, ..m.cli }, ..m },
            rest,
            macos,
        ),
{
    options_differ();
    let all = seq!["--summary-every"@, decimal(n as nat)] + rest;
    reveal_with_fuel(arguments, 2);
    parsed_decimal(n as nat, 0xFFFF_FFFF);
    assert(all[0] == "--summary-every"@ && all.len() >= 2);
    assert(all.skip(2) =~= rest);
}

/// Where nothing is said, the destination is tried every five seconds, a summary comes after
/// twelve tries, and nothing is watched, shown or written.
pub proof fn little_is_done_unasked(macos: bool)
    ensures
        ({
            let c = nothing_read().cli;
            &&& !nothing_read().has_url
            &&& c.interval_secs == 5 && c.summary_every == 12
            &&& c.keys.len() == 0 && c.monitor_ports.len() == 0
            &&& c.csv_path is None && c.monitor_iface is None && c.ui_port is None
        }),
        arguments(nothing_read(), seq!["--ui"@], macos) == Ok::<Reading, Seq<char>>(
            Reading { cli: CliModel { ui_port: Some(8092), ..nothing_read().cli }, ..nothing_read() },
        ),
{
    reveal_with_fuel(arguments, 3);
    let all = seq!["--ui"@];
    assert(all[0] == "--ui"@);
    assert(all.skip(1).len() == 0);
}

/// Without summaries none is due.
pub proof fn summaries_can_be_left_out(m: Reading, rest: Seq<Seq<char>>, macos: bool)
    ensures
        arguments(m, seq!["--no-summary"@] + rest, macos) == arguments(
            Reading { cli: CliModel { summary_every: 0, ..m.cli }, ..m },
            rest,
            macos,
        ),
{
    options_differ();
    let all = seq!["--no-summary"@] + rest;
    reveal_with_fuel(arguments, 2);
    assert(all[0] == "--no-summary"@);
    assert(all.skip(1) =~= rest);
}

/// The first argument that is no option is the destination; a second is refused, and so is an
/// option that is not known.
#[verifier::rlimit(60)]
pub proof fn the_destination_is_told(m: Reading, url: Seq<char>, rest: Seq<Seq<char>>, macos: bool)
    requires
        url.len() > 0,
        url[0] != '-',
    ensures
        !m.has_url ==> arguments(m, seq![url] + rest, macos) == arguments(
            Reading { has_url: true, cli: CliModel { url, ..m.cli } },
            rest,
            macos,
        ),
        m.has_url ==> arguments(m, seq![url] + rest, macos) is Err,
{
    let all = seq![url] + rest;
    reveal_with_fuel(arguments, 2);
    reveal_strlit("--ui");
    reveal_strlit("--monitor");
    reveal_strlit("--port");
    reveal_strlit("--interval");
    reveal_strlit("--summary-every");
    reveal_strlit("--no-summary");
    reveal_strlit("--csv");
    reveal_strlit("--key");
    reveal_strlit("-");
    assert("--ui"@[0] == '-');
    assert("--monitor"@[0] == '-');
    assert("--port"@[0] == '-');
    assert("--interval"@[0] == '-');
    assert("--summary-every"@[0] == '-');
    assert("--no-summary"@[0] == '-');
    assert("--csv"@[0] == '-');
    assert("--key"@[0] == '-');
    assert(!begins(url, "-"@)) by {
        if begins(url, "-"@) {
            assert(url.subrange(0, 1)[0] == '-');
        }
    }
    assert(all[0] == url);
    assert(all.skip(1) =~= rest);
}

/// A destination has to be one of SRT or RTMP, and keys are for SRT alone. Without one there
/// has to be something to watch or to show, and then the usual one is meant.
pub proof fn destinations_are_checked(m: Reading)
    ensures
        ({
            let srt = begins(m.cli.url, "srt://"@);
            let rtmp = begins(m.cli.url, "rtmp://"@) || begins(m.cli.url, "rtmps://"@);
            &&& m.has_url && (srt || rtmp && m.cli.keys.len() == 0) <==> m.has_url && asked(m) is Ok
            &&& m.has_url && asked(m) is Ok ==> asked(m) == Ok::<CliModel, Seq<char>>(m.cli)
            &&& !m.has_url ==> (asked(m) is Ok <==> m.cli.monitor_iface is Some || m.cli.ui_port
                is Some)
            &&& !m.has_url ==> (asked(m) matches Ok(c) ==> c == CliModel {
                url: "srt://192.168.20.189:1935"@,
                ..m.cli
            })
        }),
{
    schemes_differ(m.cli.url);
}

proof fn schemes_differ(url: Seq<char>)
    ensures
        begins(url, "srt://"@) ==> !begins(url, "rtmp://"@) && !begins(url, "rtmps://"@),
{
    reveal_strlit("srt://");
    reveal_strlit("rtmp://");
    reveal_strlit("rtmps://");
    if begins(url, "srt://"@) {
        assert(url.subrange(0, 6)[0] == 's');
        if begins(url, "rtmp://"@) {
            assert(url.subrange(0, 7)[0] == 'r');
        }
        if begins(url, "rtmps://"@) {
            assert(url.subrange(0, 8)[0] == 'r');
        }
    }
}

// ---------------------------------------------------------------------------
// The body of a request
// ---------------------------------------------------------------------------

/// The value at `i` is the first called `key` in the object at `p`.
pub open spec fn is_named(nodes: Seq<JsonNodeModel>, p: usize, key: Seq<char>, i: int) -> bool {
    &&& 0 <= i < nodes.len()
    &&& nodes[i].parent == Some(p) && nodes[i].key == Some(key)
    &&& forall|j: int|
        0 <= j < i ==> (#[trigger] nodes[j]).parent != Some(p) || nodes[j].key != Some(key)
}

proof fn named_is_member(nodes: Seq<JsonNodeModel>, p: usize, key: Seq<char>, from: int, i: int)
    requires
        0 <= from <= i,
        is_named(nodes, p, key, i),
    ensures
        member(nodes, p, key, from) == i,
    decreases i - from,
{
    if from < i {
        assert(nodes[from].parent != Some(p) || nodes[from].key != Some(key));
        named_is_member(nodes, p, key, from + 1, i);
    }
}

proof fn member_is_named(nodes: Seq<JsonNodeModel>, p: usize, key: Seq<char>, from: int)
    requires
        0 <= from <= nodes.len(),
    ensures
        from <= member(nodes, p, key, from) <= nodes.len(),
        member(nodes, p, key, from) < nodes.len() ==> nodes[member(nodes, p, key, from)].parent
            == Some(p) && nodes[member(nodes, p, key, from)].key == Some(key),
    decreases nodes.len() - from,
{
    if from < nodes.len() {
        member_is_named(nodes, p, key, from + 1);
    }
}

/// Each value of a request is read under its name.
pub proof fn requests_are_read_by_name(nodes: Seq<JsonNodeModel>, i: int)
    ensures
        is_named(nodes, 0, "url"@, i) ==> update_in(nodes).url == nodes[i].text,
        is_named(nodes, 0, "mode"@, i) ==> update_in(nodes).mode == nodes[i].text,
        is_named(nodes, 0, "unifi_host"@, i) ==> update_in(nodes).unifi_host == nodes[i].text,
        is_named(nodes, 0, "monitor_iface"@, i) ==> update_in(nodes).monitor_iface
            == nodes[i].text,
        is_named(nodes, 0, "interval_secs"@, i) ==> update_in(nodes).interval_secs
            == nodes[i].number,
{
    if is_named(nodes, 0, "url"@, i) {
        named_is_member(nodes, 0, "url"@, 0, i);
    }
    if is_named(nodes, 0, "mode"@, i) {
        named_is_member(nodes, 0, "mode"@, 0, i);
    }
    if is_named(nodes, 0, "unifi_host"@, i) {
        named_is_member(nodes, 0, "unifi_host"@, 0, i);
    }
    if is_named(nodes, 0, "monitor_iface"@, i) {
        named_is_member(nodes, 0, "monitor_iface"@, 0, i);
    }
    if is_named(nodes, 0, "interval_secs"@, i) {
        named_is_member(nodes, 0, "interval_secs"@, 0, i);
    }
}

/// Each value of the switcher in a request is read under its name, and so is the label of a
/// source.
pub proof fn inner_values_are_read_by_name(nodes: Seq<JsonNodeModel>, a: int, i: int)
    requires
        nodes.len() <= usize::MAX,
    ensures
        is_named(nodes, 0, "atem"@, a) ==> (update_in(nodes).atem matches Some(t) && (is_named(
            nodes,
            a as usize,
            "ip"@,
            i,
        ) ==> t.ip == nodes[i].text) && (is_named(nodes, a as usize, "mac"@, i) ==> t.mac
            == nodes[i].text) && (is_named(nodes, a as usize, "port"@, i) ==> t.port
            == nodes[i].number)),
        is_named(nodes, 0, "source_label_set"@, a) ==> (update_in(nodes).source_label_set
            matches Some(t) && (is_named(nodes, a as usize, "ip"@, i) ==> t.0 == nodes[i].text) && (
        is_named(nodes, a as usize, "label"@, i) ==> t.1 == nodes[i].text)),
{
    if is_named(nodes, 0, "atem"@, a) {
        named_is_member(nodes, 0, "atem"@, 0, a);
    }
    if is_named(nodes, 0, "source_label_set"@, a) {
        named_is_member(nodes, 0, "source_label_set"@, 0, a);
    }
    if is_named(nodes, a as usize, "ip"@, i) {
        named_is_member(nodes, a as usize, "ip"@, 0, i);
    }
    if is_named(nodes, a as usize, "mac"@, i) {
        named_is_member(nodes, a as usize, "mac"@, 0, i);
    }
    if is_named(nodes, a as usize, "port"@, i) {
        named_is_member(nodes, a as usize, "port"@, 0, i);
    }
    if is_named(nodes, a as usize, "label"@, i) {
        named_is_member(nodes, a as usize, "label"@, 0, i);
    }
}

/// A value that is not in a request changes nothing.
pub proof fn missing_values_are_not_read(nodes: Seq<JsonNodeModel>)
    ensures
        (forall|j: int|
            0 <= j < nodes.len() ==> (#[trigger] nodes[j]).key != Some("url"@)) ==> update_in(
            nodes,
        ).url is None,
        (forall|j: int|
            0 <= j < nodes.len() ==> (#[trigger] nodes[j]).key != Some("keys"@)) ==> update_in(
            nodes,
        ).keys is None,
        (forall|j: int|
            0 <= j < nodes.len() ==> (#[trigger] nodes[j]).key != Some("atem"@)) ==> update_in(
            nodes,
        ).atem is None,
{
    member_is_named(nodes, 0, "url"@, 0);
    member_is_named(nodes, 0, "keys"@, 0);
    member_is_named(nodes, 0, "atem"@, 0);
}

/// Each value of a change goes to the part of the configuration of its name, without the blanks
/// around it; what cannot be is passed over.
#[verifier::rlimit(60)]
pub proof fn changes_go_to_their_part(m: ConfigModel, u: ConfigUpdateModel)
    ensures
        ({
            let r = configured(m, u);
            &&& u.url matches Some(x) ==> r.url == trimmed(x)
            &&& u.url is None ==> r.url == m.url
            &&& u.unifi_host matches Some(x) ==> r.unifi_host == trimmed(x)
            &&& u.unifi_host is None ==> r.unifi_host == m.unifi_host
            &&& u.interval_secs matches Some(n) ==> r.interval_secs == (if n > 0 {
                n
            } else {
                m.interval_secs
            })
            &&& u.interval_secs is None ==> r.interval_secs == m.interval_secs
            &&& u.mode matches Some(x) ==> {
                &&& ascii_lower(x) == "live"@ ==> r.mode == DiagMode::Live
                &&& ascii_lower(x) == "standby"@ ==> r.mode == DiagMode::Standby
                &&& ascii_lower(x) != "live"@ && ascii_lower(x) != "standby"@ ==> r.mode == m.mode
            }
            &&& u.mode is None ==> r.mode == m.mode
            &&& u.monitor_iface matches Some(x) ==> r.monitor_iface == (if trimmed(x).len() > 0 {
                Some(trimmed(x))
            } else {
                m.monitor_iface
            })
            &&& u.monitor_iface is None ==> r.monitor_iface == m.monitor_iface
            &&& u.atem matches Some(a) ==> {
                &&& a.ip matches Some(x) ==> r.atem.ip == trimmed(x)
                &&& a.mac matches Some(x) ==> (normal_mac(x).len() > 0 ==> r.atem.mac == Some(
                    normal_mac(x),
                ))
                &&& a.port matches Some(n) ==> (n <= 65_535 ==> r.atem.port == n)
                &&& a.port is None ==> r.atem.port == 1935
            }
            &&& u.atem is None ==> r.atem == m.atem
            &&& r.monitor_ports == m.monitor_ports && r.unifi_configured == m.unifi_configured
        }),
{
    modes_differ();
}

proof fn modes_differ()
    ensures
        "live"@ != "standby"@,
{
    reveal_strlit("live");
    reveal_strlit("standby");
    assert("live"@.len() == 4);
    assert("standby"@.len() == 7);
}

/// A change is refused if and only if its address is that of no stream.
pub proof fn other_addresses_are_refused(u: ConfigUpdateModel)
    ensures
        refusal(u) is Some <==> (u.url matches Some(x) && trimmed(x).len() > 0 && !begins(
            trimmed(x),
            "srt://"@,
        ) && !begins(trimmed(x), "rtmp://"@) && !begins(trimmed(x), "rtmps://"@)),
{
}

/// All keys that are not blank are taken, without the blanks around them, and no others.
pub proof fn given_keys_are_taken(v: Seq<Seq<char>>, k: Seq<char>)
    ensures
        given_keys(v).contains(k) <==> k.len() > 0 && exists|i: int|
            0 <= i < v.len() && trimmed(#[trigger] v[i]) == k,
    decreases v.len(),
{
    if v.len() > 0 {
        let w = v.drop_last();
        given_keys_are_taken(w, k);
        let g = given_keys(v);
        let h = given_keys(w);
        assert(v[v.len() - 1] == v.last());
        if trimmed(v.last()).len() > 0 {
            assert(g =~= h.push(trimmed(v.last())));
            if g.contains(k) {
                let j = choose|j: int| 0 <= j < g.len() && g[j] == k;
                if j < h.len() {
                    assert(h[j] == k);
                    assert(h.contains(k));
                    let i = choose|i: int| 0 <= i < w.len() && trimmed(#[trigger] w[i]) == k;
                    assert(v[i] == w[i]);
                } else {
                    assert(trimmed(v[v.len() - 1]) == k);
                }
            }
            if k.len() > 0 && exists|i: int| 0 <= i < v.len() && trimmed(#[trigger] v[i]) == k {
                let i = choose|i: int| 0 <= i < v.len() && trimmed(#[trigger] v[i]) == k;
                if i < w.len() {
                    assert(trimmed(w[i]) == k);
                    let j = choose|j: int| 0 <= j < h.len() && h[j] == k;
                    assert(g[j] == k);
                } else {
                    assert(g[h.len() as int] == k);
                }
            }
        } else {
            if h.contains(k) {
                let i = choose|i: int| 0 <= i < w.len() && trimmed(#[trigger] w[i]) == k;
                assert(v[i] == w[i]);
            }
            if k.len() > 0 && exists|i: int| 0 <= i < v.len() && trimmed(#[trigger] v[i]) == k {
                let i = choose|i: int| 0 <= i < v.len() && trimmed(#[trigger] v[i]) == k;
                assert(w[i] == v[i]);
            }
        }
    }
}

// ---------------------------------------------------------------------------
// The dashboard
// ---------------------------------------------------------------------------

/// The dashboard begins with what the command line says, watching, and with the usual switcher
/// and gateway where nothing else is said.
pub proof fn the_dashboard_begins_as_asked(
    cli: CliModel,
    host: Option<Seq<char>>,
    credentials: bool,
    macos: bool,
)
    ensures
        ({
            let c = first_config(cli, host, credentials, macos);
            &&& c.url == cli.url && c.keys == cli.keys && c.interval_secs == cli.interval_secs
                && c.monitor_ports == cli.monitor_ports
            &&& c.monitor_iface == (match cli.monitor_iface {
                Some(i) => Some(i),
                None => Some(
                    if macos {
                        "en0"@
                    } else {
                        "any"@
                    },
                ),
            })
            &&& c.mode == DiagMode::Live
            &&& c.unifi_configured == credentials
            &&& host matches Some(h) ==> (!is_blank(h) ==> c.unifi_host == h)
            &&& host is None ==> c.unifi_host == "https://192.168.20.1"@
            &&& c.atem.ip == "192.168.20.189"@ && c.atem.port == 1935
            &&& c.source_labels == Map::<Seq<char>, Seq<char>>::empty()
        }),
{
}

/// A page, the state and a change have each their path, a change by posting alone.
pub proof fn requests_have_their_path(path: Seq<char>)
    ensures
        routed(false, path) == Route::Page <==> path == "/"@ || path == "/index.html"@,
        routed(false, path) == Route::State <==> path == "/api/state"@,
        routed(true, path) == Route::Config <==> path == "/api/config"@,
        routed(false, path) != Route::Config,
        routed(true, path) == Route::Config || routed(true, path) == Route::NotFound,
{
    paths_differ();
}

proof fn paths_differ()
    ensures
        "/api/state"@ != "/"@,
        "/api/state"@ != "/index.html"@,
{
    reveal_strlit("/api/state");
    reveal_strlit("/");
    reveal_strlit("/index.html");
    assert("/api/state"@.len() == 10);
    assert("/"@.len() == 1);
    assert("/index.html"@.len() == 11);
}

/// Each target is tried with its own key, at the destination; only on standby, and only over
/// SRT if there are keys.
pub proof fn targets_are_tried_with_their_key(m: ConfigModel, i: int)
    ensures
        m.mode != DiagMode::Standby || m.url.len() == 0 ==> due_targets(m).len() == 0,
        m.mode == DiagMode::Standby && m.url.len() > 0 && m.keys.len() == 0 ==> due_targets(m)
            == seq![(m.url, Seq::<char>::empty())],
        m.mode == DiagMode::Standby && m.url.len() > 0 && m.keys.len() > 0 && begins(
            up_to(m.url, '?'),
            "srt://"@,
        ) ==> due_targets(m).len() == m.keys.len() && (0 <= i < m.keys.len() ==> due_targets(
            m,
        )[i] == (probe_url(m.url, m.keys[i]), m.keys[i])),
{
}

/// The switcher is seen as soon as a flow comes from it or goes to it. Not to see it means
/// something only half a minute after the watching began.
pub proof fn the_switcher_is_looked_for(
    start: u64,
    ip: Seq<char>,
    v: Seq<Flow>,
    now: u64,
    i: int,
)
    requires
        trimmed(ip).len() > 0,
        start + 30 <= u64::MAX,
    ensures
        0 <= i < v.len() && (v[i].key@.src_ip == trimmed(ip) || v[i].key@.dst_ip == trimmed(ip))
            ==> visibility(Some(start), ip, v, now) == LanVisibility::SeesPeers,
        (forall|j: int|
            0 <= j < v.len() ==> (#[trigger] v[j]).key@.src_ip != trimmed(ip) && v[j].key@.dst_ip
                != trimmed(ip)) ==> visibility(Some(start), ip, v, now) == (if now < start + 30 {
            LanVisibility::Unknown
        } else {
            LanVisibility::PossiblyBlind { since: (start + 30) as u64 }
        }),
        visibility(None, ip, v, now) == LanVisibility::Unknown,
{
}

/// Each figure of a flow is shown under its name: times in thousandths of a second, rates in
/// thousands of bits, a packet counting thirteen hundred and sixteen bytes.
pub proof fn flows_are_shown_by_name(f: Flow, now: u64)
    ensures
        ({
            let s = flow_snapshot(f, now);
            let m = f.stats@;
            &&& s.key == f.key@
            &&& s.total_bytes == m.total_bytes
            &&& s.total_packets == m.total_packets
            &&& s.control_packets == m.control_packets
            &&& s.recent_bytes == m.window_bytes
            &&& s.bitrate_samples == m.bitrate_samples
            &&& m.last_seen matches Some(t) ==> (t <= now ==> s.idle == now - t)
            &&& m.first_seen matches Some(t) ==> (t <= now ==> s.duration == now - t)
            &&& m.last_srt_ack_at matches Some(t) ==> (t <= now ==> s.last_srt_ack_idle == Some(
                (now - t) as u64,
            ))
            &&& m.last_srt_ack matches Some(a) ==> {
                &&& a.rtt_us matches Some(n) ==> s.last_srt_rtt_ms == Some((n / 1000) as u64)
                &&& a.rttvar_us matches Some(n) ==> s.last_srt_rttvar_ms == Some((n / 1000) as u64)
                &&& a.bw_pkts_s matches Some(n) ==> s.last_srt_bw_kbps == Some(kbps_of(n) as u32)
                &&& a.rate_pkts_s matches Some(n) ==> s.last_srt_rate_kbps == Some(
                    kbps_of(n) as u32,
                )
                &&& s.last_srt_buf_pkts == a.buf_avail_pkts
            }
            &&& s.stream_key == opt_text(f.stream_key)
        }),
{
}

/// A rate in packets is told in thousands of bits, of packets of thirteen hundred and sixteen
/// bytes.
pub proof fn packet_rates_are_told_in_bits(pkts: u32)
    requires
        pkts * 1316 * 8 < 0x1_0000_0000 * 1000,
    ensures
        kbps_of(pkts) * 1000 <= pkts * 1316 * 8 < (kbps_of(pkts) + 1) * 1000,
{
}

/// A flow streams if bytes have come since the last look. Else it is idle if it has been still
/// for more than five seconds; before that it shakes hands if it is mostly control, and
/// otherwise stalls.
pub proof fn health_is_told(m: FlowModel, idle: u64)
    ensures
        m.window_bytes > 0 ==> health_of(m, idle) == "streaming"@,
        m.window_bytes == 0 && idle > 5_000_000_000 ==> health_of(m, idle) == "idle"@,
        m.window_bytes == 0 && idle <= 5_000_000_000 && m.control_packets > 0 && m.total_packets
            < m.control_packets + 10 ==> health_of(m, idle) == "handshake"@,
        m.window_bytes == 0 && idle <= 5_000_000_000 && m.total_packets >= m.control_packets + 10
            ==> health_of(m, idle) == "stalling"@,
        m.window_bytes == 0 && idle <= 5_000_000_000 && m.total_packets == 0 && m.control_packets
            == 0 ==> health_of(m, idle) == "unknown"@,
{
}

// ---------------------------------------------------------------------------
// The gateway
// ---------------------------------------------------------------------------

/// A client is shown with its own values. What the gateway received, the client sent; the
/// switcher is known by its hardware address in either case.
pub proof fn clients_are_shown_by_name(
    m: RawModel,
    atem: Option<Seq<char>>,
    before: Option<(u64, u64, u64)>,
    now: u64,
)
    ensures
        ({
            let c = shown_client(m, atem, before, now);
            &&& c.mac == ascii_lower(m.mac) && c.ip == m.ip && c.hostname == m.hostname && c.name
                == m.name && c.oui == m.oui && c.is_wired == m.is_wired
            &&& m.rx_bytes + m.wired_rx_bytes <= u64::MAX ==> c.tx_bytes == m.rx_bytes
                + m.wired_rx_bytes
            &&& m.tx_bytes + m.wired_tx_bytes <= u64::MAX ==> c.rx_bytes == m.tx_bytes
                + m.wired_tx_bytes
            &&& m.rate_kbps matches Some(r) ==> c.tx_kbps == r.0 && c.rx_kbps == r.1
            &&& c.is_atem <==> (atem matches Some(a) && ascii_lower(a) == c.mac)
            &&& m.last_seen matches Some(t) ==> c.last_seen == t
        }),
{
}

/// A rate is the bits between two polls in the time between them, in thousands a second: what
/// was sent first, what was got second. Nothing is told of a first poll, or of two that come
/// within a tenth of a second; and a count that went back counts as none.
#[verifier::rlimit(60)]
pub proof fn rates_follow_the_counts(b: (u64, u64, u64), sent: u64, got: u64, now: u64)
    requires
        now > b.2 + 100_000_000,
        sent >= b.0,
        got >= b.1,
        (sent - b.0) * 8_000_000 < u64::MAX,
        (got - b.1) * 8_000_000 < u64::MAX,
    ensures
        ({
            let r = rate_between(Some(b), sent, got, now);
            let nanos = now - b.2;
            &&& r.0 * nanos <= (sent - b.0) * 8_000_000 < (r.0 + 1) * nanos
            &&& r.1 * nanos <= (got - b.1) * 8_000_000 < (r.1 + 1) * nanos
        }),
        rate_between(None, sent, got, now) == (0u64, 0u64),
        rate_between(Some((b.0, b.1, now)), sent, got, now) == (0u64, 0u64),
{
    let nanos = now - b.2;
    within(sent - b.0, nanos);
    within(got - b.1, nanos);
}

proof fn within(bytes: int, nanos: int)
    requires
        nanos > 0,
        0 <= bytes,
        bytes * 8_000_000 < u64::MAX,
    ensures
        0 <= kbps_within(bytes, nanos) <= u64::MAX,
        kbps_within(bytes, nanos) * nanos <= bytes * 8_000_000 < (kbps_within(bytes, nanos) + 1)
            * nanos,
{
    let a = bytes * 8_000_000;
    let q = a / nanos;
    vstd::arithmetic::div_mod::lemma_fundamental_div_mod(a, nanos);
    vstd::arithmetic::div_mod::lemma_mod_bound(a, nanos);
    assert(nanos * q == q * nanos) by (nonlinear_arith);
    assert((q + 1) * nanos == q * nanos + nanos) by (nonlinear_arith);
    assert(0 <= q <= a) by (nonlinear_arith)
        requires
            q == a / nanos,
            nanos > 0,
            a >= 0,
    ;
}

/// A key goes before a name with a password. The key is sent in its own header; a login sends
/// the token that it was given, if any.
pub proof fn credentials_are_used(
    key: Option<Seq<char>>,
    name: Option<Seq<char>>,
    word: Option<Seq<char>>,
    csrf: Option<Seq<char>>,
)
    ensures
        ({
            let c = set_credentials(key, name, word);
            let keyed = key matches Some(k) && trimmed(k).len() > 0;
            let named = name matches Some(n) && trimmed(n).len() > 0;
            let worded = word matches Some(w) && w.len() > 0;
            &&& keyed ==> c == Some(CredentialsModel::ApiKey(trimmed(key->0)))
            &&& !keyed && named && worded ==> c == Some(
                CredentialsModel::Login { username: trimmed(name->0), password: word->0 },
            )
            &&& c is None <==> !keyed && !(named && worded)
            &&& c matches Some(CredentialsModel::ApiKey(k)) ==> auth_pairs(c->0, csrf).contains(
                ("X-API-KEY"@, k),
            )
            &&& c matches Some(CredentialsModel::Login { .. }) ==> match csrf {
                Some(t) => auth_pairs(c->0, csrf) == seq![("X-CSRF-Token"@, t)],
                None => auth_pairs(c->0, csrf).len() == 0,
            }
        }),
{
    let c = set_credentials(key, name, word);
    if let Some(CredentialsModel::ApiKey(k)) = c {
        assert(auth_pairs(c->0, csrf)[0] == ("X-API-KEY"@, k));
    }
}

// ---------------------------------------------------------------------------
// Addresses and bytes
// ---------------------------------------------------------------------------

/// An address has no name to be looked up if and only if it is one of a private network, of the
/// machine itself, of a link, or of no single machine.
#[verifier::rlimit(60)]
pub proof fn private_addresses_have_no_name(a: u8, b: u8, c: u8, d: u8)
    ensures
        ({
            let ip = decimal(a as nat) + seq!['.'] + (decimal(b as nat) + seq!['.'] + (decimal(
                c as nat,
            ) + seq!['.'] + decimal(d as nat)));
            is_unnamed(ip) <==> a == 10 || a == 127 || a == 0 || a >= 224 || (a == 172 && 16 <= b
                <= 31) || (a == 192 && b == 168) || (a == 169 && b == 254)
        }),
{
    let x = decimal(a as nat);
    let y = decimal(b as nat);
    let z = decimal(c as nat);
    let w = decimal(d as nat);
    let s = seq!['.'];
    digits_lack_dot(a as nat);
    digits_lack_dot(b as nat);
    digits_lack_dot(c as nat);
    digits_lack_dot(d as nat);
    first_piece_is(x, y + s + (z + s + w), '.');
    first_piece_is(y, z + s + w, '.');
    first_piece_is(z, w, '.');
    only_piece_is(w, '.');
    let ip = x + s + (y + s + (z + s + w));
    let v = pieces(ip, '.');
    assert(v =~= seq![x, y, z, w]);
    parsed_decimal(a as nat, 255);
    parsed_decimal(b as nat, 255);
    parsed_decimal(c as nat, 255);
    parsed_decimal(d as nat, 255);
    reveal_with_fuel(octets, 5);
    assert(v.drop_last() =~= seq![x, y, z]);
    assert(seq![x, y, z].drop_last() =~= seq![x, y]);
    assert(seq![x, y].drop_last() =~= seq![x]);
    assert(seq![x].drop_last().len() == 0);
    assert(octets(v) =~= seq![a, b, c, d]);
}

proof fn digits_lack_dot(n: nat)
    ensures
        lacks(decimal(n), '.'),
{
    decimal_is_digits(n);
    assert(!is_digit('.'));
}

/// Two hexadecimal digits make a byte, the high one first.
pub proof fn digits_make_bytes(s: Seq<u8>, i: int)
    requires
        forall|j: int| 0 <= j < s.len() ==> hex_value(#[trigger] s[j] as int) is Some,
        0 <= 2 * i,
        2 * i + 1 < s.len(),
    ensures
        hex_bytes(s).len() == s.len() / 2,
        hex_value(s[2 * i] as int) matches Some(high) && hex_value(s[2 * i + 1] as int) matches Some(
            low,
        ) && hex_bytes(s)[i] == 16 * high + low,
{
    nibbles_are(s);
    assert(is_hex_text(s));
    assert(hex_value(s[2 * i] as int) is Some);
    assert(hex_value(s[2 * i + 1] as int) is Some);
}

proof fn nibbles_are(s: Seq<u8>)
    requires
        forall|j: int| 0 <= j < s.len() ==> hex_value(#[trigger] s[j] as int) is Some,
    ensures
        nibbles(s).len() == s.len(),
        forall|j: int|
            0 <= j < s.len() ==> #[trigger] nibbles(s)[j] == hex_value(s[j] as int)->0,
    decreases s.len(),
{
    if s.len() > 0 {
        let w = s.drop_last();
        assert forall|j: int| 0 <= j < w.len() implies hex_value(#[trigger] w[j] as int) is Some by {
            assert(w[j] == s[j]);
        }
        nibbles_are(w);
        assert(s.last() == s[s.len() - 1]);
        assert forall|j: int| 0 <= j < s.len() implies #[trigger] nibbles(s)[j] == hex_value(
            s[j] as int,
        )->0 by {
            if j < w.len() {
                assert(nibbles(s)[j] == nibbles(w)[j]);
                assert(w[j] == s[j]);
            }
        }
    }
}

// ---------------------------------------------------------------------------
// Changes of the dashboard
// ---------------------------------------------------------------------------

/// A change that is refused leaves the dashboard as it was. Another is made; what is known of
/// the tries is forgotten if and only if another destination or other keys are tried, and the
/// capture ends if and only if another interface is watched.
pub proof fn changes_forget_what_is_old(
    o: DashboardState,
    u: ConfigUpdateModel,
    n: DashboardState,
    r: Result<Option<u32>, String>,
)
    requires
        changed(o, u, n, r),
    ensures
        refusal(u) is Some ==> n == o && r is Err,
        refusal(u) is None ==> {
            let c = n.config@;
            let same_target = c.url == o.config@.url && c.keys == o.config@.keys;
            let same_iface = c.monitor_iface == o.config@.monitor_iface;
            &&& c == configured(o.config@, u)
            &&& !same_target ==> n.probes@.len() == 0 && n.per_key.tracks@.len() == 0
            &&& same_target ==> n.probes == o.probes && n.per_key == o.per_key
            &&& !same_iface ==> r == Ok::<Option<u32>, String>(o.monitor_pid) && n.monitor_pid
                is None
            &&& same_iface ==> r == Ok::<Option<u32>, String>(None) && n.monitor_pid
                == o.monitor_pid
            &&& n.flows == o.flows && n.unifi_clients == o.unifi_clients && n.rdns_cache
                == o.rdns_cache && n.started_at == o.started_at
        },
{
}

/// A name is looked up for an address that can have one, once.
pub proof fn names_are_looked_up_once(
    cache: Seq<ResolvedName>,
    pending: Seq<Seq<char>>,
    ip: Seq<char>,
    i: int,
)
    ensures
        is_unnamed(ip) ==> !wants_name(cache, pending, ip),
        pending.contains(ip) ==> !wants_name(cache, pending, ip),
        0 <= i < cache.len() && cache[i].ip@ == ip ==> !wants_name(cache, pending, ip),
        !is_unnamed(ip) && !pending.contains(ip) && (forall|j: int|
            0 <= j < cache.len() ==> (#[trigger] cache[j]).ip@ != ip) ==> wants_name(
            cache,
            pending,
            ip,
        ),
{
}

/// The last two hundred and fifty tries are kept.
pub proof fn the_last_tries_are_kept(v: Seq<ProbeModel>)
    ensures
        v.len() <= 250 ==> kept_probes(v) == v,
        v.len() > 250 ==> kept_probes(v).len() == 250 && kept_probes(v).last() == v.last(),
        v.len() > 250 ==> kept_probes(v) == v.skip(v.len() - 250),
{
}

/// The rate of a client comes from the last poll that told of it, under its address in small
/// letters; what this poll tells is kept for the next.
pub proof fn polls_follow_each_other(
    known: Map<Seq<char>, (u64, u64, u64)>,
    m: RawModel,
    atem: Option<Seq<char>>,
    now: u64,
)
    ensures
        ({
            let mac = ascii_lower(m.mac);
            let before = if known.contains_key(mac) {
                Some(known[mac])
            } else {
                None
            };
            let r = polled(known, seq![m], atem, now);
            let c = shown_client(m, atem, before, now);
            &&& r.1 == seq![c]
            &&& r.0.contains_key(mac) && r.0[mac] == (c.tx_bytes, c.rx_bytes, now)
            &&& forall|k: Seq<char>|
                k != mac && known.contains_key(k) ==> #[trigger] r.0.contains_key(k) && r.0[k]
                    == known[k]
        }),
{
    reveal_with_fuel(polled, 2);
    assert(seq![m].drop_last() =~= Seq::<RawModel>::empty());
    assert(polled(known, seq![m], atem, now).1 =~= seq![
        shown_client(m, atem, entry(known, ascii_lower(m.mac)), now),
    ]);
}

/// Help is given to whoever asks for it, whatever else they ask.
pub proof fn help_is_given(args: Seq<Seq<char>>, i: int, macos: bool)
    requires
        0 <= i < args.len(),
        args[i] == "-h"@ || args[i] == "--help"@,
    ensures
        command_line(args, macos) == Err::<CliModel, Seq<char>>(USAGE@),
        command_line(Seq::empty(), macos) == Err::<CliModel, Seq<char>>(USAGE@),
{
}

/// A label goes to its address; an empty one takes the label away; others stay.
pub proof fn labels_go_to_their_address(
    m: ConfigModel,
    ip: Seq<char>,
    label: Seq<char>,
    other: Seq<char>,
    u: ConfigUpdateModel,
)
    requires
        trimmed(ip).len() > 0,
        other != trimmed(ip),
        u == (ConfigUpdateModel { source_label_set: Some((Some(ip), Some(label))), ..no_change() }),
    ensures
        ({
            let r = configured(m, u).source_labels;
            &&& label.len() > 0 ==> r.contains_key(trimmed(ip)) && r[trimmed(ip)] == label
            &&& label.len() == 0 ==> !r.contains_key(trimmed(ip))
            &&& r.contains_key(other) <==> m.source_labels.contains_key(other)
            &&& m.source_labels.contains_key(other) ==> r[other] == m.source_labels[other]
        }),
{
}

/// The keys of a request are its texts in the list for them, in their order.
pub proof fn keys_are_read_in_order(nodes: Seq<JsonNodeModel>, p: usize, n: int)
    requires
        0 < n <= nodes.len(),
    ensures
        texts_under(nodes, p, 0).len() == 0,
        nodes[n - 1].parent == Some(p) && nodes[n - 1].text is Some ==> texts_under(nodes, p, n)
            == texts_under(nodes, p, n - 1).push(nodes[n - 1].text->0),
        nodes[n - 1].parent != Some(p) || nodes[n - 1].text is None ==> texts_under(nodes, p, n)
            == texts_under(nodes, p, n - 1),
{
}

/// The keys of a request come from the list of that name.
pub proof fn keys_are_read_by_name(nodes: Seq<JsonNodeModel>, i: int)
    requires
        is_named(nodes, 0, "keys"@, i),
        nodes.len() <= usize::MAX,
    ensures
        nodes[i].list ==> update_in(nodes).keys == Some(
            texts_under(nodes, i as usize, nodes.len() as int),
        ),
        !nodes[i].list ==> update_in(nodes).keys is None,
{
    named_is_member(nodes, 0, "keys"@, 0, i);
}

/// The labels of a request are its texts by their names, the last of a name if there are more.
pub proof fn labels_are_read_by_name(nodes: Seq<JsonNodeModel>, p: usize, n: int, k: Seq<char>)
    requires
        0 < n <= nodes.len(),
        nodes[n - 1].parent == Some(p),
        nodes[n - 1].key == Some(k),
        nodes[n - 1].text is Some,
    ensures
        labels_under(nodes, p, n).contains_key(k),
        labels_under(nodes, p, n)[k] == nodes[n - 1].text->0,
        forall|other: Seq<char>|
            other != k ==> (#[trigger] labels_under(nodes, p, n).contains_key(other)
                <==> labels_under(nodes, p, n - 1).contains_key(other)),
{
}

/// The mean of the tries lies within a thousandth of a second below the exact one.
pub proof fn means_are_rounded_down(s: Stats)
    requires
        s.total_probes > 0,
    ensures
        mean_ms(s) * s.total_probes <= s.latency_sum_ms < (mean_ms(s) + 1) * s.total_probes,
{
    let n = s.total_probes;
    let q = s.latency_sum_ms / n;
    vstd::arithmetic::div_mod::lemma_fundamental_div_mod(s.latency_sum_ms as int, n as int);
    vstd::arithmetic::div_mod::lemma_mod_bound(s.latency_sum_ms as int, n as int);
    assert(n * q == q * n) by (nonlinear_arith);
    assert((q + 1) * n == q * n + n) by (nonlinear_arith);
}

} // verus!
