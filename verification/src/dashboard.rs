//! What the dashboard of the network diagnostic knows and shows.
use std::collections::VecDeque;
use vstd::prelude::*;
use vstd::string::*;

use crate::addresses::{is_private_or_loopback, is_unnamed};
use crate::diag_cli::{default_iface, Cli, CliModel, DEFAULT_UDM_HOST};
use crate::diag_config::{
    config_update_of, configured, labels_of, refusal, update_in, AtemTarget, ConfigModel,
    ConfigSnapshot, ConfigUpdate, ConfigUpdateModel, DiagMode, SourceLabel, TargetModel,
};
use crate::diag_cli::{DEFAULT_ATEM_IP, DEFAULT_ATEM_MAC, DEFAULT_ATEM_PORT};
use crate::flows::{
    busiest_places, flow_has_room, flow_of, noted_in, since, Flow, FlowKeyModel, FlowModel,
    FlowTable, PacketInfo,
};
use crate::json::{json_nodes, parse_json};
use crate::number::{hex_value, lower_hex, lower_hex_char};
use crate::probe::{
    build_bmd_srt_url, has_room, noted, outcome_word, probe_url, track_of, tried_keys, with_key,
    KeyTrack, ProbeOutcome, Stats, Tracker,
};
use crate::rank::places;
use crate::scan::{begins, blank, is_blank, trim, trimmed, up_to};
use crate::text::{cat2, cat3, copy_texts, opt_text, same, texts, to_chars};

verus! {

// ---------------------------------------------------------------------------
// What is known of the network
// ---------------------------------------------------------------------------

/// Whether the streams to the switcher can be seen from here.
#[derive(Clone, Copy, Debug, PartialEq, Eq, Structural)]
pub enum LanVisibility {
    /// It is too early to tell.
    Unknown,
    /// One has been seen.
    SeesPeers,
    /// None has been seen for long.
    PossiblyBlind { since: u64 },
}

impl Default for LanVisibility {
    /// It is too early to tell.
    fn default() -> (r: Self)
        ensures
            r == LanVisibility::Unknown,
    {
        LanVisibility::Unknown
    }
}

/// How the gateway's list of clients is doing.
#[derive(Debug)]
pub enum UnifiStatus {
    NotConfigured,
    Connecting,
    Connected { last_poll_at: u64 },
    Failed { error: String, last_attempt: u64 },
}

impl Default for UnifiStatus {
    /// There are no credentials.
    fn default() -> (r: Self)
        ensures
            r is NotConfigured,
    {
        UnifiStatus::NotConfigured
    }
}

/// How the gateway's figures of its uplink are doing.
#[derive(Debug)]
pub enum WanStatus {
    NotConfigured,
    Connecting,
    Connected { last_poll_at: u64 },
    Failed { error: String, last_attempt: u64 },
}

impl Default for WanStatus {
    /// There are no credentials.
    fn default() -> (r: Self)
        ensures
            r is NotConfigured,
    {
        WanStatus::NotConfigured
    }
}

/// How the gateway's list of alarms is doing.
#[derive(Debug)]
pub enum SystemStatus {
    NotConfigured,
    Connecting,
    Connected { last_poll_at: u64 },
    Failed { error: String, last_attempt: u64 },
}

impl Default for SystemStatus {
    /// There are no credentials.
    fn default() -> (r: Self)
        ensures
            r is NotConfigured,
    {
        SystemStatus::NotConfigured
    }
}

/// An alarm of the gateway.
#[derive(Debug)]
pub struct AlarmSnapshot {
    pub key: String,
    pub msg: String,
    pub subsystem: String,
    pub time: u64,
    pub severity: Option<String>,
}

/// A client of the gateway.
#[derive(Debug)]
pub struct UnifiClientSnapshot {
    pub mac: String,
    pub ip: Option<String>,
    pub hostname: Option<String>,
    pub name: Option<String>,
    pub oui: Option<String>,
    pub last_seen: u64,
    /// The bytes that it has sent, and those that it has got.
    pub tx_bytes: u64,
    pub rx_bytes: u64,
    pub tx_kbps: u64,
    pub rx_kbps: u64,
    pub is_atem: bool,
    pub is_wired: bool,
}

/// A try.
#[derive(Debug)]
pub struct ProbeRecord {
    pub timestamp: u64,
    pub key: String,
    pub outcome: String,
    pub latency_ms: u64,
}

/// What a `ProbeRecord` holds.
pub struct ProbeModel {
    pub timestamp: u64,
    pub key: Seq<char>,
    pub outcome: Seq<char>,
    pub latency_ms: u64,
}

impl View for ProbeRecord {
    type V = ProbeModel;

    open spec fn view(&self) -> ProbeModel {
        ProbeModel {
            timestamp: self.timestamp,
            key: self.key@,
            outcome: self.outcome@,
            latency_ms: self.latency_ms,
        }
    }
}

/// What is known of the name of an address.
#[derive(Debug)]
pub struct ResolvedName {
    pub ip: String,
    /// `None` if it has none.
    pub name: Option<String>,
}

/// What the dashboard knows.
#[derive(Debug)]
pub struct DashboardState {
    pub started_at: u64,
    pub config: ConfigSnapshot,
    /// The last tries.
    pub probes: VecDeque<ProbeRecord>,
    pub per_key: Tracker,
    pub flows: FlowTable,
    pub last_probe_at: u64,
    pub last_flow_at: u64,
    pub unifi_clients: Vec<UnifiClientSnapshot>,
    pub unifi_status: UnifiStatus,
    pub last_unifi_poll_at: u64,
    pub wan_status: WanStatus,
    pub alarms: Vec<AlarmSnapshot>,
    pub system_status: SystemStatus,
    /// The names that have been looked up, and the addresses whose names are to be.
    pub rdns_cache: Vec<ResolvedName>,
    pub rdns_pending: Vec<String>,
    /// The process that captures packets.
    pub monitor_pid: Option<u32>,
    pub monitor_started_at: Option<u64>,
}

/// So many tries are kept.
pub const KEEP_LAST_PROBES: usize = 250;

/// For so many seconds it is too early to tell what can be seen.
pub const LAN_VISIBILITY_WINDOW_SECS: u64 = 30;

/// A flow is shown until more than a minute has passed since its last packet: this is
/// the first moment at which it no longer is.
pub const FLOW_LIMIT: u64 = 60_000_000_001;

/// A flow without bytes is idle after more than five seconds.
pub const IDLE_NANOS: u64 = 5_000_000_000;

/// The tries, one for each record.
pub open spec fn probe_models(v: Seq<ProbeRecord>) -> Seq<ProbeModel> {
    Seq::new(v.len(), |i: int| v[i]@)
}

/// The last of the tries, as many as are kept.
pub open spec fn kept_probes(v: Seq<ProbeModel>) -> Seq<ProbeModel> {
    if v.len() > KEEP_LAST_PROBES {
        v.skip(v.len() - KEEP_LAST_PROBES)
    } else {
        v
    }
}

// ---------------------------------------------------------------------------
// What happens
// ---------------------------------------------------------------------------

/// A stream to or from the switcher has been seen.
pub open spec fn switcher_is_seen(v: Seq<Flow>, ip: Seq<char>) -> bool {
    exists|i: int|
        0 <= i < v.len() && ((#[trigger] v[i]).key@.src_ip == ip || v[i].key@.dst_ip == ip)
}

/// Whether the streams to the switcher can be seen.
pub open spec fn visibility(
    started_at: Option<u64>,
    atem_ip: Seq<char>,
    v: Seq<Flow>,
    now: u64,
) -> LanVisibility {
    match started_at {
        None => LanVisibility::Unknown,
        Some(t) => if trimmed(atem_ip).len() == 0 {
            LanVisibility::Unknown
        } else if switcher_is_seen(v, trimmed(atem_ip)) {
            LanVisibility::SeesPeers
        } else if now < t + LAN_VISIBILITY_WINDOW_SECS {
            LanVisibility::Unknown
        } else {
            LanVisibility::PossiblyBlind { since: (t + LAN_VISIBILITY_WINDOW_SECS) as u64 }
        },
    }
}

/// The name of an address is known, or known not to exist.
pub open spec fn is_resolved(v: Seq<ResolvedName>, ip: Seq<char>) -> bool {
    exists|i: int| 0 <= i < v.len() && (#[trigger] v[i]).ip@ == ip
}

/// The name of an address is to be looked up.
pub open spec fn wants_name(cache: Seq<ResolvedName>, pending: Seq<Seq<char>>, ip: Seq<char>) -> bool {
    !is_unnamed(ip) && !is_resolved(cache, ip) && !pending.contains(ip)
}

/// What the dashboard is set to at the start.
pub open spec fn first_config(
    cli: CliModel,
    named_host: Option<Seq<char>>,
    has_credentials: bool,
    macos: bool,
) -> ConfigModel {
    ConfigModel {
        url: cli.url,
        keys: cli.keys,
        interval_secs: cli.interval_secs,
        monitor_iface: match cli.monitor_iface {
            Some(i) => Some(i),
            None => Some(default_iface(macos)),
        },
        monitor_ports: cli.monitor_ports,
        mode: DiagMode::Live,
        atem: TargetModel {
            ip: DEFAULT_ATEM_IP@,
            mac: Some(DEFAULT_ATEM_MAC@),
            port: DEFAULT_ATEM_PORT,
        },
        unifi_host: match named_host {
            Some(h) if !is_blank(h) => h,
            _ => DEFAULT_UDM_HOST@,
        },
        unifi_configured: has_credentials,
        source_labels: Map::empty(),
    }
}

/// `n` is `o` after a change: what is refused changes nothing and is told why. What is known
/// of the tries is forgotten if another destination is tried, and `r` tells the process
/// that has to end if another network interface is to be watched.
pub open spec fn changed(
    o: DashboardState,
    u: ConfigUpdateModel,
    n: DashboardState,
    r: Result<Option<u32>, String>,
) -> bool {
    match refusal(u) {
        Some(e) => r matches Err(x) && x@ == e && n == o,
        None => {
            let after = configured(o.config@, u);
            let new_target = after.url != o.config@.url || after.keys != o.config@.keys;
            let new_iface = after.monitor_iface != o.config@.monitor_iface;
            &&& n.config@ == after
            &&& r == Ok::<Option<u32>, String>(
                if new_iface {
                    o.monitor_pid
                } else {
                    None
                },
            )
            &&& n.monitor_pid == (if new_iface {
                None
            } else {
                o.monitor_pid
            })
            &&& new_target ==> n.probes@.len() == 0 && n.per_key.tracks@.len() == 0
                && n.last_probe_at == 0
            &&& !new_target ==> n.probes == o.probes && n.per_key == o.per_key && n.last_probe_at
                == o.last_probe_at
            &&& n == (DashboardState {
                config: n.config,
                probes: n.probes,
                per_key: n.per_key,
                last_probe_at: n.last_probe_at,
                monitor_pid: n.monitor_pid,
                ..o
            })
        },
    }
}

impl DashboardState {
    /// No more tries are kept than may be, and what is known of keys and flows is
    /// valid. No address is to be looked up twice.
    pub open spec fn valid(&self) -> bool {
        &&& self.probes@.len() <= KEEP_LAST_PROBES
        &&& self.per_key.valid()
        &&& self.flows.valid()
        &&& texts(self.rdns_pending@).no_duplicates()
    }

    /// The dashboard at the start. `named_host` is where the user says that the gateway
    /// is.
    pub fn new(
        cli: &Cli,
        named_host: Option<String>,
        has_credentials: bool,
        macos: bool,
        now: u64,
    ) -> (r: DashboardState)
        ensures
            r.valid(),
            r.started_at == now,
            r.config@ == first_config(cli@, opt_text(named_host), has_credentials, macos),
            r.probes@.len() == 0,
            r.per_key.tracks@.len() == 0,
            r.flows.flows@.len() == 0,
            r.last_probe_at == 0 && r.last_flow_at == 0 && r.last_unifi_poll_at == 0,
            r.unifi_clients@.len() == 0,
            r.unifi_status is NotConfigured,
            r.wan_status is NotConfigured,
            r.alarms@.len() == 0,
            r.system_status is NotConfigured,
            r.rdns_cache@.len() == 0,
            r.rdns_pending@.len() == 0,
            r.monitor_pid is None,
            r.monitor_started_at is None,
    {
        let unifi_host: String = match named_host {
            Some(h) => if blank(h.as_str()) {
                DEFAULT_UDM_HOST.to_owned()
            } else {
                h
            },
            None => DEFAULT_UDM_HOST.to_owned(),
        };
        let monitor_iface: String = match &cli.monitor_iface {
            Some(i) => i.clone(),
            None => if macos {
                "en0".to_owned()
            } else {
                "any".to_owned()
            },
        };
        let source_labels: Vec<SourceLabel> = Vec::new();
        let config: ConfigSnapshot = ConfigSnapshot {
            url: cli.url.clone(),
            keys: copy_texts(&cli.keys),
            interval_secs: cli.interval_secs,
            monitor_iface: Some(monitor_iface),
            monitor_ports: copy_ports(&cli.monitor_ports),
            mode: DiagMode::Live,
            atem: AtemTarget::default(),
            unifi_host,
            unifi_configured: has_credentials,
            source_labels,
        };
        let r: DashboardState = DashboardState {
            started_at: now,
            config,
            probes: VecDeque::new(),
            per_key: Tracker::new(),
            flows: FlowTable::new(),
            last_probe_at: 0,
            last_flow_at: 0,
            unifi_clients: Vec::new(),
            unifi_status: UnifiStatus::NotConfigured,
            last_unifi_poll_at: 0,
            wan_status: WanStatus::NotConfigured,
            alarms: Vec::new(),
            system_status: SystemStatus::NotConfigured,
            rdns_cache: Vec::new(),
            rdns_pending: Vec::new(),
            monitor_pid: None,
            monitor_started_at: None,
        };
        assert(labels_of(r.config.source_labels@) =~= Map::empty());
        r
    }

    /// Changes what the user wants changed, unless it is refused. What is known of the
    /// tries is forgotten if another destination is tried. `Ok` tells the process that
    /// has to end, if another network interface is to be watched.
    pub fn apply_config_update(&mut self, u: &ConfigUpdate) -> (r: Result<Option<u32>, String>)
        requires
            old(self).valid(),
        ensures
            final(self).valid(),
            changed(*old(self), u@, *final(self), r),
    {
        match self.config.apply(u) {
            Err(e) => Err(e),
            Ok(effect) => {
                if effect.new_target {
                    self.per_key = Tracker::new();
                    self.probes = VecDeque::new();
                    self.last_probe_at = 0;
                }
                if effect.new_iface {
                    let pid: Option<u32> = self.monitor_pid;
                    self.monitor_pid = None;
                    Ok(pid)
                } else {
                    Ok(None)
                }
            },
        }
    }

    /// Changes what the body of a request asks for, as `apply_config_update` does. A body
    /// that is no JSON text is refused and changes nothing.
    pub fn apply_config_body(&mut self, body: &str) -> (r: Result<Option<u32>, String>)
        requires
            old(self).valid(),
        ensures
            final(self).valid(),
            match json_nodes(body@) {
                Err(e) => r matches Err(x) && x@ == "invalid JSON: "@ + e && *final(self) == *old(
                    self,
                ),
                Ok(nodes) => changed(*old(self), update_in(nodes), *final(self), r),
            },
    {
        match parse_json(body) {
            Err(e) => Err(cat2("invalid JSON: ", e.as_str())),
            Ok(nodes) => {
                let u: ConfigUpdate = config_update_of(&nodes);
                self.apply_config_update(&u)
            },
        }
    }

    /// Takes note of a try with a key.
    pub fn record_probe(&mut self, key: &str, outcome: ProbeOutcome, latency_ms: u64, now: u64)
        requires
            old(self).valid(),
            has_room(track_of(old(self).per_key.tracks@, key@).stats, latency_ms),
            track_of(old(self).per_key.tracks@, key@).streak < u32::MAX,
        ensures
            final(self).valid(),
            track_of(final(self).per_key.tracks@, key@) == noted(
                track_of(old(self).per_key.tracks@, key@),
                outcome,
                latency_ms,
            ),
            forall|k: Seq<char>|
                k != key@ ==> #[trigger] track_of(final(self).per_key.tracks@, k) == track_of(
                    old(self).per_key.tracks@,
                    k,
                ),
            tried_keys(final(self).per_key.tracks@) == with_key(
                tried_keys(old(self).per_key.tracks@),
                key@,
            ),
            probe_models(final(self).probes@) == kept_probes(
                probe_models(old(self).probes@).push(
                    ProbeModel {
                        timestamp: now,
                        key: key@,
                        outcome: outcome_word(outcome),
                        latency_ms,
                    },
                ),
            ),
            final(self).last_probe_at == now,
            *final(self) == (DashboardState {
                probes: final(self).probes,
                per_key: final(self).per_key,
                last_probe_at: now,
                ..*old(self)
            }),
    {
        let _report = self.per_key.note(key, outcome, latency_ms, 0);
        let ghost had = self.probes@;
        let label: &str = outcome.csv_label();
        let entry: ProbeRecord = ProbeRecord {
            timestamp: now,
            key: key.to_owned(),
            outcome: label.to_owned(),
            latency_ms,
        };
        let ghost m = entry@;
        self.probes.push_back(entry);
        assert(probe_models(self.probes@) =~= probe_models(had).push(m));
        if self.probes.len() > KEEP_LAST_PROBES {
            let ghost all = self.probes@;
            let _oldest = self.probes.pop_front();
            assert(probe_models(self.probes@) =~= probe_models(all).skip(1));
        }
        self.last_probe_at = now;
    }

    /// Takes note of a packet. `now` is the time of the flows, `now_secs` that of the
    /// dashboard.
    pub fn note_packet(&mut self, packet: &PacketInfo, now: u64, now_secs: u64)
        requires
            old(self).valid(),
            flow_has_room(flow_of(old(self).flows.flows@, packet@.key), packet.bytes),
            flow_of(old(self).flows.flows@, packet@.key).control_packets < u64::MAX,
        ensures
            final(self).valid(),
            noted_in(old(self).flows.flows@, final(self).flows.flows@, packet@, now, true),
            texts(final(self).rdns_pending@) == (if wants_name(
                old(self).rdns_cache@,
                texts(old(self).rdns_pending@),
                packet.src_ip@,
            ) {
                texts(old(self).rdns_pending@).push(packet.src_ip@)
            } else {
                texts(old(self).rdns_pending@)
            }),
            final(self).last_flow_at == now_secs,
            *final(self) == (DashboardState {
                flows: final(self).flows,
                rdns_pending: final(self).rdns_pending,
                last_flow_at: now_secs,
                ..*old(self)
            }),
    {
        let ghost had = texts(self.rdns_pending@);
        if self.wants(packet.src_ip.as_str()) {
            self.rdns_pending.push(packet.src_ip.clone());
            proof {
                assert(texts(self.rdns_pending@) =~= had.push(packet.src_ip@));
                assert forall|i: int, j: int|
                    0 <= i < had.push(packet.src_ip@).len() && 0 <= j < had.push(
                        packet.src_ip@,
                    ).len() && i != j implies had.push(packet.src_ip@)[i] != had.push(
                    packet.src_ip@,
                )[j] by {
                    if i == had.len() {
                        assert(had[j] != packet.src_ip@);
                    } else if j == had.len() {
                        assert(had[i] != packet.src_ip@);
                    }
                }
            }
        }
        self.flows.note(packet, now, true);
        self.last_flow_at = now_secs;
    }

    fn wants(&self, ip: &str) -> (r: bool)
        ensures
            r == wants_name(self.rdns_cache@, texts(self.rdns_pending@), ip@),
    {
        if is_private_or_loopback(ip) {
            return false;
        }
        let mut i: usize = 0;
        while i < self.rdns_cache.len()
            invariant
                i <= self.rdns_cache@.len(),
                forall|j: int| 0 <= j < i ==> (#[trigger] self.rdns_cache@[j]).ip@ != ip@,
            decreases self.rdns_cache@.len() - i,
        {
            if same(self.rdns_cache[i].ip.as_str(), ip) {
                return false;
            }
            i += 1;
        }
        let ghost t = texts(self.rdns_pending@);
        let mut k: usize = 0;
        while k < self.rdns_pending.len()
            invariant
                k <= self.rdns_pending@.len(),
                t == texts(self.rdns_pending@),
                forall|j: int| 0 <= j < k ==> #[trigger] t[j] != ip@,
            decreases self.rdns_pending@.len() - k,
        {
            assert(t[k as int] == self.rdns_pending@[k as int]@);
            if same(self.rdns_pending[k].as_str(), ip) {
                return false;
            }
            k += 1;
        }
        true
    }

    /// A process has begun to capture packets.
    pub fn capture_began(&mut self, pid: u32, now: u64)
        ensures
            *final(self) == (DashboardState {
                monitor_pid: Some(pid),
                monitor_started_at: Some(now),
                ..*old(self)
            }),
    {
        self.monitor_pid = Some(pid);
        self.monitor_started_at = Some(now);
    }

    /// The process has ended.
    pub fn capture_ended(&mut self)
        ensures
            *final(self) == (DashboardState { monitor_pid: None, ..*old(self) }),
    {
        self.monitor_pid = None;
    }

    /// Whether the streams to the switcher can be seen from here.
    pub fn compute_lan_visibility(&self, now: u64) -> (r: LanVisibility)
        ensures
            r == visibility(self.monitor_started_at, self.config@.atem.ip, self.flows.flows@, now),
    {
        let started_at: u64 = match self.monitor_started_at {
            Some(t) => t,
            None => return LanVisibility::Unknown,
        };
        let ip: String = trim(self.config.atem.ip.as_str());
        if ip.as_str().is_empty() {
            return LanVisibility::Unknown;
        }
        let mut i: usize = 0;
        while i < self.flows.flows.len()
            invariant
                i <= self.flows.flows@.len(),
                self.monitor_started_at == Some(started_at),
                ip@ == trimmed(self.config@.atem.ip),
                ip@.len() > 0,
                forall|j: int|
                    0 <= j < i ==> (#[trigger] self.flows.flows@[j]).key@.src_ip != ip@
                        && self.flows.flows@[j].key@.dst_ip != ip@,
            decreases self.flows.flows@.len() - i,
        {
            if same(self.flows.flows[i].key.src_ip.as_str(), ip.as_str()) || same(
                self.flows.flows[i].key.dst_ip.as_str(),
                ip.as_str(),
            ) {
                return LanVisibility::SeesPeers;
            }
            i += 1;
        }
        if now < started_at || now - started_at < LAN_VISIBILITY_WINDOW_SECS {
            return LanVisibility::Unknown;
        }
        LanVisibility::PossiblyBlind { since: started_at + LAN_VISIBILITY_WINDOW_SECS }
    }
}

fn copy_ports(v: &Vec<u16>) -> (r: Vec<u16>)
    ensures
        r@ == v@,
{
    let mut out: Vec<u16> = Vec::new();
    let mut i: usize = 0;
    while i < v.len()
        invariant
            i <= v@.len(),
            out@ == v@.take(i as int),
        decreases v@.len() - i,
    {
        out.push(v[i]);
        i += 1;
        assert(v@.take(i as int) =~= v@.take(i - 1).push(v@[i - 1]));
    }
    assert(v@.take(i as int) =~= v@);
    out
}

// ---------------------------------------------------------------------------
// What is tried
// ---------------------------------------------------------------------------

/// A try that is due.
#[derive(Debug)]
pub struct ProbeTarget {
    pub url: String,
    pub key: String,
}

/// The tries that are due, and the pause after them in seconds.
#[derive(Debug)]
pub struct ProbeRound {
    pub targets: Vec<ProbeTarget>,
    pub pause_secs: u64,
}

/// The URL and the key of each try.
pub open spec fn target_pairs(v: Seq<ProbeTarget>) -> Seq<(Seq<char>, Seq<char>)> {
    Seq::new(v.len(), |i: int| (v[i].url@, v[i].key@))
}

/// A try with each key, where the URL can hold one.
pub open spec fn keyed_targets(url: Seq<char>, keys: Seq<Seq<char>>) -> Seq<
    (Seq<char>, Seq<char>),
> {
    if begins(up_to(url, '?'), "srt://"@) {
        Seq::new(keys.len(), |i: int| (probe_url(url, keys[i]), keys[i]))
    } else {
        Seq::empty()
    }
}

/// The destination is tried: the user has asked for it and said where it is.
pub open spec fn is_tried(m: ConfigModel) -> bool {
    m.mode == DiagMode::Standby && m.url.len() > 0
}

/// The tries that are due.
pub open spec fn due_targets(m: ConfigModel) -> Seq<(Seq<char>, Seq<char>)> {
    if !is_tried(m) {
        Seq::empty()
    } else if m.keys.len() == 0 {
        seq![(m.url, Seq::<char>::empty())]
    } else {
        keyed_targets(m.url, m.keys)
    }
}

/// While the destination is only watched, nothing is sent to it.
pub proof fn watching_sends_nothing(m: ConfigModel)
    requires
        m.mode == DiagMode::Live,
    ensures
        due_targets(m).len() == 0,
{
}

impl ConfigSnapshot {
    /// The tries that are due.
    pub fn due_probes(&self) -> (r: ProbeRound)
        ensures
            target_pairs(r.targets@) == due_targets(self@),
            r.pause_secs == (if !is_tried(self@) {
                2
            } else if self.interval_secs == 0 {
                1
            } else {
                self.interval_secs as int
            }),
    {
        let mut targets: Vec<ProbeTarget> = Vec::new();
        assert(target_pairs(targets@) =~= Seq::<(Seq<char>, Seq<char>)>::empty());
        if self.mode != DiagMode::Standby || self.url.as_str().is_empty() {
            return ProbeRound { targets, pause_secs: 2 };
        }
        let pause_secs: u64 = if self.interval_secs == 0 {
            1
        } else {
            self.interval_secs
        };
        if self.keys.len() == 0 {
            targets.push(ProbeTarget { url: self.url.clone(), key: String::new() });
            assert(target_pairs(targets@) =~= seq![(self.url@, Seq::<char>::empty())]);
            return ProbeRound { targets, pause_secs };
        }
        let mut i: usize = 0;
        let ghost url = self.url@;
        let ghost keys = texts(self.keys@);
        while i < self.keys.len()
            invariant
                i <= self.keys@.len(),
                url == self.url@,
                keys == texts(self.keys@),
                target_pairs(targets@) == keyed_targets(url, keys.take(i as int)),
            decreases self.keys@.len() - i,
        {
            let ghost had = targets@;
            if let Ok(built) = build_bmd_srt_url(self.url.as_str(), self.keys[i].as_str()) {
                targets.push(ProbeTarget { url: built, key: self.keys[i].clone() });
                assert(keys[i as int] == self.keys@[i as int]@);
                assert(target_pairs(targets@) =~= target_pairs(had).push(
                    (probe_url(url, keys[i as int]), keys[i as int]),
                ));
            }
            assert(target_pairs(targets@) =~= keyed_targets(url, keys.take(i + 1)));
            i += 1;
        }
        assert(keys.take(i as int) =~= keys);
        ProbeRound { targets, pause_secs }
    }
}

// ---------------------------------------------------------------------------
// What is shown
// ---------------------------------------------------------------------------

/// The tries with a key, as they are shown.
#[derive(Debug)]
pub struct KeySnapshot {
    pub key: String,
    pub stats: Stats,
    pub average_ms: u64,
    pub last_outcome: Option<String>,
}

/// The outcome of the last try with a key.
pub open spec fn last_outcome(v: Seq<ProbeModel>, key: Seq<char>) -> Option<Seq<char>>
    decreases v.len(),
{
    if v.len() == 0 {
        None
    } else if v.last().key == key {
        Some(v.last().outcome)
    } else {
        last_outcome(v.drop_last(), key)
    }
}

/// The mean time that a try took.
pub open spec fn mean_ms(s: Stats) -> u64 {
    if s.total_probes == 0 {
        0
    } else {
        s.latency_sum_ms / s.total_probes
    }
}

/// A flow, as it is shown. Times are in nanoseconds.
#[derive(Debug)]
pub struct FlowSnapshot {
    pub src_ip: String,
    pub src_port: u16,
    pub dst_ip: String,
    pub dst_port: u16,
    pub is_udp: bool,
    pub protocol: String,
    pub total_bytes: u64,
    pub total_packets: u64,
    pub control_packets: u64,
    pub recent_bytes: u64,
    pub idle: u64,
    pub duration: u64,
    pub bitrate_samples: Vec<u64>,
    pub last_srt_rtt_ms: Option<u64>,
    pub last_srt_rttvar_ms: Option<u64>,
    pub last_srt_bw_kbps: Option<u32>,
    pub last_srt_rate_kbps: Option<u32>,
    pub last_srt_buf_pkts: Option<u32>,
    pub last_srt_ack_idle: Option<u64>,
    pub health: String,
    pub stream_key: Option<String>,
}

/// What a `FlowSnapshot` holds.
pub struct FlowSnapshotModel {
    pub key: FlowKeyModel,
    pub total_bytes: u64,
    pub total_packets: u64,
    pub control_packets: u64,
    pub recent_bytes: u64,
    pub idle: u64,
    pub duration: u64,
    pub bitrate_samples: Seq<u64>,
    pub last_srt_rtt_ms: Option<u64>,
    pub last_srt_rttvar_ms: Option<u64>,
    pub last_srt_bw_kbps: Option<u32>,
    pub last_srt_rate_kbps: Option<u32>,
    pub last_srt_buf_pkts: Option<u32>,
    pub last_srt_ack_idle: Option<u64>,
    pub health: Seq<char>,
    pub stream_key: Option<Seq<char>>,
}

impl View for FlowSnapshot {
    type V = FlowSnapshotModel;

    open spec fn view(&self) -> FlowSnapshotModel {
        FlowSnapshotModel {
            key: FlowKeyModel {
                src_ip: self.src_ip@,
                src_port: self.src_port,
                dst_ip: self.dst_ip@,
                dst_port: self.dst_port,
                is_udp: self.is_udp,
                protocol: self.protocol@,
            },
            total_bytes: self.total_bytes,
            total_packets: self.total_packets,
            control_packets: self.control_packets,
            recent_bytes: self.recent_bytes,
            idle: self.idle,
            duration: self.duration,
            bitrate_samples: self.bitrate_samples@,
            last_srt_rtt_ms: self.last_srt_rtt_ms,
            last_srt_rttvar_ms: self.last_srt_rttvar_ms,
            last_srt_bw_kbps: self.last_srt_bw_kbps,
            last_srt_rate_kbps: self.last_srt_rate_kbps,
            last_srt_buf_pkts: self.last_srt_buf_pkts,
            last_srt_ack_idle: self.last_srt_ack_idle,
            health: self.health@,
            stream_key: opt_text(self.stream_key),
        }
    }
}

/// The time since a moment; zero if there is none.
pub open spec fn time_since(at: Option<u64>, now: u64) -> u64 {
    match at {
        Some(t) => since(now, t) as u64,
        None => 0,
    }
}

/// How a flow is doing.
pub open spec fn health_of(m: FlowModel, idle: u64) -> Seq<char> {
    if m.window_bytes > 0 {
        "streaming"@
    } else if idle > IDLE_NANOS {
        "idle"@
    } else if m.total_packets - m.control_packets < 10 && m.control_packets > 0 {
        "handshake"@
    } else if m.total_packets > 0 {
        "stalling"@
    } else {
        "unknown"@
    }
}

/// Packets a second in kilobits a second, at 1316 bytes a packet. A number that is too
/// large starts again from zero.
pub open spec fn kbps_of(pkts: u32) -> int {
    pkts * 10528 / 1000 % 0x1_0000_0000
}

/// A number of packets in kilobits.
pub open spec fn some_kbps(pkts: Option<u32>) -> Option<u32> {
    match pkts {
        Some(p) => Some(kbps_of(p) as u32),
        None => None,
    }
}

/// Microseconds in milliseconds.
pub open spec fn some_ms(us: Option<u32>) -> Option<u64> {
    match us {
        Some(u) => Some((u / 1000) as u64),
        None => None,
    }
}

/// A flow, as it is shown.
pub open spec fn flow_snapshot(f: Flow, now: u64) -> FlowSnapshotModel {
    let m = f.stats@;
    let idle = time_since(m.last_seen, now);
    FlowSnapshotModel {
        key: f.key@,
        total_bytes: m.total_bytes,
        total_packets: m.total_packets,
        control_packets: m.control_packets,
        recent_bytes: m.window_bytes,
        idle,
        duration: time_since(m.first_seen, now),
        bitrate_samples: m.bitrate_samples,
        last_srt_rtt_ms: match m.last_srt_ack {
            Some(a) => some_ms(a.rtt_us),
            None => None,
        },
        last_srt_rttvar_ms: match m.last_srt_ack {
            Some(a) => some_ms(a.rttvar_us),
            None => None,
        },
        last_srt_bw_kbps: match m.last_srt_ack {
            Some(a) => some_kbps(a.bw_pkts_s),
            None => None,
        },
        last_srt_rate_kbps: match m.last_srt_ack {
            Some(a) => some_kbps(a.rate_pkts_s),
            None => None,
        },
        last_srt_buf_pkts: match m.last_srt_ack {
            Some(a) => a.buf_avail_pkts,
            None => None,
        },
        last_srt_ack_idle: match m.last_srt_ack_at {
            Some(t) => Some(since(now, t) as u64),
            None => None,
        },
        health: health_of(m, idle),
        stream_key: opt_text(f.stream_key),
    }
}

fn time_passed(at: Option<u64>, now: u64) -> (r: u64)
    ensures
        r == time_since(at, now),
{
    match at {
        Some(t) => if now >= t {
            now - t
        } else {
            0
        },
        None => 0,
    }
}

fn to_kbps(pkts: Option<u32>) -> (r: Option<u32>)
    ensures
        r == some_kbps(pkts),
{
    match pkts {
        Some(p) => {
            let q: u64 = p as u64 * 10528 / 1000;
            assert(q as u32 == q % 0x1_0000_0000) by (bit_vector);
            Some(q as u32)
        },
        None => None,
    }
}

fn to_ms(us: Option<u32>) -> (r: Option<u64>)
    ensures
        r == some_ms(us),
{
    match us {
        Some(u) => Some((u / 1000) as u64),
        None => None,
    }
}

fn show_flow(f: &Flow, now: u64) -> (r: FlowSnapshot)
    ensures
        r@ == flow_snapshot(*f, now),
{
    let idle: u64 = time_passed(f.stats.last_seen, now);
    let few: bool = f.stats.total_packets < f.stats.control_packets || f.stats.total_packets
        - f.stats.control_packets < 10;
    let health: &str = if f.stats.window_bytes > 0 {
        "streaming"
    } else if idle > IDLE_NANOS {
        "idle"
    } else if few && f.stats.control_packets > 0 {
        "handshake"
    } else if f.stats.total_packets > 0 {
        "stalling"
    } else {
        "unknown"
    };
    let mut bitrate_samples: Vec<u64> = Vec::new();
    let mut i: usize = 0;
    while i < f.stats.bitrate_samples.len()
        invariant
            i <= f.stats.bitrate_samples@.len(),
            bitrate_samples@ == f.stats.bitrate_samples@.take(i as int),
        decreases f.stats.bitrate_samples@.len() - i,
    {
        bitrate_samples.push(f.stats.bitrate_samples[i]);
        i += 1;
        assert(f.stats.bitrate_samples@.take(i as int) =~= f.stats.bitrate_samples@.take(
            i - 1,
        ).push(f.stats.bitrate_samples@[i - 1]));
    }
    assert(f.stats.bitrate_samples@.take(i as int) =~= f.stats.bitrate_samples@);
    let mut rtt: Option<u64> = None;
    let mut rttvar: Option<u64> = None;
    let mut bw: Option<u32> = None;
    let mut rate: Option<u32> = None;
    let mut room: Option<u32> = None;
    if let Some(a) = f.stats.last_srt_ack {
        rtt = to_ms(a.rtt_us);
        rttvar = to_ms(a.rttvar_us);
        bw = to_kbps(a.bw_pkts_s);
        rate = to_kbps(a.rate_pkts_s);
        room = a.buf_avail_pkts;
    }
    let ack_idle: Option<u64> = match f.stats.last_srt_ack_at {
        Some(t) => Some(time_passed(Some(t), now)),
        None => None,
    };
    let stream_key: Option<String> = match &f.stream_key {
        Some(k) => Some(k.clone()),
        None => None,
    };
    FlowSnapshot {
        src_ip: f.key.src_ip.clone(),
        src_port: f.key.src_port,
        dst_ip: f.key.dst_ip.clone(),
        dst_port: f.key.dst_port,
        is_udp: f.key.is_udp,
        protocol: f.key.protocol.clone(),
        total_bytes: f.stats.total_bytes,
        total_packets: f.stats.total_packets,
        control_packets: f.stats.control_packets,
        recent_bytes: f.stats.window_bytes,
        idle,
        duration: time_passed(f.stats.first_seen, now),
        bitrate_samples,
        last_srt_rtt_ms: rtt,
        last_srt_rttvar_ms: rttvar,
        last_srt_bw_kbps: bw,
        last_srt_rate_kbps: rate,
        last_srt_buf_pkts: room,
        last_srt_ack_idle: ack_idle,
        health: health.to_owned(),
        stream_key,
    }
}

impl DashboardState {
    /// The flows of the last minute, the busiest first.
    pub fn flow_snapshots(&self, now: u64) -> (r: Vec<FlowSnapshot>)
        ensures
            r@.len() == busiest_places(self.flows.flows@, now, FLOW_LIMIT).len(),
            forall|i: int|
                0 <= i < r@.len() ==> (#[trigger] r@[i])@ == flow_snapshot(
                    self.flows.flows@[busiest_places(self.flows.flows@, now, FLOW_LIMIT)[i]],
                    now,
                ),
    {
        let order: Vec<usize> = self.flows.busiest(now, FLOW_LIMIT);
        let mut out: Vec<FlowSnapshot> = Vec::new();
        let mut k: usize = 0;
        while k < order.len()
            invariant
                k <= order@.len(),
                out@.len() == k,
                places(order@) == busiest_places(self.flows.flows@, now, FLOW_LIMIT),
                forall|i: int|
                    0 <= i < order@.len() ==> (#[trigger] order@[i]) < self.flows.flows@.len(),
                forall|i: int|
                    0 <= i < k ==> (#[trigger] out@[i])@ == flow_snapshot(
                        self.flows.flows@[busiest_places(self.flows.flows@, now, FLOW_LIMIT)[i]],
                        now,
                    ),
            decreases order@.len() - k,
        {
            assert(places(order@)[k as int] == order@[k as int]);
            out.push(show_flow(&self.flows.flows[order[k]], now));
            k += 1;
        }
        out
    }

    fn find_outcome(&self, key: &str) -> (r: Option<String>)
        ensures
            opt_text(r) == last_outcome(probe_models(self.probes@), key@),
    {
        let ghost all = probe_models(self.probes@);
        let mut i: usize = self.probes.len();
        assert(all.take(i as int) =~= all);
        while i > 0
            invariant
                i <= self.probes@.len(),
                all == probe_models(self.probes@),
                last_outcome(all, key@) == last_outcome(all.take(i as int), key@),
            decreases i,
        {
            assert(all.take(i as int).last() == self.probes@[i - 1]@);
            assert(all.take(i as int).drop_last() =~= all.take(i - 1));
            if same(self.probes[i - 1].key.as_str(), key) {
                return Some(self.probes[i - 1].outcome.clone());
            }
            i -= 1;
        }
        None
    }

    /// The tries with each key.
    pub fn key_snapshots(&self) -> (r: Vec<KeySnapshot>)
        ensures
            r@.len() == self.per_key.tracks@.len(),
            forall|i: int|
                0 <= i < r@.len() ==> {
                    let t = self.per_key.tracks@[i];
                    &&& (#[trigger] r@[i]).key@ == t.key@
                    &&& r@[i].stats == t.stats
                    &&& r@[i].average_ms == mean_ms(t.stats)
                    &&& opt_text(r@[i].last_outcome) == last_outcome(
                        probe_models(self.probes@),
                        t.key@,
                    )
                },
    {
        let mut out: Vec<KeySnapshot> = Vec::new();
        let mut i: usize = 0;
        while i < self.per_key.tracks.len()
            invariant
                i <= self.per_key.tracks@.len(),
                out@.len() == i,
                forall|j: int|
                    0 <= j < i ==> {
                        let t = self.per_key.tracks@[j];
                        &&& (#[trigger] out@[j]).key@ == t.key@
                        &&& out@[j].stats == t.stats
                        &&& out@[j].average_ms == mean_ms(t.stats)
                        &&& opt_text(out@[j].last_outcome) == last_outcome(
                            probe_models(self.probes@),
                            t.key@,
                        )
                    },
            decreases self.per_key.tracks@.len() - i,
        {
            let t: &KeyTrack = &self.per_key.tracks[i];
            let average_ms: u64 = if t.stats.total_probes == 0 {
                0
            } else {
                t.stats.latency_sum_ms / t.stats.total_probes
            };
            out.push(
                KeySnapshot {
                    key: t.key.clone(),
                    stats: t.stats,
                    average_ms,
                    last_outcome: self.find_outcome(t.key.as_str()),
                },
            );
            i += 1;
        }
        out
    }
}

/// After a try with a key, its outcome is shown for that key, and the outcomes for the
/// others stay.
pub proof fn the_last_try_is_shown(v: Seq<ProbeModel>, p: ProbeModel, key: Seq<char>)
    ensures
        last_outcome(v.push(p), p.key) == Some(p.outcome),
        key != p.key ==> last_outcome(v.push(p), key) == last_outcome(v, key),
{
    assert(v.push(p).drop_last() =~= v);
}

// ---------------------------------------------------------------------------
// The web server
// ---------------------------------------------------------------------------

/// A character within a JSON text.
pub open spec fn json_char(c: char) -> Seq<char> {
    if c == '"' {
        seq!['\\', '"']
    } else if c == '\\' {
        seq!['\\', '\\']
    } else if c == '\n' {
        seq!['\\', 'n']
    } else if c == '\r' {
        seq!['\\', 'r']
    } else if c == '\t' {
        seq!['\\', 't']
    } else if 0 <= c as int <= 0x1f {
        seq!['\\', 'u', '0', '0', lower_hex(c as int / 16), lower_hex(c as int % 16)]
    } else {
        seq![c]
    }
}

/// The characters of a text within a JSON text.
pub open spec fn json_chars(s: Seq<char>) -> Seq<char>
    decreases s.len(),
{
    if s.len() == 0 {
        Seq::empty()
    } else {
        json_chars(s.drop_last()) + json_char(s.last())
    }
}

/// A text as JSON.
pub open spec fn json_text(s: Seq<char>) -> Seq<char> {
    seq!['"'] + json_chars(s) + seq!['"']
}

/// A text as JSON.
pub fn json_escape(s: &str) -> (r: String)
    ensures
        r@ == json_text(s@),
{
    let v: Vec<char> = to_chars(s);
    let mut out: String = String::new();
    out.push('"');
    assert(out@ =~= seq!['"'] + json_chars(v@.take(0)));
    let mut i: usize = 0;
    while i < v.len()
        invariant
            i <= v@.len(),
            out@ == seq!['"'] + json_chars(v@.take(i as int)),
        decreases v@.len() - i,
    {
        let c: char = v[i];
        let ghost had = out@;
        assert(v@.take(i + 1).drop_last() =~= v@.take(i as int));
        if c == '"' {
            out.push('\\');
            out.push('"');
        } else if c == '\\' {
            out.push('\\');
            out.push('\\');
        } else if c == '\n' {
            out.push('\\');
            out.push('n');
        } else if c == '\r' {
            out.push('\\');
            out.push('r');
        } else if c == '\t' {
            out.push('\\');
            out.push('t');
        } else if '\u{0}' <= c && c <= '\u{1f}' {
            let n: u8 = c as u8;
            out.push('\\');
            out.push('u');
            out.push('0');
            out.push('0');
            out.push(lower_hex_char(n / 16));
            out.push(lower_hex_char(n % 16));
        } else {
            out.push(c);
        }
        assert(out@ =~= had + json_char(c));
        assert(out@ =~= seq!['"'] + json_chars(v@.take(i + 1)));
        i += 1;
    }
    assert(v@.take(i as int) =~= v@);
    out.push('"');
    assert(out@ =~= json_text(s@));
    out
}

/// The first character of what stands within a JSON text, and how much it takes;
/// `None` if nothing can be read.
pub open spec fn json_next(t: Seq<char>) -> Option<(char, int)> {
    if t.len() == 0 || t[0] == '"' || 0 <= t[0] as int <= 0x1f {
        None
    } else if t[0] != '\\' {
        Some((t[0], 1))
    } else if t.len() < 2 {
        None
    } else if t[1] == '"' || t[1] == '\\' {
        Some((t[1], 2))
    } else if t[1] == 'n' {
        Some(('\n', 2))
    } else if t[1] == 'r' {
        Some(('\r', 2))
    } else if t[1] == 't' {
        Some(('\t', 2))
    } else if t[1] == 'u' && t.len() >= 6 && t[2] == '0' && t[3] == '0' {
        match (hex_value(t[4] as int), hex_value(t[5] as int)) {
            (Some(a), Some(b)) => Some(((a * 16 + b) as char, 6)),
            _ => None,
        }
    } else {
        None
    }
}

/// What is read from what stands within a JSON text.
pub open spec fn json_read(t: Seq<char>) -> Option<Seq<char>>
    decreases t.len(),
{
    if t.len() == 0 {
        Some(Seq::empty())
    } else {
        match json_next(t) {
            Some(p) => match json_read(t.skip(p.1)) {
                Some(rest) => Some(seq![p.0] + rest),
                None => None,
            },
            None => None,
        }
    }
}

proof fn json_chars_front(c: char, s: Seq<char>)
    ensures
        json_chars(seq![c] + s) == json_char(c) + json_chars(s),
    decreases s.len(),
{
    let t = seq![c] + s;
    if s.len() == 0 {
        assert(t.drop_last() =~= s);
        assert(t.last() == c);
        assert(json_chars(t) =~= json_char(c) + json_chars(s));
    } else {
        json_chars_front(c, s.drop_last());
        assert(t.drop_last() =~= seq![c] + s.drop_last());
        assert(t.last() == s.last());
        assert(json_chars(t) =~= json_char(c) + json_chars(s));
    }
}

proof fn json_next_reads(c: char, rest: Seq<char>)
    ensures
        json_next(json_char(c) + rest) == Some((c, json_char(c).len() as int)),
{
    let e = json_char(c);
    let t = e + rest;
    if c != '"' && c != '\\' && c != '\n' && c != '\r' && c != '\t' && 0 <= c as int <= 0x1f {
        let a = c as int / 16;
        let b = c as int % 16;
        assert(t[0] == '\\' && t[1] == 'u' && t[2] == '0' && t[3] == '0');
        assert(t[4] == lower_hex(a) && t[5] == lower_hex(b));
        assert(hex_value(lower_hex(a) as int) == Some(a));
        assert(hex_value(lower_hex(b) as int) == Some(b));
    } else {
        assert(t[0] == e[0]);
        if e.len() == 2 {
            assert(t[1] == e[1]);
        }
    }
}

/// What is written as JSON is what is read from it: no quotation mark within a text
/// ends it early.
pub proof fn json_reads_back(s: Seq<char>)
    ensures
        json_read(json_chars(s)) == Some(s),
    decreases s.len(),
{
    if s.len() > 0 {
        let c = s[0];
        let rest = s.skip(1);
        assert(s =~= seq![c] + rest);
        json_chars_front(c, rest);
        json_next_reads(c, json_chars(rest));
        let t = json_chars(s);
        assert(t.skip(json_char(c).len() as int) =~= json_chars(rest));
        json_reads_back(rest);
    }
}

/// What is asked of the web server.
#[derive(Clone, Copy, Debug, PartialEq, Eq, Structural)]
pub enum Route {
    Page,
    State,
    Config,
    NotFound,
}

/// What is asked with a path.
pub open spec fn routed(is_post: bool, path: Seq<char>) -> Route {
    if !is_post && (path == "/"@ || path == "/index.html"@) {
        Route::Page
    } else if !is_post && path == "/api/state"@ {
        Route::State
    } else if is_post && path == "/api/config"@ {
        Route::Config
    } else {
        Route::NotFound
    }
}

/// What is asked with a path.
pub fn route(is_post: bool, path: &str) -> (r: Route)
    ensures
        r == routed(is_post, path@),
{
    if !is_post && (same(path, "/") || same(path, "/index.html")) {
        Route::Page
    } else if !is_post && same(path, "/api/state") {
        Route::State
    } else if is_post && same(path, "/api/config") {
        Route::Config
    } else {
        Route::NotFound
    }
}

/// What is answered to a change of the configuration, and with which status.
pub fn config_answer(refused: Option<&str>) -> (r: (u16, String))
    ensures
        refused is None ==> r.0 == 200 && r.1@ == "{\"ok\":true}"@,
        refused matches Some(e) ==> r.0 == 400 && r.1@ == "{\"error\":"@ + json_text(e@) + "}"@,
{
    match refused {
        None => (200, "{\"ok\":true}".to_owned()),
        Some(e) => {
            let t: String = json_escape(e);
            (400, cat3("{\"error\":", t.as_str(), "}"))
        },
    }
}

/// How long to wait in milliseconds before packets are captured again. What ended
/// within two seconds is not tried again at once.
pub fn recapture_pause_ms(ran_nanos: u64) -> (r: u64)
    ensures
        r == (if ran_nanos < 2_000_000_000 {
            5000
        } else {
            300int
        }),
{
    if ran_nanos < 2_000_000_000 {
        5000
    } else {
        300
    }
}

} // verus!
