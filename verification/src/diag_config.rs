//! What the dashboard of the network diagnostic is set to, and how it is changed.
use vstd::prelude::*;
use vstd::string::*;

use crate::addresses::{normal_mac, normalize_mac};
use crate::diag_cli::{
    is_stream_url, stream_url, DEFAULT_ATEM_IP, DEFAULT_ATEM_MAC, DEFAULT_ATEM_PORT,
};
use crate::json::{
    find_member, json_models, member, member_number, member_text, number_of_member,
    text_of_member, JsonNode, JsonNodeModel,
};
use crate::number::{ascii_lower, to_ascii_lower};
use crate::scan::{trim, trimmed};
use crate::text::{between_quotes, cat3, opt_text, same, show_quoted, texts};

verus! {

// ---------------------------------------------------------------------------
// The mode and the target
// ---------------------------------------------------------------------------

/// Whether the destination is tried.
#[derive(Clone, Copy, Debug, PartialEq, Eq, Structural)]
pub enum DiagMode {
    /// It is only watched: a try could take the place of a stream.
    Live,
    /// It is tried.
    Standby,
}

impl Default for DiagMode {
    /// The destination is only watched.
    fn default() -> (r: Self)
        ensures
            r == DiagMode::Live,
    {
        DiagMode::Live
    }
}

/// The mode with a name, in whichever case.
pub open spec fn mode_named(s: Seq<char>) -> Option<DiagMode> {
    if ascii_lower(s) == "live"@ {
        Some(DiagMode::Live)
    } else if ascii_lower(s) == "standby"@ {
        Some(DiagMode::Standby)
    } else {
        None
    }
}

impl DiagMode {
    /// The mode with a name.
    pub fn from_str(s: &str) -> (r: Option<DiagMode>)
        ensures
            r == mode_named(s@),
    {
        let l: String = to_ascii_lower(s);
        if same(l.as_str(), "live") {
            Some(DiagMode::Live)
        } else if same(l.as_str(), "standby") {
            Some(DiagMode::Standby)
        } else {
            None
        }
    }
}

/// The switcher whose streams are watched.
#[derive(Debug)]
pub struct AtemTarget {
    pub ip: String,
    pub mac: Option<String>,
    pub port: u16,
}

/// What an `AtemTarget` holds.
pub struct TargetModel {
    pub ip: Seq<char>,
    pub mac: Option<Seq<char>>,
    pub port: u16,
}

impl View for AtemTarget {
    type V = TargetModel;

    open spec fn view(&self) -> TargetModel {
        TargetModel { ip: self.ip@, mac: opt_text(self.mac), port: self.port }
    }
}

impl Default for AtemTarget {
    /// The usual switcher.
    fn default() -> (r: Self)
        ensures
            r@ == (TargetModel {
                ip: DEFAULT_ATEM_IP@,
                mac: Some(DEFAULT_ATEM_MAC@),
                port: DEFAULT_ATEM_PORT,
            }),
    {
        AtemTarget {
            ip: DEFAULT_ATEM_IP.to_owned(),
            mac: Some(DEFAULT_ATEM_MAC.to_owned()),
            port: DEFAULT_ATEM_PORT,
        }
    }
}

// ---------------------------------------------------------------------------
// Labels
// ---------------------------------------------------------------------------

/// The name that the user has given to a sender.
#[derive(Debug)]
pub struct SourceLabel {
    pub ip: String,
    pub label: String,
}

/// The name of each sender. Where there are several, the last counts.
pub open spec fn labels_of(v: Seq<SourceLabel>) -> Map<Seq<char>, Seq<char>>
    decreases v.len(),
{
    if v.len() == 0 {
        Map::empty()
    } else {
        labels_of(v.drop_last()).insert(v.last().ip@, v.last().label@)
    }
}

/// The names after one has been given; an empty one is taken away.
pub open spec fn relabelled(m: Map<Seq<char>, Seq<char>>, ip: Seq<char>, label: Seq<char>) -> Map<
    Seq<char>,
    Seq<char>,
> {
    if label.len() == 0 {
        m.remove(ip)
    } else {
        m.insert(ip, label)
    }
}

fn copy_labels(v: &Vec<SourceLabel>) -> (r: Vec<SourceLabel>)
    ensures
        labels_of(r@) == labels_of(v@),
{
    let mut out: Vec<SourceLabel> = Vec::new();
    let mut i: usize = 0;
    assert(out@ =~= v@.take(0));
    while i < v.len()
        invariant
            i <= v@.len(),
            labels_of(out@) == labels_of(v@.take(i as int)),
        decreases v@.len() - i,
    {
        let ghost had = out@;
        out.push(SourceLabel { ip: v[i].ip.clone(), label: v[i].label.clone() });
        assert(out@.drop_last() =~= had);
        assert(v@.take(i + 1).drop_last() =~= v@.take(i as int));
        i += 1;
    }
    assert(v@.take(i as int) =~= v@);
    out
}

fn set_label(v: &Vec<SourceLabel>, ip: &str, label: &str) -> (r: Vec<SourceLabel>)
    ensures
        labels_of(r@) == relabelled(labels_of(v@), ip@, label@),
{
    let mut out: Vec<SourceLabel> = Vec::new();
    let mut i: usize = 0;
    assert(out@ =~= v@.take(0));
    assert(labels_of(out@) =~= labels_of(v@.take(0)).remove(ip@));
    while i < v.len()
        invariant
            i <= v@.len(),
            labels_of(out@) == labels_of(v@.take(i as int)).remove(ip@),
        decreases v@.len() - i,
    {
        assert(v@.take(i + 1).drop_last() =~= v@.take(i as int));
        if !same(v[i].ip.as_str(), ip) {
            let ghost had = out@;
            out.push(SourceLabel { ip: v[i].ip.clone(), label: v[i].label.clone() });
            assert(out@.drop_last() =~= had);
        }
        assert(labels_of(out@) =~= labels_of(v@.take(i + 1)).remove(ip@));
        i += 1;
    }
    assert(v@.take(i as int) =~= v@);
    if !label.is_empty() {
        let ghost had = out@;
        out.push(SourceLabel { ip: ip.to_owned(), label: label.to_owned() });
        assert(out@.drop_last() =~= had);
        assert(labels_of(out@) =~= labels_of(v@).insert(ip@, label@));
    }
    out
}

// ---------------------------------------------------------------------------
// The configuration
// ---------------------------------------------------------------------------

/// What the dashboard is set to.
#[derive(Debug)]
pub struct ConfigSnapshot {
    /// The destination that is tried.
    pub url: String,
    /// The keys with which it is tried; without any if there are none.
    pub keys: Vec<String>,
    pub interval_secs: u64,
    pub monitor_iface: Option<String>,
    pub monitor_ports: Vec<u16>,
    pub mode: DiagMode,
    pub atem: AtemTarget,
    /// Where the gateway is.
    pub unifi_host: String,
    /// Whether there are credentials for it.
    pub unifi_configured: bool,
    pub source_labels: Vec<SourceLabel>,
}

/// What a `ConfigSnapshot` holds.
pub struct ConfigModel {
    pub url: Seq<char>,
    pub keys: Seq<Seq<char>>,
    pub interval_secs: u64,
    pub monitor_iface: Option<Seq<char>>,
    pub monitor_ports: Seq<u16>,
    pub mode: DiagMode,
    pub atem: TargetModel,
    pub unifi_host: Seq<char>,
    pub unifi_configured: bool,
    pub source_labels: Map<Seq<char>, Seq<char>>,
}

impl View for ConfigSnapshot {
    type V = ConfigModel;

    open spec fn view(&self) -> ConfigModel {
        ConfigModel {
            url: self.url@,
            keys: texts(self.keys@),
            interval_secs: self.interval_secs,
            monitor_iface: opt_text(self.monitor_iface),
            monitor_ports: self.monitor_ports@,
            mode: self.mode,
            atem: self.atem@,
            unifi_host: self.unifi_host@,
            unifi_configured: self.unifi_configured,
            source_labels: labels_of(self.source_labels@),
        }
    }
}

/// A new switcher, as the user wrote it.
#[derive(Debug)]
pub struct AtemUpdate {
    pub ip: Option<String>,
    pub mac: Option<String>,
    pub port: Option<u64>,
}

/// A new name of a sender, as the user wrote it.
#[derive(Debug)]
pub struct LabelUpdate {
    pub ip: Option<String>,
    pub label: Option<String>,
}

/// What the user wants to change, as they wrote it. `None` changes nothing.
#[derive(Debug)]
pub struct ConfigUpdate {
    pub url: Option<String>,
    pub keys: Option<Vec<String>>,
    pub interval_secs: Option<u64>,
    pub mode: Option<String>,
    pub atem: Option<AtemUpdate>,
    pub unifi_host: Option<String>,
    pub monitor_iface: Option<String>,
    /// New names in place of all the old ones.
    pub source_labels: Option<Vec<SourceLabel>>,
    /// A new name for one sender.
    pub source_label_set: Option<LabelUpdate>,
}

/// What an `AtemUpdate` holds.
pub struct AtemUpdateModel {
    pub ip: Option<Seq<char>>,
    pub mac: Option<Seq<char>>,
    pub port: Option<u64>,
}

/// What a `ConfigUpdate` holds.
pub struct ConfigUpdateModel {
    pub url: Option<Seq<char>>,
    pub keys: Option<Seq<Seq<char>>>,
    pub interval_secs: Option<u64>,
    pub mode: Option<Seq<char>>,
    pub atem: Option<AtemUpdateModel>,
    pub unifi_host: Option<Seq<char>>,
    pub monitor_iface: Option<Seq<char>>,
    pub source_labels: Option<Map<Seq<char>, Seq<char>>>,
    /// The sender, if one is told, and its new name.
    pub source_label_set: Option<(Option<Seq<char>>, Option<Seq<char>>)>,
}

impl View for ConfigUpdate {
    type V = ConfigUpdateModel;

    open spec fn view(&self) -> ConfigUpdateModel {
        ConfigUpdateModel {
            url: opt_text(self.url),
            keys: match self.keys {
                Some(k) => Some(texts(k@)),
                None => None,
            },
            interval_secs: self.interval_secs,
            mode: opt_text(self.mode),
            atem: match self.atem {
                Some(a) => Some(
                    AtemUpdateModel { ip: opt_text(a.ip), mac: opt_text(a.mac), port: a.port },
                ),
                None => None,
            },
            unifi_host: opt_text(self.unifi_host),
            monitor_iface: opt_text(self.monitor_iface),
            source_labels: match self.source_labels {
                Some(l) => Some(labels_of(l@)),
                None => None,
            },
            source_label_set: match self.source_label_set {
                Some(l) => Some((opt_text(l.ip), opt_text(l.label))),
                None => None,
            },
        }
    }
}

/// Nothing is to be changed.
pub open spec fn no_change() -> ConfigUpdateModel {
    ConfigUpdateModel {
        url: None,
        keys: None,
        interval_secs: None,
        mode: None,
        atem: None,
        unifi_host: None,
        monitor_iface: None,
        source_labels: None,
        source_label_set: None,
    }
}

impl Default for ConfigUpdate {
    /// Nothing is to be changed.
    fn default() -> (r: Self)
        ensures
            r@ == no_change(),
    {
        ConfigUpdate {
            url: None,
            keys: None,
            interval_secs: None,
            mode: None,
            atem: None,
            unifi_host: None,
            monitor_iface: None,
            source_labels: None,
            source_label_set: None,
        }
    }
}

// ---------------------------------------------------------------------------
// Changes as they are sent
// ---------------------------------------------------------------------------

/// The texts among the first `n` values that stand in the list at `p`.
pub open spec fn texts_under(nodes: Seq<JsonNodeModel>, p: usize, n: int) -> Seq<Seq<char>>
    decreases n,
{
    if n <= 0 {
        Seq::empty()
    } else if nodes[n - 1].parent == Some(p) && nodes[n - 1].text is Some {
        texts_under(nodes, p, n - 1).push(nodes[n - 1].text->0)
    } else {
        texts_under(nodes, p, n - 1)
    }
}

/// The texts among the first `n` values that stand in the object at `p`, under their names.
pub open spec fn labels_under(nodes: Seq<JsonNodeModel>, p: usize, n: int) -> Map<
    Seq<char>,
    Seq<char>,
>
    decreases n,
{
    if n <= 0 {
        Map::empty()
    } else {
        let v = nodes[n - 1];
        if v.parent == Some(p) && v.key is Some && v.text is Some {
            labels_under(nodes, p, n - 1).insert(v.key->0, v.text->0)
        } else {
            labels_under(nodes, p, n - 1)
        }
    }
}

/// The change that the values of a JSON text ask for. A value of another kind than the one
/// that belongs there asks for nothing; whatever stands in place of the switcher or of a
/// sender's name is taken as an object.
pub open spec fn update_in(nodes: Seq<JsonNodeModel>) -> ConfigUpdateModel {
    let n = nodes.len() as int;
    let keys = member(nodes, 0, "keys"@, 0);
    let atem = member(nodes, 0, "atem"@, 0);
    let labels = member(nodes, 0, "source_labels"@, 0);
    let one = member(nodes, 0, "source_label_set"@, 0);
    ConfigUpdateModel {
        url: member_text(nodes, 0, "url"@),
        keys: if keys < n && nodes[keys].list {
            Some(texts_under(nodes, keys as usize, n))
        } else {
            None
        },
        interval_secs: member_number(nodes, 0, "interval_secs"@),
        mode: member_text(nodes, 0, "mode"@),
        atem: if atem < n {
            Some(
                AtemUpdateModel {
                    ip: member_text(nodes, atem as usize, "ip"@),
                    mac: member_text(nodes, atem as usize, "mac"@),
                    port: member_number(nodes, atem as usize, "port"@),
                },
            )
        } else {
            None
        },
        unifi_host: member_text(nodes, 0, "unifi_host"@),
        monitor_iface: member_text(nodes, 0, "monitor_iface"@),
        source_labels: if labels < n && nodes[labels].object {
            Some(labels_under(nodes, labels as usize, n))
        } else {
            None
        },
        source_label_set: if one < n {
            Some(
                (
                    member_text(nodes, one as usize, "ip"@),
                    member_text(nodes, one as usize, "label"@),
                ),
            )
        } else {
            None
        },
    }
}

fn collect_texts(nodes: &Vec<JsonNode>, p: usize) -> (r: Vec<String>)
    ensures
        texts(r@) == texts_under(json_models(nodes@), p, nodes@.len() as int),
{
    let ghost m = json_models(nodes@);
    let mut out: Vec<String> = Vec::new();
    let mut i: usize = 0;
    assert(texts(out@) =~= texts_under(m, p, 0));
    while i < nodes.len()
        invariant
            i <= nodes@.len(),
            m == json_models(nodes@),
            texts(out@) == texts_under(m, p, i as int),
        decreases nodes@.len() - i,
    {
        let node: &JsonNode = &nodes[i];
        assert(m[i as int] == node@);
        let inside: bool = match node.parent {
            Some(k) => k == p,
            None => false,
        };
        if inside {
            if let Some(t) = &node.text {
                let ghost had = out@;
                out.push(t.clone());
                assert(texts(out@) =~= texts(had).push(t@));
            }
        }
        i += 1;
    }
    out
}

fn collect_labels(nodes: &Vec<JsonNode>, p: usize) -> (r: Vec<SourceLabel>)
    ensures
        labels_of(r@) == labels_under(json_models(nodes@), p, nodes@.len() as int),
{
    let ghost m = json_models(nodes@);
    let mut out: Vec<SourceLabel> = Vec::new();
    let mut i: usize = 0;
    while i < nodes.len()
        invariant
            i <= nodes@.len(),
            m == json_models(nodes@),
            labels_of(out@) == labels_under(m, p, i as int),
        decreases nodes@.len() - i,
    {
        let node: &JsonNode = &nodes[i];
        assert(m[i as int] == node@);
        let inside: bool = match node.parent {
            Some(k) => k == p,
            None => false,
        };
        if inside {
            if let Some(ip) = &node.key {
                if let Some(label) = &node.text {
                    let ghost had = out@;
                    out.push(SourceLabel { ip: ip.clone(), label: label.clone() });
                    assert(out@.drop_last() =~= had);
                }
            }
        }
        i += 1;
    }
    out
}

/// The change that the values of a JSON text ask for.
pub fn config_update_of(nodes: &Vec<JsonNode>) -> (r: ConfigUpdate)
    ensures
        r@ == update_in(json_models(nodes@)),
{
    let keys: usize = find_member(nodes, 0, "keys");
    let atem: usize = find_member(nodes, 0, "atem");
    let labels: usize = find_member(nodes, 0, "source_labels");
    let one: usize = find_member(nodes, 0, "source_label_set");
    ConfigUpdate {
        url: text_of_member(nodes, 0, "url"),
        keys: if keys < nodes.len() && nodes[keys].list {
            Some(collect_texts(nodes, keys))
        } else {
            None
        },
        interval_secs: number_of_member(nodes, 0, "interval_secs"),
        mode: text_of_member(nodes, 0, "mode"),
        atem: if atem < nodes.len() {
            Some(
                AtemUpdate {
                    ip: text_of_member(nodes, atem, "ip"),
                    mac: text_of_member(nodes, atem, "mac"),
                    port: number_of_member(nodes, atem, "port"),
                },
            )
        } else {
            None
        },
        unifi_host: text_of_member(nodes, 0, "unifi_host"),
        monitor_iface: text_of_member(nodes, 0, "monitor_iface"),
        source_labels: if labels < nodes.len() && nodes[labels].object {
            Some(collect_labels(nodes, labels))
        } else {
            None
        },
        source_label_set: if one < nodes.len() {
            Some(
                LabelUpdate {
                    ip: text_of_member(nodes, one, "ip"),
                    label: text_of_member(nodes, one, "label"),
                },
            )
        } else {
            None
        },
    }
}

// ---------------------------------------------------------------------------
// What a change does
// ---------------------------------------------------------------------------

/// The keys that are not blank, trimmed.
pub open spec fn given_keys(v: Seq<Seq<char>>) -> Seq<Seq<char>>
    decreases v.len(),
{
    if v.len() == 0 {
        Seq::empty()
    } else if trimmed(v.last()).len() == 0 {
        given_keys(v.drop_last())
    } else {
        given_keys(v.drop_last()).push(trimmed(v.last()))
    }
}

/// The switcher that the user wrote.
pub open spec fn given_target(a: AtemUpdateModel) -> TargetModel {
    TargetModel {
        ip: match a.ip {
            Some(x) => trimmed(x),
            None => Seq::empty(),
        },
        mac: match a.mac {
            Some(x) if normal_mac(x).len() > 0 => Some(normal_mac(x)),
            _ => None,
        },
        port: match a.port {
            Some(p) if p <= 0xFFFF => p as u16,
            _ => DEFAULT_ATEM_PORT,
        },
    }
}

/// The names of the senders after a change.
pub open spec fn given_labels(
    m: Map<Seq<char>, Seq<char>>,
    u: ConfigUpdateModel,
) -> Map<Seq<char>, Seq<char>> {
    let all = match u.source_labels {
        Some(l) => l,
        None => m,
    };
    match u.source_label_set {
        Some(one) => match one.0 {
            Some(ip) if trimmed(ip).len() > 0 => relabelled(
                all,
                trimmed(ip),
                match one.1 {
                    Some(l) => l,
                    None => Seq::empty(),
                },
            ),
            _ => all,
        },
        None => all,
    }
}

/// What a change is refused with: only a URL that cannot be tried is refused.
pub open spec fn refusal(u: ConfigUpdateModel) -> Option<Seq<char>> {
    match u.url {
        Some(x) if trimmed(x).len() > 0 && !is_stream_url(trimmed(x)) => Some(
            "URL must start with srt://, rtmp://, or rtmps:// (got "@ + between_quotes(trimmed(x))
                + ")"@,
        ),
        _ => None,
    }
}

/// The configuration after a change.
pub open spec fn configured(m: ConfigModel, u: ConfigUpdateModel) -> ConfigModel {
    ConfigModel {
        url: match u.url {
            Some(x) => trimmed(x),
            None => m.url,
        },
        keys: match u.keys {
            Some(k) => given_keys(k),
            None => m.keys,
        },
        interval_secs: match u.interval_secs {
            Some(i) if i > 0 => i,
            _ => m.interval_secs,
        },
        mode: match u.mode {
            Some(x) => match mode_named(x) {
                Some(d) => d,
                None => m.mode,
            },
            None => m.mode,
        },
        atem: match u.atem {
            Some(a) => given_target(a),
            None => m.atem,
        },
        unifi_host: match u.unifi_host {
            Some(h) => trimmed(h),
            None => m.unifi_host,
        },
        monitor_iface: match u.monitor_iface {
            Some(x) if trimmed(x).len() > 0 => Some(trimmed(x)),
            _ => m.monitor_iface,
        },
        source_labels: given_labels(m.source_labels, u),
        ..m
    }
}

/// What a change of the configuration brings with it.
#[derive(Clone, Copy, Debug, PartialEq, Eq, Structural)]
pub struct ConfigEffect {
    /// Another destination is tried, or with other keys: what is known of the tries no
    /// longer counts.
    pub new_target: bool,
    /// Another network interface is watched.
    pub new_iface: bool,
}

fn take_keys(v: &Vec<String>) -> (r: Vec<String>)
    ensures
        texts(r@) == given_keys(texts(v@)),
{
    let ghost t = texts(v@);
    let mut out: Vec<String> = Vec::new();
    let mut i: usize = 0;
    assert(texts(out@) =~= given_keys(t.take(0)));
    while i < v.len()
        invariant
            i <= v@.len(),
            t == texts(v@),
            texts(out@) == given_keys(t.take(i as int)),
        decreases v@.len() - i,
    {
        let k: String = trim(v[i].as_str());
        assert(t.take(i + 1).drop_last() =~= t.take(i as int));
        assert(t.take(i + 1).last() == v@[i as int]@);
        if !k.as_str().is_empty() {
            let ghost had = out@;
            let ghost kept = k@;
            out.push(k);
            assert(texts(out@) =~= texts(had).push(kept));
        }
        i += 1;
    }
    assert(t.take(i as int) =~= t);
    out
}

fn same_list(a: &Vec<String>, b: &Vec<String>) -> (r: bool)
    ensures
        r == (texts(a@) == texts(b@)),
{
    if a.len() != b.len() {
        assert(texts(a@).len() != texts(b@).len());
        return false;
    }
    let mut i: usize = 0;
    while i < a.len()
        invariant
            i <= a@.len(),
            a@.len() == b@.len(),
            forall|j: int| 0 <= j < i ==> (#[trigger] a@[j])@ == b@[j]@,
        decreases a@.len() - i,
    {
        if !same(a[i].as_str(), b[i].as_str()) {
            assert(texts(a@)[i as int] != texts(b@)[i as int]);
            return false;
        }
        i += 1;
    }
    assert(texts(a@) =~= texts(b@));
    true
}

fn take_target(a: &AtemUpdate) -> (r: AtemTarget)
    ensures
        r@ == given_target(
            AtemUpdateModel { ip: opt_text(a.ip), mac: opt_text(a.mac), port: a.port },
        ),
{
    let ip: String = match &a.ip {
        Some(x) => trim(x.as_str()),
        None => String::new(),
    };
    let mac: Option<String> = match &a.mac {
        Some(x) => {
            let n: String = normalize_mac(x.as_str());
            if n.as_str().is_empty() {
                None
            } else {
                Some(n)
            }
        },
        None => None,
    };
    let port: u16 = match a.port {
        Some(p) => if p <= 0xFFFF {
            p as u16
        } else {
            DEFAULT_ATEM_PORT
        },
        None => DEFAULT_ATEM_PORT,
    };
    AtemTarget { ip, mac, port }
}

impl ConfigSnapshot {
    fn update_labels(&mut self, u: &ConfigUpdate)
        ensures
            final(self)@ == (ConfigModel {
                source_labels: given_labels(old(self)@.source_labels, u@),
                ..old(self)@
            }),
    {
        if let Some(l) = &u.source_labels {
            self.source_labels = copy_labels(l);
        }
        if let Some(one) = &u.source_label_set {
            if let Some(ip) = &one.ip {
                let ip: String = trim(ip.as_str());
                if !ip.as_str().is_empty() {
                    match &one.label {
                        Some(l) => {
                            self.source_labels = set_label(
                                &self.source_labels,
                                ip.as_str(),
                                l.as_str(),
                            );
                        },
                        None => {
                            let none: String = String::new();
                            self.source_labels = set_label(
                                &self.source_labels,
                                ip.as_str(),
                                none.as_str(),
                            );
                        },
                    }
                }
            }
        }
    }

    /// Changes what the user wants changed, unless it is refused, and says what that
    /// brings with it.
    pub fn apply(&mut self, u: &ConfigUpdate) -> (r: Result<ConfigEffect, String>)
        ensures
            match refusal(u@) {
                Some(e) => r matches Err(x) && x@ == e && *final(self) == *old(self),
                None => {
                    &&& r is Ok
                    &&& final(self)@ == configured(old(self)@, u@)
                    &&& r->Ok_0.new_target == (final(self)@.url != old(self)@.url
                        || final(self)@.keys != old(self)@.keys)
                    &&& r->Ok_0.new_iface == (final(self)@.monitor_iface
                        != old(self)@.monitor_iface)
                },
            },
    {
        let url: Option<String> = match &u.url {
            Some(x) => Some(trim(x.as_str())),
            None => None,
        };
        if let Some(x) = &url {
            if !x.as_str().is_empty() && !stream_url(x.as_str()) {
                let q: String = show_quoted(x.as_str());
                return Err(
                    cat3(
                        "URL must start with srt://, rtmp://, or rtmps:// (got ",
                        q.as_str(),
                        ")",
                    ),
                );
            }
        }
        let mut new_target: bool = false;
        if let Some(x) = url {
            if !same(self.url.as_str(), x.as_str()) {
                new_target = true;
            }
            self.url = x;
        }
        if let Some(k) = &u.keys {
            let keys: Vec<String> = take_keys(k);
            if !same_list(&self.keys, &keys) {
                new_target = true;
            }
            self.keys = keys;
        }
        if let Some(i) = u.interval_secs {
            if i > 0 {
                self.interval_secs = i;
            }
        }
        if let Some(m) = &u.mode {
            if let Some(d) = DiagMode::from_str(m.as_str()) {
                self.mode = d;
            }
        }
        if let Some(a) = &u.atem {
            self.atem = take_target(a);
        }
        if let Some(h) = &u.unifi_host {
            self.unifi_host = trim(h.as_str());
        }
        let mut new_iface: bool = false;
        if let Some(x) = &u.monitor_iface {
            let iface: String = trim(x.as_str());
            if !iface.as_str().is_empty() {
                let is_same: bool = match &self.monitor_iface {
                    Some(old_iface) => same(old_iface.as_str(), iface.as_str()),
                    None => false,
                };
                if !is_same {
                    self.monitor_iface = Some(iface);
                    new_iface = true;
                }
            }
        }
        self.update_labels(u);
        Ok(ConfigEffect { new_target, new_iface })
    }
}

/// A change that changes nothing is not refused and leaves the configuration as it
/// is.
pub proof fn no_change_changes_nothing(m: ConfigModel)
    ensures
        refusal(no_change()) is None,
        configured(m, no_change()) == m,
{
}

/// The same change made twice does no more than made once.
pub proof fn a_change_settles(m: ConfigModel, u: ConfigUpdateModel)
    ensures
        configured(configured(m, u), u) == configured(m, u),
{
    let a = configured(m, u).source_labels;
    let b = given_labels(a, u);
    assert(a =~= b);
}

/// Once set, the pause between tries is never taken away.
pub proof fn the_interval_stays(m: ConfigModel, u: ConfigUpdateModel)
    requires
        m.interval_secs > 0,
    ensures
        configured(m, u).interval_secs > 0,
{
}

} // verus!
