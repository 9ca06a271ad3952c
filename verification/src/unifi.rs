//! The gateway, which knows how much each client sends and gets.
use vstd::prelude::*;
use vstd::string::*;

use crate::dashboard::{DashboardState, UnifiClientSnapshot, UnifiStatus};
use crate::number::{ascii_lower, decimal, same_ignoring_case, show, to_ascii_lower};
use crate::scan::{cut_last, trim, trimmed, without_last};
use crate::text::{cat2, cat3, cat4, opt_text, same, slice_text, to_chars};
use crate::timestamps::{parse_iso8601_to_unix, told_seconds};

verus! {

// ---------------------------------------------------------------------------
// Credentials
// ---------------------------------------------------------------------------

/// How the gateway is told who asks.
#[derive(Debug)]
pub enum UnifiCredentials {
    ApiKey(String),
    Login { username: String, password: String },
}

/// What `UnifiCredentials` hold.
pub enum CredentialsModel {
    ApiKey(Seq<char>),
    Login { username: Seq<char>, password: Seq<char> },
}

impl View for UnifiCredentials {
    type V = CredentialsModel;

    open spec fn view(&self) -> CredentialsModel {
        match self {
            UnifiCredentials::ApiKey(k) => CredentialsModel::ApiKey(k@),
            UnifiCredentials::Login { username, password } => CredentialsModel::Login {
                username: username@,
                password: password@,
            },
        }
    }
}

/// The credentials that the user has set. A key goes before a name with a password.
pub open spec fn set_credentials(
    key: Option<Seq<char>>,
    username: Option<Seq<char>>,
    password: Option<Seq<char>>,
) -> Option<CredentialsModel> {
    if key is Some && trimmed(key->0).len() > 0 {
        Some(CredentialsModel::ApiKey(trimmed(key->0)))
    } else if username is Some && trimmed(username->0).len() > 0 && password is Some
        && password->0.len() > 0 {
        Some(
            CredentialsModel::Login { username: trimmed(username->0), password: password->0 },
        )
    } else {
        None
    }
}

/// What optional credentials hold.
pub open spec fn some_credentials(c: Option<UnifiCredentials>) -> Option<CredentialsModel> {
    match c {
        Some(x) => Some(x@),
        None => None,
    }
}

/// The credentials that the user has set.
pub fn choose_credentials(
    key: Option<String>,
    username: Option<String>,
    password: Option<String>,
) -> (r: Option<UnifiCredentials>)
    ensures
        some_credentials(r) == set_credentials(
            opt_text(key),
            opt_text(username),
            opt_text(password),
        ),
{
    if let Some(k) = key {
        let k: String = trim(k.as_str());
        if !k.as_str().is_empty() {
            return Some(UnifiCredentials::ApiKey(k));
        }
    }
    match (username, password) {
        (Some(u), Some(p)) => {
            let u: String = trim(u.as_str());
            if u.as_str().is_empty() || p.as_str().is_empty() {
                None
            } else {
                Some(UnifiCredentials::Login { username: u, password: p })
            }
        },
        _ => None,
    }
}

/// A line of a request's head.
#[derive(Debug)]
pub struct RequestHeader {
    pub name: &'static str,
    pub value: String,
}

/// The name and the value of each line.
pub open spec fn header_pairs(v: Seq<RequestHeader>) -> Seq<(Seq<char>, Seq<char>)> {
    Seq::new(v.len(), |i: int| (v[i].name@, v[i].value@))
}

/// The lines that tell who asks. `csrf` is what the gateway gave at the login.
pub open spec fn auth_pairs(c: CredentialsModel, csrf: Option<Seq<char>>) -> Seq<
    (Seq<char>, Seq<char>),
> {
    match c {
        CredentialsModel::ApiKey(k) => seq![
            ("X-API-KEY"@, k),
            ("Accept"@, "application/json"@),
        ],
        CredentialsModel::Login { .. } => match csrf {
            Some(t) => seq![("X-CSRF-Token"@, t)],
            None => Seq::empty(),
        },
    }
}

/// The lines that tell who asks.
pub fn auth_headers(creds: &UnifiCredentials, csrf: &Option<String>) -> (r: Vec<RequestHeader>)
    ensures
        header_pairs(r@) == auth_pairs(creds@, opt_text(*csrf)),
{
    let mut out: Vec<RequestHeader> = Vec::new();
    match creds {
        UnifiCredentials::ApiKey(k) => {
            out.push(RequestHeader { name: "X-API-KEY", value: k.clone() });
            out.push(RequestHeader { name: "Accept", value: "application/json".to_owned() });
        },
        UnifiCredentials::Login { .. } => {
            if let Some(t) = csrf {
                out.push(RequestHeader { name: "X-CSRF-Token", value: t.clone() });
            }
        },
    }
    assert(header_pairs(out@) =~= auth_pairs(creds@, opt_text(*csrf)));
    out
}

/// What the gateway gives at the login is in one of two lines of its answer.
pub fn login_token(updated: Option<String>, plain: Option<String>) -> (r: Option<String>)
    ensures
        opt_text(r) == (if updated is Some {
            opt_text(updated)
        } else {
            opt_text(plain)
        }),
{
    match updated {
        Some(t) => Some(t),
        None => plain,
    }
}

// ---------------------------------------------------------------------------
// Requests and errors
// ---------------------------------------------------------------------------

/// The address of a request. Slashes at the end of the host are dropped.
pub fn request_url(host: &str, path: &str) -> (r: String)
    ensures
        r@ == without_last(host@, '/') + path@,
{
    let h: String = cut_last(host, '/');
    cat2(h.as_str(), path)
}

/// The path of the list of clients with their figures.
pub fn legacy_path(site: &str) -> (r: String)
    ensures
        r@ == "/proxy/network/api/s/"@ + site@ + "/stat/sta"@,
{
    cat3("/proxy/network/api/s/", site, "/stat/sta")
}

/// The path of the list of clients without figures, for gateways that do not give the
/// other one.
pub fn integration_path(site: &str) -> (r: String)
    ensures
        r@ == "/proxy/network/integration/v1/sites/"@ + site@ + "/clients"@,
{
    cat3("/proxy/network/integration/v1/sites/", site, "/clients")
}

/// The path of the login.
pub fn login_path() -> (r: &'static str)
    ensures
        r@ == "/api/auth/login"@,
{
    "/api/auth/login"
}

/// Neither list of clients could be had.
pub fn both_failed(legacy: &str, integration: &str) -> (r: String)
    ensures
        r@ == "legacy stat/sta failed: "@ + legacy@ + "; integration API also failed: "@
            + integration@,
{
    cat4("legacy stat/sta failed: ", legacy, "; integration API also failed: ", integration)
}

/// The first characters of a text, at most `n`.
pub open spec fn snippet(s: Seq<char>, n: int) -> Seq<char> {
    if s.len() > n {
        s.take(n)
    } else {
        s
    }
}

/// What is told of an answer that is none: its status, and the first 200 characters of
/// what it says.
pub fn status_error(code: u16, body: &str) -> (r: String)
    ensures
        r@ == "HTTP "@ + decimal(code as nat) + ": "@ + snippet(body@, 200),
{
    let v: Vec<char> = to_chars(body);
    let n: usize = if v.len() > 200 {
        200
    } else {
        v.len()
    };
    let short: String = slice_text(&v, 0, n);
    assert(short@ =~= snippet(body@, 200));
    let c: String = show(code as u64);
    cat4("HTTP ", c.as_str(), ": ", short.as_str())
}

// ---------------------------------------------------------------------------
// Clients
// ---------------------------------------------------------------------------

/// A client, as the gateway tells it. The gateway counts what it sends and gets itself:
/// what it gets, the client has sent.
#[derive(Debug)]
pub struct RawClient {
    pub mac: String,
    pub ip: Option<String>,
    pub hostname: Option<String>,
    pub name: Option<String>,
    pub oui: Option<String>,
    pub last_seen: Option<u64>,
    pub tx_bytes: u64,
    pub rx_bytes: u64,
    pub wired_tx_bytes: u64,
    pub wired_rx_bytes: u64,
    /// What the client sends and gets, in kilobits a second, if the gateway tells.
    pub rate_kbps: Option<(u64, u64)>,
    pub is_wired: bool,
}

/// What a `RawClient` holds.
pub struct RawModel {
    pub mac: Seq<char>,
    pub ip: Option<Seq<char>>,
    pub hostname: Option<Seq<char>>,
    pub name: Option<Seq<char>>,
    pub oui: Option<Seq<char>>,
    pub last_seen: Option<u64>,
    pub tx_bytes: u64,
    pub rx_bytes: u64,
    pub wired_tx_bytes: u64,
    pub wired_rx_bytes: u64,
    pub rate_kbps: Option<(u64, u64)>,
    pub is_wired: bool,
}

impl View for RawClient {
    type V = RawModel;

    open spec fn view(&self) -> RawModel {
        RawModel {
            mac: self.mac@,
            ip: opt_text(self.ip),
            hostname: opt_text(self.hostname),
            name: opt_text(self.name),
            oui: opt_text(self.oui),
            last_seen: self.last_seen,
            tx_bytes: self.tx_bytes,
            rx_bytes: self.rx_bytes,
            wired_tx_bytes: self.wired_tx_bytes,
            wired_rx_bytes: self.wired_rx_bytes,
            rate_kbps: self.rate_kbps,
            is_wired: self.is_wired,
        }
    }
}

/// A client of the list without figures.
#[derive(Debug)]
pub struct IntegrationClient {
    pub name: Option<String>,
    pub mac_address: Option<String>,
    pub ip_address: Option<String>,
    /// A date with a time.
    pub last_seen: Option<String>,
    /// How it is connected.
    pub kind: Option<String>,
}

/// A sum that goes no further than the largest number.
pub open spec fn capped_sum(a: u64, b: u64) -> u64 {
    if a + b > u64::MAX {
        u64::MAX
    } else {
        (a + b) as u64
    }
}

/// What a client has sent.
pub open spec fn sent_bytes(m: RawModel) -> u64 {
    capped_sum(m.rx_bytes, m.wired_rx_bytes)
}

/// What a client has got.
pub open spec fn got_bytes(m: RawModel) -> u64 {
    capped_sum(m.tx_bytes, m.wired_tx_bytes)
}

fn capped(a: u64, b: u64) -> (r: u64)
    ensures
        r == capped_sum(a, b),
{
    if a > u64::MAX - b {
        u64::MAX
    } else {
        a + b
    }
}

impl RawClient {
    /// What the client has sent.
    pub fn effective_tx_bytes(&self) -> (r: u64)
        ensures
            r == sent_bytes(self@),
    {
        capped(self.rx_bytes, self.wired_rx_bytes)
    }

    /// What the client has got.
    pub fn effective_rx_bytes(&self) -> (r: u64)
        ensures
            r == got_bytes(self@),
    {
        capped(self.tx_bytes, self.wired_tx_bytes)
    }

    /// A client of the list without figures.
    pub fn from_integration(c: IntegrationClient) -> (r: RawClient)
        ensures
            r@ == (RawModel {
                mac: match c.mac_address {
                    Some(m) => m@,
                    None => Seq::empty(),
                },
                ip: opt_text(c.ip_address),
                hostname: None,
                name: opt_text(c.name),
                oui: None,
                last_seen: match c.last_seen {
                    Some(t) => told_seconds(t@),
                    None => None,
                },
                tx_bytes: 0,
                rx_bytes: 0,
                wired_tx_bytes: 0,
                wired_rx_bytes: 0,
                rate_kbps: None,
                is_wired: match c.kind {
                    Some(k) => same_ignoring_case(k@, "WIRED"@),
                    None => false,
                },
            }),
    {
        let mac: String = match c.mac_address {
            Some(m) => m,
            None => String::new(),
        };
        assert(c.mac_address is None ==> mac@ =~= Seq::<char>::empty());
        let last_seen: Option<u64> = match &c.last_seen {
            Some(t) => parse_iso8601_to_unix(Some(t.as_str())),
            None => None,
        };
        let is_wired: bool = match &c.kind {
            Some(k) => {
                let a: String = to_ascii_lower(k.as_str());
                let b: String = to_ascii_lower("WIRED");
                same(a.as_str(), b.as_str())
            },
            None => false,
        };
        RawClient {
            mac,
            ip: c.ip_address,
            hostname: None,
            name: c.name,
            oui: None,
            last_seen,
            tx_bytes: 0,
            rx_bytes: 0,
            wired_tx_bytes: 0,
            wired_rx_bytes: 0,
            rate_kbps: None,
            is_wired,
        }
    }
}

// ---------------------------------------------------------------------------
// Polls
// ---------------------------------------------------------------------------

/// What a client had sent and got at the last poll.
#[derive(Debug)]
pub struct LastPoll {
    pub mac: String,
    pub sent: u64,
    pub got: u64,
    /// When that was, in nanoseconds.
    pub at: u64,
}

/// What each client had sent and got, and when.
pub open spec fn polls_of(v: Seq<LastPoll>) -> Map<Seq<char>, (u64, u64, u64)>
    decreases v.len(),
{
    if v.len() == 0 {
        Map::empty()
    } else {
        polls_of(v.drop_last()).insert(
            v.last().mac@,
            (v.last().sent, v.last().got, v.last().at),
        )
    }
}

/// Two polls that are no further apart tell no rate.
pub const MIN_POLL_NANOS: u64 = 100_000_000;

/// A number of bytes within a time, in kilobits a second.
pub open spec fn kbps_within(bytes: int, nanos: int) -> int {
    bytes * 8_000_000 / nanos
}

/// What a client sends and gets in kilobits a second, as two polls tell.
pub open spec fn rate_between(
    before: Option<(u64, u64, u64)>,
    sent: u64,
    got: u64,
    now: u64,
) -> (u64, u64) {
    match before {
        None => (0, 0),
        Some(b) => {
            let nanos = if now >= b.2 {
                now - b.2
            } else {
                0
            };
            if nanos <= MIN_POLL_NANOS {
                (0, 0)
            } else {
                (
                    kbps_within(
                        if sent >= b.0 {
                            sent - b.0
                        } else {
                            0
                        },
                        nanos,
                    ) as u64,
                    kbps_within(
                        if got >= b.1 {
                            got - b.1
                        } else {
                            0
                        },
                        nanos,
                    ) as u64,
                )
            }
        },
    }
}

/// What a `UnifiClientSnapshot` holds.
pub struct ClientModel {
    pub mac: Seq<char>,
    pub ip: Option<Seq<char>>,
    pub hostname: Option<Seq<char>>,
    pub name: Option<Seq<char>>,
    pub oui: Option<Seq<char>>,
    pub last_seen: u64,
    pub tx_bytes: u64,
    pub rx_bytes: u64,
    pub tx_kbps: u64,
    pub rx_kbps: u64,
    pub is_atem: bool,
    pub is_wired: bool,
}

impl View for UnifiClientSnapshot {
    type V = ClientModel;

    open spec fn view(&self) -> ClientModel {
        ClientModel {
            mac: self.mac@,
            ip: opt_text(self.ip),
            hostname: opt_text(self.hostname),
            name: opt_text(self.name),
            oui: opt_text(self.oui),
            last_seen: self.last_seen,
            tx_bytes: self.tx_bytes,
            rx_bytes: self.rx_bytes,
            tx_kbps: self.tx_kbps,
            rx_kbps: self.rx_kbps,
            is_atem: self.is_atem,
            is_wired: self.is_wired,
        }
    }
}

/// A client, as it is shown. `atem_mac` is the hardware address of the switcher, and
/// `before` is what the client had sent and got at the last poll.
pub open spec fn shown_client(
    m: RawModel,
    atem_mac: Option<Seq<char>>,
    before: Option<(u64, u64, u64)>,
    now: u64,
) -> ClientModel {
    let rate = match m.rate_kbps {
        Some(r) => r,
        None => rate_between(before, sent_bytes(m), got_bytes(m), now),
    };
    ClientModel {
        mac: ascii_lower(m.mac),
        ip: m.ip,
        hostname: m.hostname,
        name: m.name,
        oui: m.oui,
        last_seen: match m.last_seen {
            Some(t) => t,
            None => 0,
        },
        tx_bytes: sent_bytes(m),
        rx_bytes: got_bytes(m),
        tx_kbps: rate.0,
        rx_kbps: rate.1,
        is_atem: atem_mac is Some && ascii_lower(atem_mac->0) == ascii_lower(m.mac),
        is_wired: m.is_wired,
    }
}

/// The entry of a map, if there is one.
pub open spec fn entry(m: Map<Seq<char>, (u64, u64, u64)>, k: Seq<char>) -> Option<
    (u64, u64, u64),
> {
    if m.contains_key(k) {
        Some(m[k])
    } else {
        None
    }
}

/// What is known after a poll, and how the clients are shown, one after the other.
pub open spec fn polled(
    known: Map<Seq<char>, (u64, u64, u64)>,
    raw: Seq<RawModel>,
    atem_mac: Option<Seq<char>>,
    now: u64,
) -> (Map<Seq<char>, (u64, u64, u64)>, Seq<ClientModel>)
    decreases raw.len(),
{
    if raw.len() == 0 {
        (known, Seq::empty())
    } else {
        let front = polled(known, raw.drop_last(), atem_mac, now);
        let m = raw.last();
        let mac = ascii_lower(m.mac);
        (
            front.0.insert(mac, (sent_bytes(m), got_bytes(m), now)),
            front.1.push(shown_client(m, atem_mac, entry(front.0, mac), now)),
        )
    }
}

/// The clients, as the gateway tells them.
pub open spec fn raw_models(v: Seq<RawClient>) -> Seq<RawModel> {
    Seq::new(v.len(), |i: int| v[i]@)
}

/// The clients, as they are shown.
pub open spec fn client_models(v: Seq<UnifiClientSnapshot>) -> Seq<ClientModel> {
    Seq::new(v.len(), |i: int| v[i]@)
}

fn to_kbps(bytes: u64, nanos: u64) -> (r: u64)
    requires
        nanos > MIN_POLL_NANOS,
    ensures
        r == kbps_within(bytes as int, nanos as int),
{
    let bits: u128 = bytes as u128 * 8_000_000;
    let q: u128 = bits / nanos as u128;
    assert(q <= bytes) by (nonlinear_arith)
        requires
            q == bits / nanos as u128,
            bits == bytes * 8_000_000,
            nanos > 100_000_000,
    ;
    q as u64
}

fn rate(before: Option<(u64, u64, u64)>, sent: u64, got: u64, now: u64) -> (r: (u64, u64))
    ensures
        r == rate_between(before, sent, got, now),
{
    match before {
        None => (0, 0),
        Some((sent_before, got_before, at)) => {
            if now < at || now - at <= MIN_POLL_NANOS {
                return (0, 0);
            }
            let nanos: u64 = now - at;
            let up: u64 = if sent >= sent_before {
                sent - sent_before
            } else {
                0
            };
            let down: u64 = if got >= got_before {
                got - got_before
            } else {
                0
            };
            (to_kbps(up, nanos), to_kbps(down, nanos))
        },
    }
}

/// What is known of the clients from the last poll.
#[derive(Debug)]
pub struct PollMemory {
    pub polls: Vec<LastPoll>,
}

impl PollMemory {
    /// Nothing is known.
    pub fn new() -> (r: PollMemory)
        ensures
            polls_of(r.polls@) == Map::<Seq<char>, (u64, u64, u64)>::empty(),
    {
        PollMemory { polls: Vec::new() }
    }

    fn remember(&mut self, mac: &str, sent: u64, got: u64, now: u64) -> (r: Option<
        (u64, u64, u64),
    >)
        ensures
            r == entry(polls_of(old(self).polls@), mac@),
            polls_of(final(self).polls@) == polls_of(old(self).polls@).insert(
                mac@,
                (sent, got, now),
            ),
    {
        let ghost had = self.polls@;
        let mut found: Option<(u64, u64, u64)> = None;
        let mut kept: Vec<LastPoll> = Vec::new();
        let mut i: usize = 0;
        assert(polls_of(had.take(0)) =~= Map::<Seq<char>, (u64, u64, u64)>::empty());
        assert(polls_of(kept@) =~= polls_of(had.take(0)).remove(mac@));
        while i < self.polls.len()
            invariant
                i <= self.polls@.len(),
                self.polls@ == had,
                polls_of(kept@) == polls_of(had.take(i as int)).remove(mac@),
                found == entry(polls_of(had.take(i as int)), mac@),
            decreases self.polls@.len() - i,
        {
            let p: &LastPoll = &self.polls[i];
            assert(had.take(i + 1).drop_last() =~= had.take(i as int));
            if same(p.mac.as_str(), mac) {
                found = Some((p.sent, p.got, p.at));
            } else {
                let ghost before = kept@;
                kept.push(LastPoll { mac: p.mac.clone(), sent: p.sent, got: p.got, at: p.at });
                assert(kept@.drop_last() =~= before);
            }
            assert(polls_of(kept@) =~= polls_of(had.take(i + 1)).remove(mac@));
            i += 1;
        }
        assert(had.take(i as int) =~= had);
        let ghost before = kept@;
        kept.push(LastPoll { mac: mac.to_owned(), sent, got, at: now });
        assert(kept@.drop_last() =~= before);
        assert(polls_of(kept@) =~= polls_of(had).insert(mac@, (sent, got, now)));
        self.polls = kept;
        found
    }

    fn show_client(&mut self, c: &RawClient, atem_mac: &Option<String>, now: u64) -> (r:
        UnifiClientSnapshot)
        ensures
            r@ == shown_client(
                c@,
                opt_text(*atem_mac),
                entry(polls_of(old(self).polls@), ascii_lower(c@.mac)),
                now,
            ),
            polls_of(final(self).polls@) == polls_of(old(self).polls@).insert(
                ascii_lower(c@.mac),
                (sent_bytes(c@), got_bytes(c@), now),
            ),
    {
        let mac: String = to_ascii_lower(c.mac.as_str());
        let is_atem: bool = match atem_mac {
            Some(m) => {
                let m: String = to_ascii_lower(m.as_str());
                same(m.as_str(), mac.as_str())
            },
            None => false,
        };
        let sent: u64 = c.effective_tx_bytes();
        let got: u64 = c.effective_rx_bytes();
        let before: Option<(u64, u64, u64)> = self.remember(mac.as_str(), sent, got, now);
        let (tx_kbps, rx_kbps): (u64, u64) = match c.rate_kbps {
            Some(r) => r,
            None => rate(before, sent, got, now),
        };
        let last_seen: u64 = match c.last_seen {
            Some(t) => t,
            None => 0,
        };
        UnifiClientSnapshot {
            mac,
            ip: copy_text(&c.ip),
            hostname: copy_text(&c.hostname),
            name: copy_text(&c.name),
            oui: copy_text(&c.oui),
            last_seen,
            tx_bytes: sent,
            rx_bytes: got,
            tx_kbps,
            rx_kbps,
            is_atem,
            is_wired: c.is_wired,
        }
    }

    /// How the clients are shown after a poll.
    pub fn clients(&mut self, raw: &Vec<RawClient>, atem_mac: &Option<String>, now: u64) -> (r: Vec<
        UnifiClientSnapshot,
    >)
        ensures
            (polls_of(final(self).polls@), client_models(r@)) == polled(
                polls_of(old(self).polls@),
                raw_models(raw@),
                opt_text(*atem_mac),
                now,
            ),
    {
        let ghost known = polls_of(self.polls@);
        let ghost all = raw_models(raw@);
        let ghost mac = opt_text(*atem_mac);
        let mut out: Vec<UnifiClientSnapshot> = Vec::new();
        let mut i: usize = 0;
        assert(client_models(out@) =~= Seq::<ClientModel>::empty());
        while i < raw.len()
            invariant
                i <= raw@.len(),
                all == raw_models(raw@),
                mac == opt_text(*atem_mac),
                polled(known, all.take(i as int), mac, now) == (
                    polls_of(self.polls@),
                    client_models(out@),
                ),
            decreases raw@.len() - i,
        {
            let ghost had = out@;
            assert(all.take(i + 1).drop_last() =~= all.take(i as int));
            assert(all.take(i + 1).last() == raw@[i as int]@);
            let c: UnifiClientSnapshot = self.show_client(&raw[i], atem_mac, now);
            let ghost m = c@;
            out.push(c);
            assert(client_models(out@) =~= client_models(had).push(m));
            i += 1;
        }
        assert(all.take(i as int) =~= all);
        out
    }
}

fn copy_text(t: &Option<String>) -> (r: Option<String>)
    ensures
        opt_text(r) == opt_text(*t),
{
    match t {
        Some(x) => Some(x.clone()),
        None => None,
    }
}

/// Each client is shown once for each time that the gateway tells of it, in the same
/// order, with what it has sent and got.
pub proof fn every_client_is_shown(
    known: Map<Seq<char>, (u64, u64, u64)>,
    raw: Seq<RawModel>,
    atem_mac: Option<Seq<char>>,
    now: u64,
)
    ensures
        polled(known, raw, atem_mac, now).1.len() == raw.len(),
        forall|i: int|
            0 <= i < raw.len() ==> {
                let c = #[trigger] polled(known, raw, atem_mac, now).1[i];
                c.mac == ascii_lower(raw[i].mac) && c.tx_bytes == sent_bytes(raw[i]) && c.rx_bytes
                    == got_bytes(raw[i])
            },
    decreases raw.len(),
{
    if raw.len() > 0 {
        every_client_is_shown(known, raw.drop_last(), atem_mac, now);
    }
}

impl DashboardState {
    /// The gateway is about to be asked.
    pub fn poll_began(&mut self)
        ensures
            final(self).unifi_status is Connecting,
            *final(self) == (DashboardState {
                unifi_status: final(self).unifi_status,
                ..*old(self)
            }),
    {
        self.unifi_status = UnifiStatus::Connecting;
    }

    /// The gateway has told its clients.
    pub fn poll_done(&mut self, clients: Vec<UnifiClientSnapshot>, now: u64)
        ensures
            final(self).unifi_status == (UnifiStatus::Connected { last_poll_at: now }),
            *final(self) == (DashboardState {
                unifi_clients: clients,
                last_unifi_poll_at: now,
                unifi_status: final(self).unifi_status,
                ..*old(self)
            }),
    {
        self.unifi_clients = clients;
        self.last_unifi_poll_at = now;
        self.unifi_status = UnifiStatus::Connected { last_poll_at: now };
    }

    /// The gateway could not be asked. What is known of its clients stays.
    pub fn poll_failed(&mut self, error: String, now: u64)
        ensures
            final(self).unifi_status == (UnifiStatus::Failed { error, last_attempt: now }),
            *final(self) == (DashboardState {
                unifi_status: final(self).unifi_status,
                ..*old(self)
            }),
    {
        self.unifi_status = UnifiStatus::Failed { error, last_attempt: now };
    }
}

} // verus!
