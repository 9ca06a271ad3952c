//! The control protocol: blocks of text, each a header and some values, with which a
//! client watches and sets an encoder.
use vstd::prelude::*;
use vstd::string::*;

use crate::number::{decimal, lowered, same_ignoring_case, show, to_ascii_lower, to_lower};
use crate::scan::{
    blank, cut_last, is_blank, is_line, lines_of, lines_read_back, not_blank, position, position_is,
    split_once, strip_suffix, text_of_lines, text_of_lines_concat, trim, trimmed, trimmed_start,
    trimmed_text_ends, without_last,
};
use crate::settings::{applied, available_video_modes, known, video_modes};
use crate::snapshot::{ServerSnapshot, Snapshot};
use crate::sources::or_default;
use crate::state::{
    no_update, EncoderModel, EncoderState, SettingsUpdate, StatsModel, StreamStats, UpdateModel,
};
use crate::text::{cat2, join, joined, opt_text, same, texts};

verus! {

// ---------------------------------------------------------------------------
// Blocks
// ---------------------------------------------------------------------------

/// A block: a header and values, each with a name.
#[derive(Debug)]
pub struct Block {
    pub header: String,
    pub kvs: Vec<(String, String)>,
}

/// What a `Block` holds.
pub struct BlockModel {
    pub header: Seq<char>,
    pub kvs: Seq<(Seq<char>, Seq<char>)>,
}

/// What named values hold.
pub open spec fn pairs(v: Seq<(String, String)>) -> Seq<(Seq<char>, Seq<char>)> {
    Seq::new(v.len(), |i: int| (v[i].0@, v[i].1@))
}

impl View for Block {
    type V = BlockModel;

    open spec fn view(&self) -> BlockModel {
        BlockModel { header: self.header@, kvs: pairs(self.kvs@) }
    }
}

/// What blocks hold.
pub open spec fn block_models(v: Seq<Block>) -> Seq<BlockModel> {
    Seq::new(v.len(), |i: int| v[i]@)
}

/// The text of named values, one on each line.
pub open spec fn pairs_text(kvs: Seq<(Seq<char>, Seq<char>)>) -> Seq<char>
    decreases kvs.len(),
{
    if kvs.len() == 0 {
        Seq::empty()
    } else {
        pairs_text(kvs.drop_last()) + kvs.last().0 + ": "@ + kvs.last().1 + "\n"@
    }
}

/// The text of a block: the header and a colon, the values, and an empty line.
pub open spec fn block_text(b: BlockModel) -> Seq<char> {
    b.header + ":\n"@ + pairs_text(b.kvs) + "\n"@
}

/// The text of blocks one after the other.
pub open spec fn blocks_text(bs: Seq<BlockModel>) -> Seq<char>
    decreases bs.len(),
{
    if bs.len() == 0 {
        Seq::empty()
    } else {
        blocks_text(bs.drop_last()) + block_text(bs.last())
    }
}

impl Block {
    /// The text of the block.
    pub fn render(&self) -> (r: String)
        ensures
            r@ == block_text(self@),
    {
        let mut out: String = cat2(self.header.as_str(), ":\n");
        let ghost start = out@;
        let ghost kvs = self@.kvs;
        let mut i: usize = 0;
        assert(kvs.take(0).len() == 0);
        assert(start + pairs_text(kvs.take(0)) =~= start);
        while i < self.kvs.len()
            invariant
                i <= self.kvs@.len(),
                kvs == self@.kvs,
                out@ == start + pairs_text(kvs.take(i as int)),
            decreases self.kvs@.len() - i,
        {
            let ghost before = out@;
            assert(kvs.take(i + 1).drop_last() == kvs.take(i as int));
            let line: &(String, String) = &self.kvs[i];
            out.push_str(line.0.as_str());
            out.push_str(": ");
            out.push_str(line.1.as_str());
            out.push_str("\n");
            i += 1;
            assert(out@ =~= start + pairs_text(kvs.take(i as int)));
        }
        assert(kvs.take(i as int) == kvs);
        out.push_str("\n");
        out
    }
}

/// The text of blocks one after the other.
pub fn render_all(blocks: &Vec<Block>) -> (r: String)
    ensures
        r@ == blocks_text(block_models(blocks@)),
{
    let ghost m = block_models(blocks@);
    let mut out: String = String::new();
    let mut i: usize = 0;
    assert(m.take(0).len() == 0);
    while i < blocks.len()
        invariant
            i <= blocks@.len(),
            m == block_models(blocks@),
            out@ == blocks_text(m.take(i as int)),
        decreases blocks@.len() - i,
    {
        assert(m.take(i + 1).drop_last() == m.take(i as int));
        let t: String = blocks[i].render();
        out.push_str(t.as_str());
        i += 1;
    }
    assert(m.take(i as int) == m);
    out
}

// ---------------------------------------------------------------------------
// Reading
// ---------------------------------------------------------------------------

/// How far lines have been read: the block at hand, and the finished ones.
pub struct Reading {
    pub pending: Option<BlockModel>,
    pub blocks: Seq<BlockModel>,
}

/// The block at hand after one more line.
pub open spec fn pending_after(p: Option<BlockModel>, raw: Seq<char>) -> Option<BlockModel> {
    let line = without_last(raw, '\r');
    match p {
        None => if !is_blank(line) && line.len() > 0 && line.last() == ':' {
            Some(BlockModel { header: trimmed(line.drop_last()), kvs: Seq::empty() })
        } else {
            None
        },
        Some(b) => if is_blank(line) {
            None
        } else {
            let i = position(line, ':') as int;
            if i < line.len() {
                Some(
                    BlockModel {
                        header: b.header,
                        kvs: b.kvs.push((trimmed(line.take(i)), trimmed(line.skip(i + 1)))),
                    },
                )
            } else {
                Some(b)
            }
        },
    }
}

/// The block that one more line finishes: an empty line ends the block at hand.
pub open spec fn finished_by(p: Option<BlockModel>, raw: Seq<char>) -> Option<BlockModel> {
    if is_blank(without_last(raw, '\r')) {
        p
    } else {
        None
    }
}

/// What one more line does.
pub open spec fn read_line(r: Reading, raw: Seq<char>) -> Reading {
    Reading {
        pending: pending_after(r.pending, raw),
        blocks: match finished_by(r.pending, raw) {
            Some(b) => r.blocks.push(b),
            None => r.blocks,
        },
    }
}

/// What several more lines do.
pub open spec fn read_lines(r: Reading, lines: Seq<Seq<char>>) -> Reading
    decreases lines.len(),
{
    if lines.len() == 0 {
        r
    } else {
        read_line(read_lines(r, lines.drop_last()), lines.last())
    }
}

/// Nothing has been read yet.
pub open spec fn nothing_read() -> Reading {
    Reading { pending: None, blocks: Seq::empty() }
}

/// What an optional block holds.
pub open spec fn block_model(b: Option<Block>) -> Option<BlockModel> {
    match b {
        Some(x) => Some(x@),
        None => None,
    }
}

/// The block at hand.
#[derive(Debug)]
pub struct BlockReader {
    pub pending: Option<Block>,
}

impl BlockReader {
    /// Nothing has been read yet.
    pub fn new() -> (r: BlockReader)
        ensures
            r.pending is None,
    {
        BlockReader { pending: None }
    }

    /// Takes a line; gives the block that it finishes. Lines that belong to no block
    /// are passed over.
    pub fn feed(&mut self, raw: &str) -> (r: Option<Block>)
        ensures
            block_model(final(self).pending) == pending_after(
                block_model(old(self).pending),
                raw@,
            ),
            block_model(r) == finished_by(block_model(old(self).pending), raw@),
    {
        let line: String = cut_last(raw, '\r');
        let empty: bool = blank(line.as_str());
        let mut taken: Option<Block> = None;
        std::mem::swap(&mut taken, &mut self.pending);
        match taken {
            None => {
                if empty {
                    return None;
                }
                proof {
                    reveal_strlit(":");
                    if line@.len() > 0 {
                        assert(line@.skip(line@.len() - 1) =~= seq![line@.last()]);
                        assert(":"@ =~= seq![':']);
                        assert(line@.last() == ':' ==> line@.skip(line@.len() - 1) == ":"@);
                        assert(line@.skip(line@.len() - 1) == ":"@ ==> line@.skip(
                            line@.len() - 1,
                        )[0] == ':');
                        assert(line@.take(line@.len() - 1) =~= line@.drop_last());
                    }
                }
                if let Some(header) = strip_suffix(line.as_str(), ":") {
                    let b: Block = Block { header: trim(header.as_str()), kvs: Vec::new() };
                    assert(b@.kvs =~= Seq::empty());
                    self.pending = Some(b);
                }
                None
            },
            Some(block) => {
                if empty {
                    return Some(block);
                }
                let mut b: Block = block;
                let ghost had = b@;
                if let Some((k, v)) = split_once(line.as_str(), ':') {
                    b.kvs.push((trim(k.as_str()), trim(v.as_str())));
                    assert(b@.kvs =~= had.kvs.push((trimmed(k@), trimmed(v@))));
                }
                self.pending = Some(b);
                None
            },
        }
    }
}

// ---------------------------------------------------------------------------
// Status
// ---------------------------------------------------------------------------

/// The version of the protocol.
pub open spec fn protocol_version() -> Seq<char> {
    "1.2"@
}

/// Who the encoder is.
pub open spec fn identity_values(n: Snapshot) -> Seq<(Seq<char>, Seq<char>)> {
    seq![("Model"@, n.model@), ("Label"@, n.label@), ("Unique ID"@, n.unique_id@)]
}

/// What the encoder is made of.
pub open spec fn version_values() -> Seq<(Seq<char>, Seq<char>)> {
    seq![
        ("Product ID"@, "BE73"@),
        ("Hardware Version"@, "0100"@),
        ("Software Version"@, "01000000"@),
        ("Software Release"@, "0.2"@),
    ]
}

/// What the encoder's own display shows.
pub open spec fn ui_values() -> Seq<(Seq<char>, Seq<char>)> {
    seq![
        ("Available Locales"@, "en_US.UTF-8"@),
        ("Current Locale"@, "en_US.UTF-8"@),
        ("Available Audio Meters"@, "PPM -18dB, PPM -20dB, VU -18dB, VU -20dB"@),
        ("Current Audio Meter"@, "PPM -20dB"@),
    ]
}

/// What the encoder's audio output plays.
pub open spec fn audio_values() -> Seq<(Seq<char>, Seq<char>)> {
    seq![
        ("Current Monitor Out Audio Source"@, "Auto"@),
        ("Available Monitor Out Audio Sources"@, "Auto, SDI In, Remote Source"@),
    ]
}

/// The names of servers.
pub open spec fn server_names(v: Seq<ServerSnapshot>) -> Seq<Seq<char>> {
    Seq::new(v.len(), |i: int| v[i].name@)
}

/// What the stream is set to.
pub open spec fn stream_settings_values(n: Snapshot) -> Seq<(Seq<char>, Seq<char>)> {
    seq![
        ("Available Video Modes"@, joined(video_modes(), ", "@)),
        ("Video Mode"@, n.video_mode@),
        ("Current Platform"@, or_default(n.current_service_name@, "My Platform"@)),
        ("Current Server"@, n.current_server_name@),
        ("Current Quality Level"@, n.quality_level@),
        ("Stream Key"@, n.stream_key@),
        ("Password"@, n.passphrase@),
        ("Current URL"@, n.current_url@),
        ("Customizable URL"@, "true"@),
        ("Available Default Platforms"@, Seq::empty()),
        ("Available Custom Platforms"@, joined(texts(n.available_services@), ", "@)),
        (
            "Available Servers"@,
            if n.available_servers@.len() == 0 {
                "SRT"@
            } else {
                joined(server_names(n.available_servers@), ", "@)
            },
        ),
        ("Available Quality Levels"@, "Streaming High, Streaming Medium, Streaming Low"@),
    ]
}

/// How the stream does.
pub open spec fn stream_state_values(n: Snapshot) -> Seq<(Seq<char>, Seq<char>)> {
    seq![
        ("Status"@, n.stats.status@),
        ("Bitrate"@, decimal(n.stats.bitrate as nat)),
        ("Duration"@, n.stats.duration@),
        ("Cache Used"@, decimal(n.stats.cache_used as nat)),
    ]
}

/// The network interface that is shown.
pub open spec fn interface_values() -> Seq<(Seq<char>, Seq<char>)> {
    seq![
        ("Name"@, "Ethernet"@),
        ("Priority"@, "1"@),
        ("MAC Address"@, "00:11:22:33:44:55"@),
        ("Dynamic IP"@, "true"@),
        ("Current Addresses"@, "0.0.0.0/255.255.255.0"@),
        ("Current Gateway"@, "0.0.0.0"@),
        ("Current DNS Servers"@, Seq::empty()),
        ("Static Addresses"@, "0.0.0.0/255.255.255.0"@),
        ("Static Gateway"@, "0.0.0.0"@),
        ("Static DNS Servers"@, "8.8.8.8, 8.8.4.4"@),
    ]
}

/// What a client is told when it connects: everything, block by block.
pub open spec fn preamble_blocks(n: Snapshot) -> Seq<BlockModel> {
    seq![
        BlockModel {
            header: "PROTOCOL PREAMBLE"@,
            kvs: seq![("Version"@, protocol_version())],
        },
        BlockModel { header: "IDENTITY"@, kvs: identity_values(n) },
        BlockModel { header: "VERSION"@, kvs: version_values() },
        BlockModel {
            header: "NETWORK"@,
            kvs: seq![("Interface Count"@, "1"@), ("Default Interface"@, "0"@)],
        },
        BlockModel { header: "NETWORK INTERFACE 0"@, kvs: interface_values() },
        BlockModel { header: "UI SETTINGS"@, kvs: ui_values() },
        BlockModel { header: "STREAM SETTINGS"@, kvs: stream_settings_values(n) },
        BlockModel {
            header: "STREAM XML"@,
            kvs: seq![("Files"@, joined(texts(n.available_services@), ", "@))],
        },
        BlockModel { header: "STREAM STATE"@, kvs: stream_state_values(n) },
        BlockModel { header: "AUDIO SETTINGS"@, kvs: audio_values() },
        BlockModel { header: "END PRELUDE"@, kvs: Seq::empty() },
    ]
}

fn put(v: &mut Vec<(String, String)>, k: &str, value: &str)
    ensures
        pairs(final(v)@) == pairs(old(v)@).push((k@, value@)),
{
    v.push((k.to_owned(), value.to_owned()));
    assert(pairs(v@) =~= pairs(old(v)@).push((k@, value@)));
}

fn no_values() -> (r: Vec<(String, String)>)
    ensures
        pairs(r@) == Seq::<(Seq<char>, Seq<char>)>::empty(),
{
    let v: Vec<(String, String)> = Vec::new();
    assert(pairs(v@) =~= Seq::<(Seq<char>, Seq<char>)>::empty());
    v
}

/// Who the encoder is.
pub fn identity_kvs(snap: &Snapshot) -> (r: Vec<(String, String)>)
    ensures
        pairs(r@) == identity_values(*snap),
{
    let mut v: Vec<(String, String)> = no_values();
    put(&mut v, "Model", snap.model.as_str());
    put(&mut v, "Label", snap.label.as_str());
    put(&mut v, "Unique ID", snap.unique_id.as_str());
    assert(pairs(v@) =~= identity_values(*snap));
    v
}

/// What the encoder is made of.
pub fn version_kvs() -> (r: Vec<(String, String)>)
    ensures
        pairs(r@) == version_values(),
{
    let mut v: Vec<(String, String)> = no_values();
    put(&mut v, "Product ID", "BE73");
    put(&mut v, "Hardware Version", "0100");
    put(&mut v, "Software Version", "01000000");
    put(&mut v, "Software Release", "0.2");
    assert(pairs(v@) =~= version_values());
    v
}

/// What the encoder's own display shows.
pub fn ui_kvs() -> (r: Vec<(String, String)>)
    ensures
        pairs(r@) == ui_values(),
{
    let mut v: Vec<(String, String)> = no_values();
    put(&mut v, "Available Locales", "en_US.UTF-8");
    put(&mut v, "Current Locale", "en_US.UTF-8");
    put(&mut v, "Available Audio Meters", "PPM -18dB, PPM -20dB, VU -18dB, VU -20dB");
    put(&mut v, "Current Audio Meter", "PPM -20dB");
    assert(pairs(v@) =~= ui_values());
    v
}

/// What the encoder's audio output plays.
pub fn audio_kvs() -> (r: Vec<(String, String)>)
    ensures
        pairs(r@) == audio_values(),
{
    let mut v: Vec<(String, String)> = no_values();
    put(&mut v, "Current Monitor Out Audio Source", "Auto");
    put(&mut v, "Available Monitor Out Audio Sources", "Auto, SDI In, Remote Source");
    assert(pairs(v@) =~= audio_values());
    v
}

fn interface_kvs() -> (r: Vec<(String, String)>)
    ensures
        pairs(r@) == interface_values(),
{
    let mut v: Vec<(String, String)> = no_values();
    put(&mut v, "Name", "Ethernet");
    put(&mut v, "Priority", "1");
    put(&mut v, "MAC Address", "00:11:22:33:44:55");
    put(&mut v, "Dynamic IP", "true");
    put(&mut v, "Current Addresses", "0.0.0.0/255.255.255.0");
    put(&mut v, "Current Gateway", "0.0.0.0");
    put(&mut v, "Current DNS Servers", "");
    put(&mut v, "Static Addresses", "0.0.0.0/255.255.255.0");
    put(&mut v, "Static Gateway", "0.0.0.0");
    put(&mut v, "Static DNS Servers", "8.8.8.8, 8.8.4.4");
    proof {
        reveal_strlit("");
        assert(""@ =~= Seq::<char>::empty());
    }
    assert(pairs(v@) =~= interface_values());
    v
}

fn shown_servers(servers: &Vec<ServerSnapshot>) -> (r: String)
    ensures
        r@ == (if servers@.len() == 0 {
            "SRT"@
        } else {
            joined(server_names(servers@), ", "@)
        }),
{
    if servers.len() == 0 {
        return "SRT".to_owned();
    }
    let mut names: Vec<String> = Vec::new();
    let mut i: usize = 0;
    while i < servers.len()
        invariant
            i <= servers@.len(),
            names@.len() == i,
            forall|j: int| 0 <= j < i ==> (#[trigger] names@[j])@ == servers@[j].name@,
        decreases servers@.len() - i,
    {
        names.push(servers[i].name.clone());
        i += 1;
    }
    assert(texts(names@) =~= server_names(servers@));
    join(&names, ", ")
}

/// What the stream is set to.
pub fn stream_settings_kvs(snap: &Snapshot) -> (r: Vec<(String, String)>)
    ensures
        pairs(r@) == stream_settings_values(*snap),
{
    let modes: Vec<String> = available_video_modes();
    let all_modes: String = join(&modes, ", ");
    let services: String = join(&snap.available_services, ", ");
    let servers: String = shown_servers(&snap.available_servers);
    let service: &str = if snap.current_service_name.as_str().is_empty() {
        "My Platform"
    } else {
        snap.current_service_name.as_str()
    };
    let mut v: Vec<(String, String)> = no_values();
    put(&mut v, "Available Video Modes", all_modes.as_str());
    put(&mut v, "Video Mode", snap.video_mode.as_str());
    put(&mut v, "Current Platform", service);
    put(&mut v, "Current Server", snap.current_server_name.as_str());
    put(&mut v, "Current Quality Level", snap.quality_level.as_str());
    put(&mut v, "Stream Key", snap.stream_key.as_str());
    put(&mut v, "Password", snap.passphrase.as_str());
    put(&mut v, "Current URL", snap.current_url.as_str());
    put(&mut v, "Customizable URL", "true");
    put(&mut v, "Available Default Platforms", "");
    put(&mut v, "Available Custom Platforms", services.as_str());
    put(&mut v, "Available Servers", servers.as_str());
    put(
        &mut v,
        "Available Quality Levels",
        "Streaming High, Streaming Medium, Streaming Low",
    );
    proof {
        reveal_strlit("");
        assert(""@ =~= Seq::<char>::empty());
    }
    assert(pairs(v@) =~= stream_settings_values(*snap));
    v
}

/// How the stream does.
pub fn stream_state_kvs(snap: &Snapshot) -> (r: Vec<(String, String)>)
    ensures
        pairs(r@) == stream_state_values(*snap),
{
    let bitrate: String = show(snap.stats.bitrate);
    let cache: String = show(snap.stats.cache_used as u64);
    let mut v: Vec<(String, String)> = no_values();
    put(&mut v, "Status", snap.stats.status.as_str());
    put(&mut v, "Bitrate", bitrate.as_str());
    put(&mut v, "Duration", snap.stats.duration.as_str());
    put(&mut v, "Cache Used", cache.as_str());
    assert(pairs(v@) =~= stream_state_values(*snap));
    v
}

fn append(out: &mut Vec<Block>, header: &str, kvs: Vec<(String, String)>)
    ensures
        block_models(final(out)@) == block_models(old(out)@).push(
            BlockModel { header: header@, kvs: pairs(kvs@) },
        ),
{
    out.push(Block { header: header.to_owned(), kvs });
    assert(block_models(out@) =~= block_models(old(out)@).push(
        BlockModel { header: header@, kvs: pairs(kvs@) },
    ));
}

/// What a client is told when it connects.
pub fn preamble(snap: &Snapshot) -> (r: Vec<Block>)
    ensures
        block_models(r@) == preamble_blocks(*snap),
{
    let mut out: Vec<Block> = Vec::new();
    let mut version: Vec<(String, String)> = no_values();
    put(&mut version, "Version", "1.2");
    assert(pairs(version@) =~= seq![("Version"@, protocol_version())]);
    append(&mut out, "PROTOCOL PREAMBLE", version);
    append(&mut out, "IDENTITY", identity_kvs(snap));
    append(&mut out, "VERSION", version_kvs());
    let mut network: Vec<(String, String)> = no_values();
    put(&mut network, "Interface Count", "1");
    put(&mut network, "Default Interface", "0");
    assert(pairs(network@) =~= seq![("Interface Count"@, "1"@), ("Default Interface"@, "0"@)]);
    append(&mut out, "NETWORK", network);
    append(&mut out, "NETWORK INTERFACE 0", interface_kvs());
    append(&mut out, "UI SETTINGS", ui_kvs());
    append(&mut out, "STREAM SETTINGS", stream_settings_kvs(snap));
    let services: String = join(&snap.available_services, ", ");
    let mut files: Vec<(String, String)> = no_values();
    put(&mut files, "Files", services.as_str());
    assert(pairs(files@) =~= seq![("Files"@, services@)]);
    append(&mut out, "STREAM XML", files);
    append(&mut out, "STREAM STATE", stream_state_kvs(snap));
    append(&mut out, "AUDIO SETTINGS", audio_kvs());
    append(&mut out, "END PRELUDE", no_values());
    assert(block_models(out@) =~= preamble_blocks(*snap));
    out
}

// ---------------------------------------------------------------------------
// Requests
// ---------------------------------------------------------------------------

/// The change after one more value of a stream settings block. A video mode that
/// the encoder does not have is passed over, as are names that are not known.
pub open spec fn setting_read(u: UpdateModel, kv: (Seq<char>, Seq<char>)) -> UpdateModel {
    if kv.0 == "Video Mode"@ && video_modes().contains(kv.1) {
        UpdateModel { video_mode: Some(kv.1), ..u }
    } else if kv.0 == "Current Platform"@ {
        UpdateModel { current_service_name: Some(kv.1), ..u }
    } else if kv.0 == "Current Quality Level"@ {
        UpdateModel { quality_level: Some(kv.1), ..u }
    } else if kv.0 == "Stream Key"@ {
        UpdateModel { stream_key: Some(kv.1), ..u }
    } else if kv.0 == "Password"@ {
        UpdateModel { passphrase: Some(kv.1), ..u }
    } else if kv.0 == "Current Server"@ {
        UpdateModel { current_server_name: Some(kv.1), ..u }
    } else {
        u
    }
}

/// The change that a stream settings block asks for; of values with one name, the
/// last counts.
pub open spec fn settings_read(kvs: Seq<(Seq<char>, Seq<char>)>) -> UpdateModel
    decreases kvs.len(),
{
    if kvs.len() == 0 {
        no_update()
    } else {
        setting_read(settings_read(kvs.drop_last()), kvs.last())
    }
}

/// The encoder after an identity block: it gets the last label in it.
pub open spec fn relabelled(s: EncoderModel, kvs: Seq<(Seq<char>, Seq<char>)>) -> EncoderModel
    decreases kvs.len(),
{
    if kvs.len() == 0 {
        s
    } else if kvs.last().0 == "Label"@ {
        EncoderModel { label: kvs.last().1, ..relabelled(s, kvs.drop_last()) }
    } else {
        relabelled(s, kvs.drop_last())
    }
}

/// What a client wants of the stream.
#[derive(Clone, Copy, Debug, PartialEq, Eq, Structural)]
pub enum StreamAction {
    Start,
    Stop,
}

/// What a value of a stream state block asks for.
pub open spec fn action_of(kv: (Seq<char>, Seq<char>)) -> Option<StreamAction> {
    if kv.0 != "Action"@ {
        None
    } else if lowered(trimmed(kv.1)) == "start"@ {
        Some(StreamAction::Start)
    } else if lowered(trimmed(kv.1)) == "stop"@ {
        Some(StreamAction::Stop)
    } else {
        None
    }
}

/// What a stream state block asks for, in order.
pub open spec fn actions_of(kvs: Seq<(Seq<char>, Seq<char>)>) -> Seq<StreamAction>
    decreases kvs.len(),
{
    if kvs.len() == 0 {
        Seq::empty()
    } else {
        match action_of(kvs.last()) {
            Some(a) => actions_of(kvs.drop_last()).push(a),
            None => actions_of(kvs.drop_last()),
        }
    }
}

/// A value of a shutdown block asks for a reset.
pub open spec fn is_reset(kv: (Seq<char>, Seq<char>)) -> bool {
    kv.0 == "Action"@ && same_ignoring_case(trimmed(kv.1), "factory reset"@)
}

/// A shutdown block asks for a reset.
pub open spec fn asks_reset(kvs: Seq<(Seq<char>, Seq<char>)>) -> bool {
    exists|i: int| 0 <= i < kvs.len() && is_reset(#[trigger] kvs[i])
}

/// The block is taken note of and nothing else.
pub open spec fn is_ignored(header: Seq<char>) -> bool {
    header == "STREAM XML"@ || header == "NETWORK INTERFACE 0"@ || header == "UI SETTINGS"@ || header
        == "AUDIO SETTINGS"@
}

/// What is left to do for a block.
#[derive(Debug)]
pub enum Todo {
    /// Nothing: it is done.
    Done,
    /// It cannot be done.
    Refused,
    /// The stream has to be started or stopped, in this order, until one fails.
    Stream(Vec<StreamAction>),
    /// The stream has to be stopped and its error forgotten.
    Reset,
}

/// `t` is what is left to do for a block.
pub open spec fn leaves(b: BlockModel, t: Todo) -> bool {
    if b.header == "IDENTITY"@ || b.header == "STREAM SETTINGS"@ {
        t is Done
    } else if b.header == "STREAM STATE"@ {
        t matches Todo::Stream(a) && a@ == actions_of(b.kvs)
    } else if is_ignored(b.header) {
        t is Done
    } else if b.header == "SHUTDOWN"@ {
        if asks_reset(b.kvs) {
            t is Reset
        } else {
            t is Done
        }
    } else {
        t is Refused
    }
}

/// The encoder after a block.
pub open spec fn after_block(s: EncoderModel, b: BlockModel) -> EncoderModel {
    if b.header == "IDENTITY"@ {
        relabelled(s, b.kvs)
    } else if b.header == "STREAM SETTINGS"@ {
        applied(s, settings_read(b.kvs))
    } else {
        s
    }
}

/// The change that a stream settings block asks for.
pub fn read_stream_settings(kvs: &Vec<(String, String)>) -> (r: SettingsUpdate)
    ensures
        r@ == settings_read(pairs(kvs@)),
{
    let ghost p = pairs(kvs@);
    let modes: Vec<String> = available_video_modes();
    let mut update: SettingsUpdate = SettingsUpdate::default();
    let mut i: usize = 0;
    assert(p.take(0).len() == 0);
    while i < kvs.len()
        invariant
            i <= kvs@.len(),
            p == pairs(kvs@),
            texts(modes@) == video_modes(),
            update@ == settings_read(p.take(i as int)),
        decreases kvs@.len() - i,
    {
        assert(p.take(i + 1).drop_last() == p.take(i as int));
        assert(p.take(i + 1).last() == (kvs@[i as int].0@, kvs@[i as int].1@));
        let kv: &(String, String) = &kvs[i];
        let k: &str = kv.0.as_str();
        if same(k, "Video Mode") && known(kv.1.as_str(), &modes) {
            update.video_mode = Some(kv.1.clone());
        } else if same(k, "Current Platform") {
            update.current_service_name = Some(kv.1.clone());
        } else if same(k, "Current Quality Level") {
            update.quality_level = Some(kv.1.clone());
        } else if same(k, "Stream Key") {
            update.stream_key = Some(kv.1.clone());
        } else if same(k, "Password") {
            update.passphrase = Some(kv.1.clone());
        } else if same(k, "Current Server") {
            update.current_server_name = Some(kv.1.clone());
        }
        i += 1;
    }
    assert(p.take(i as int) == p);
    update
}

/// What a stream state block asks for, in order.
pub fn read_stream_actions(kvs: &Vec<(String, String)>) -> (r: Vec<StreamAction>)
    ensures
        r@ == actions_of(pairs(kvs@)),
{
    let ghost p = pairs(kvs@);
    let mut out: Vec<StreamAction> = Vec::new();
    let mut i: usize = 0;
    assert(p.take(0).len() == 0);
    while i < kvs.len()
        invariant
            i <= kvs@.len(),
            p == pairs(kvs@),
            out@ == actions_of(p.take(i as int)),
        decreases kvs@.len() - i,
    {
        assert(p.take(i + 1).drop_last() == p.take(i as int));
        assert(p.take(i + 1).last() == (kvs@[i as int].0@, kvs@[i as int].1@));
        let kv: &(String, String) = &kvs[i];
        if same(kv.0.as_str(), "Action") {
            let word: String = trim(kv.1.as_str());
            let low: String = to_lower(word.as_str());
            if same(low.as_str(), "start") {
                out.push(StreamAction::Start);
            } else if same(low.as_str(), "stop") {
                out.push(StreamAction::Stop);
            }
        }
        i += 1;
    }
    assert(p.take(i as int) == p);
    out
}

fn wants_reset(kvs: &Vec<(String, String)>) -> (r: bool)
    ensures
        r == asks_reset(pairs(kvs@)),
{
    let ghost p = pairs(kvs@);
    let reset: String = to_ascii_lower("factory reset");
    let mut i: usize = 0;
    while i < kvs.len()
        invariant
            i <= kvs@.len(),
            p == pairs(kvs@),
            reset@ == crate::number::ascii_lower("factory reset"@),
            forall|j: int| 0 <= j < i ==> !is_reset(#[trigger] p[j]),
        decreases kvs@.len() - i,
    {
        assert(p[i as int] == (kvs@[i as int].0@, kvs@[i as int].1@));
        let kv: &(String, String) = &kvs[i];
        if same(kv.0.as_str(), "Action") {
            let word: String = trim(kv.1.as_str());
            let low: String = to_ascii_lower(word.as_str());
            if same(low.as_str(), reset.as_str()) {
                assert(is_reset(p[i as int]));
                return true;
            }
        }
        i += 1;
    }
    false
}

fn relabel(state: &mut EncoderState, kvs: &Vec<(String, String)>)
    ensures
        final(state)@ == relabelled(old(state)@, pairs(kvs@)),
        final(state).stats == old(state).stats,
{
    let ghost p = pairs(kvs@);
    let mut i: usize = 0;
    assert(p.take(0).len() == 0);
    while i < kvs.len()
        invariant
            i <= kvs@.len(),
            p == pairs(kvs@),
            state@ == relabelled(old(state)@, p.take(i as int)),
            state.stats == old(state).stats,
        decreases kvs@.len() - i,
    {
        assert(p.take(i + 1).drop_last() == p.take(i as int));
        assert(p.take(i + 1).last() == (kvs@[i as int].0@, kvs@[i as int].1@));
        let kv: &(String, String) = &kvs[i];
        if same(kv.0.as_str(), "Label") {
            state.set_label(kv.1.as_str());
        }
        i += 1;
    }
    assert(p.take(i as int) == p);
}

proof fn relabelled_keeps_the_rest(s: EncoderModel, kvs: Seq<(Seq<char>, Seq<char>)>)
    ensures
        relabelled(s, kvs) == (EncoderModel { label: relabelled(s, kvs).label, ..s }),
    decreases kvs.len(),
{
    if kvs.len() > 0 {
        relabelled_keeps_the_rest(s, kvs.drop_last());
    }
}

/// Takes a client's block: sets what it sets, and says what is left to do.
pub fn take_block(state: &mut EncoderState, block: &Block) -> (r: Todo)
    requires
        old(state).valid(),
    ensures
        final(state)@ == after_block(old(state)@, block@),
        final(state).valid(),
        final(state).stats == old(state).stats,
        leaves(block@, r),
{
    let header: &str = block.header.as_str();
    if same(header, "IDENTITY") {
        relabel(state, &block.kvs);
        proof {
            relabelled_keeps_the_rest(old(state)@, block@.kvs);
        }
        Todo::Done
    } else if same(header, "STREAM SETTINGS") {
        let update: SettingsUpdate = read_stream_settings(&block.kvs);
        state.apply_settings(&update);
        Todo::Done
    } else if same(header, "STREAM STATE") {
        Todo::Stream(read_stream_actions(&block.kvs))
    } else if same(header, "STREAM XML") || same(header, "NETWORK INTERFACE 0") || same(
        header,
        "UI SETTINGS",
    ) || same(header, "AUDIO SETTINGS") {
        Todo::Done
    } else if same(header, "SHUTDOWN") {
        if wants_reset(&block.kvs) {
            Todo::Reset
        } else {
            Todo::Done
        }
    } else {
        Todo::Refused
    }
}

/// What is told of a block that cannot be done.
pub open spec fn refusal() -> Seq<char> {
    "unknown block header"@
}

/// What is told of a block that cannot be done.
pub fn refusal_text() -> (r: String)
    ensures
        r@ == refusal(),
{
    "unknown block header".to_owned()
}

// ---------------------------------------------------------------------------
// Answers
// ---------------------------------------------------------------------------

/// What the client is answered: that its block was taken, or that it was not and
/// why.
pub open spec fn answer_blocks(error: Option<Seq<char>>) -> Seq<BlockModel> {
    match error {
        None => seq![BlockModel { header: "ACK"@, kvs: Seq::empty() }],
        Some(message) => seq![
            BlockModel { header: "NACK"@, kvs: Seq::empty() },
            BlockModel { header: "ERROR"@, kvs: seq![("Message"@, message)] },
        ],
    }
}

/// What all clients are told after a block was taken: the status that it touched.
pub open spec fn news(header: Seq<char>, n: Snapshot) -> Option<BlockModel> {
    if header == "STREAM SETTINGS"@ {
        Some(BlockModel { header, kvs: stream_settings_values(n) })
    } else if header == "STREAM STATE"@ {
        Some(BlockModel { header, kvs: stream_state_values(n) })
    } else if header == "IDENTITY"@ {
        Some(BlockModel { header, kvs: identity_values(n) })
    } else if header == "AUDIO SETTINGS"@ {
        Some(BlockModel { header, kvs: audio_values() })
    } else {
        None
    }
}

/// The answer to the client, and the news for all clients.
#[derive(Debug)]
pub struct Answer {
    pub blocks: Vec<Block>,
    pub news: Option<Block>,
}

/// The news for all clients after a block was taken.
pub fn broadcast_after(header: &str, snap: &Snapshot) -> (r: Option<Block>)
    ensures
        block_model(r) == news(header@, *snap),
{
    let kvs: Vec<(String, String)> = if same(header, "STREAM SETTINGS") {
        stream_settings_kvs(snap)
    } else if same(header, "STREAM STATE") {
        stream_state_kvs(snap)
    } else if same(header, "IDENTITY") {
        identity_kvs(snap)
    } else if same(header, "AUDIO SETTINGS") {
        audio_kvs()
    } else {
        return None;
    };
    Some(Block { header: header.to_owned(), kvs })
}

/// The answer to a block with the header, after it was done or failed with an
/// error. News come only if it was done.
pub fn answer(header: &str, error: &Option<String>, snap: &Snapshot) -> (r: Answer)
    ensures
        block_models(r.blocks@) == answer_blocks(opt_text(*error)),
        block_model(r.news) == (if error is None {
            news(header@, *snap)
        } else {
            None
        }),
{
    let mut blocks: Vec<Block> = Vec::new();
    match error {
        None => {
            append(&mut blocks, "ACK", no_values());
            assert(block_models(blocks@) =~= answer_blocks(None));
            Answer { blocks, news: broadcast_after(header, snap) }
        },
        Some(message) => {
            append(&mut blocks, "NACK", no_values());
            let mut v: Vec<(String, String)> = no_values();
            put(&mut v, "Message", message.as_str());
            assert(pairs(v@) =~= seq![("Message"@, message@)]);
            append(&mut blocks, "ERROR", v);
            assert(block_models(blocks@) =~= answer_blocks(Some(message@)));
            Answer { blocks, news: None }
        },
    }
}

/// The figures when a stream that a client asked for could not be started.
pub fn start_refused(stats: &mut StreamStats, error: &str)
    ensures
        final(stats)@ == (StatsModel {
            status: "Interrupted"@,
            error: Some(error@),
            ..old(stats)@
        }),
{
    stats.status = "Interrupted".to_owned();
    stats.error = Some(error.to_owned());
}

/// A block with a header that is not known changes nothing and is refused.
pub proof fn unknown_blocks_are_refused(s: EncoderModel, b: BlockModel, t: Todo)
    requires
        leaves(b, t),
    ensures
        t is Refused <==> !(b.header == "IDENTITY"@ || b.header == "STREAM SETTINGS"@ || b.header
            == "STREAM STATE"@ || b.header == "SHUTDOWN"@ || is_ignored(b.header)),
        t is Refused ==> after_block(s, b) == s,
{
}

/// The video mode that a client sets with a stream settings block is never one that the
/// encoder cannot have.
pub proof fn read_video_modes_are_known(kvs: Seq<(Seq<char>, Seq<char>)>)
    ensures
        settings_read(kvs).video_mode matches Some(m) ==> video_modes().contains(m),
    decreases kvs.len(),
{
    if kvs.len() > 0 {
        read_video_modes_are_known(kvs.drop_last());
    }
}

// ---------------------------------------------------------------------------
// Reading back
// ---------------------------------------------------------------------------

/// `s` is a value that can be read back: it stands on one line, and no whitespace
/// stands at its ends.
pub open spec fn is_value(s: Seq<char>) -> bool {
    trimmed(s) == s && forall|i: int| 0 <= i < s.len() ==> #[trigger] s[i] != '\n'
}

/// A block that can be read back: its header, names and values can be, and no colon
/// stands in a name.
pub open spec fn is_readable(b: BlockModel) -> bool {
    &&& is_value(b.header)
    &&& forall|i: int|
        0 <= i < b.kvs.len() ==> is_value((#[trigger] b.kvs[i]).0) && is_value(b.kvs[i].1)
            && forall|j: int| 0 <= j < b.kvs[i].0.len() ==> b.kvs[i].0[j] != ':'
}

/// The line of a named value.
pub open spec fn pair_line(kv: (Seq<char>, Seq<char>)) -> Seq<char> {
    kv.0 + ": "@ + kv.1
}

/// The lines of named values.
pub open spec fn pair_lines(kvs: Seq<(Seq<char>, Seq<char>)>) -> Seq<Seq<char>> {
    Seq::new(kvs.len(), |i: int| pair_line(kvs[i]))
}

/// The lines of a block.
pub open spec fn block_lines(b: BlockModel) -> Seq<Seq<char>> {
    seq![b.header + ":"@] + pair_lines(b.kvs) + seq![Seq::<char>::empty()]
}

/// The lines of blocks.
pub open spec fn blocks_lines(bs: Seq<BlockModel>) -> Seq<Seq<char>>
    decreases bs.len(),
{
    if bs.len() == 0 {
        Seq::empty()
    } else {
        blocks_lines(bs.drop_last()) + block_lines(bs.last())
    }
}

proof fn one_line_text(l: Seq<char>)
    ensures
        text_of_lines(seq![l]) == l + "\n"@,
{
    let rest = seq![l].drop_first();
    assert(rest.len() == 0);
    assert(text_of_lines(rest) =~= Seq::<char>::empty());
    assert(l + "\n"@ + Seq::<char>::empty() =~= l + "\n"@);
}

proof fn pairs_text_is_lines(kvs: Seq<(Seq<char>, Seq<char>)>)
    ensures
        pairs_text(kvs) == text_of_lines(pair_lines(kvs)),
    decreases kvs.len(),
{
    if kvs.len() > 0 {
        let front = kvs.drop_last();
        let last = pair_line(kvs.last());
        pairs_text_is_lines(front);
        assert(pair_lines(kvs) =~= pair_lines(front) + seq![last]);
        text_of_lines_concat(pair_lines(front), seq![last]);
        one_line_text(last);
        assert(pairs_text(kvs) =~= pairs_text(front) + (last + "\n"@));
    } else {
        assert(pairs_text(kvs) =~= text_of_lines(pair_lines(kvs)));
    }
}

proof fn block_text_is_lines(b: BlockModel)
    ensures
        block_text(b) == text_of_lines(block_lines(b)),
{
    let h = b.header + ":"@;
    let e = Seq::<char>::empty();
    pairs_text_is_lines(b.kvs);
    one_line_text(h);
    one_line_text(e);
    text_of_lines_concat(seq![h] + pair_lines(b.kvs), seq![e]);
    text_of_lines_concat(seq![h], pair_lines(b.kvs));
    reveal_strlit(":");
    reveal_strlit("\n");
    reveal_strlit(":\n");
    assert(":"@ + "\n"@ =~= ":\n"@);
    assert(block_text(b) =~= (h + "\n"@) + pairs_text(b.kvs) + (e + "\n"@));
}

proof fn blocks_text_is_lines(bs: Seq<BlockModel>)
    ensures
        blocks_text(bs) == text_of_lines(blocks_lines(bs)),
    decreases bs.len(),
{
    if bs.len() > 0 {
        blocks_text_is_lines(bs.drop_last());
        block_text_is_lines(bs.last());
        text_of_lines_concat(blocks_lines(bs.drop_last()), block_lines(bs.last()));
    } else {
        assert(blocks_text(bs) =~= text_of_lines(blocks_lines(bs)));
    }
}

proof fn header_line(h: Seq<char>)
    requires
        is_value(h),
    ensures
        is_line(h + ":"@),
        pending_after(None, h + ":"@) == Some(BlockModel { header: h, kvs: Seq::empty() }),
        finished_by(None, h + ":"@) is None,
{
    reveal_strlit(":");
    let l = h + ":"@;
    assert(l.last() == ':');
    not_blank(l, l.len() - 1);
    assert(without_last(l, '\r') == l);
    assert(l.drop_last() =~= h);
    assert forall|i: int| 0 <= i < l.len() implies #[trigger] l[i] != '\n' by {
        if i < h.len() {
            assert(l[i] == h[i]);
        }
    }
}

proof fn value_line(b: BlockModel, kv: (Seq<char>, Seq<char>))
    requires
        is_value(kv.0),
        is_value(kv.1),
        forall|j: int| 0 <= j < kv.0.len() ==> kv.0[j] != ':',
    ensures
        is_line(pair_line(kv)),
        pending_after(Some(b), pair_line(kv)) == Some(
            BlockModel { header: b.header, kvs: b.kvs.push(kv) },
        ),
        finished_by(Some(b), pair_line(kv)) is None,
{
    reveal_strlit(": ");
    let l = pair_line(kv);
    let n = kv.0.len() as int;
    assert(l[n] == ':');
    assert(l[n + 1] == ' ');
    not_blank(l, n);
    assert forall|i: int| 0 <= i < l.len() implies #[trigger] l[i] != '\n' by {
        if i < n {
            assert(l[i] == kv.0[i]);
        } else if i >= n + 2 {
            assert(l[i] == kv.1[i - n - 2]);
        }
    }
    if kv.1.len() > 0 {
        trimmed_text_ends(kv.1);
        assert(l.last() == kv.1.last());
    } else {
        assert(l.last() == ' ');
    }
    assert(without_last(l, '\r') == l);
    assert forall|j: int| 0 <= j < n implies l[j] != ':' by {
        assert(l[j] == kv.0[j]);
    }
    position_is(l, ':', n);
    assert(l.take(n) =~= kv.0);
    let tail = l.skip(n + 1);
    assert(tail[0] == ' ');
    assert(tail.drop_first() =~= kv.1);
    assert(trimmed_start(tail) == trimmed_start(kv.1));
    assert(trimmed(tail) == kv.1);
}

proof fn read_lines_concat(r: Reading, a: Seq<Seq<char>>, b: Seq<Seq<char>>)
    ensures
        read_lines(r, a + b) == read_lines(read_lines(r, a), b),
    decreases b.len(),
{
    if b.len() == 0 {
        assert(a + b =~= a);
    } else {
        assert((a + b).drop_last() =~= a + b.drop_last());
        read_lines_concat(r, a, b.drop_last());
    }
}

proof fn read_values(r: Reading, h: Seq<char>, kvs: Seq<(Seq<char>, Seq<char>)>)
    requires
        r.pending == Some(BlockModel { header: h, kvs: Seq::<(Seq<char>, Seq<char>)>::empty() }),
        is_readable(BlockModel { header: h, kvs }),
    ensures
        read_lines(r, pair_lines(kvs)) == (Reading {
            pending: Some(BlockModel { header: h, kvs }),
            blocks: r.blocks,
        }),
        forall|i: int| 0 <= i < kvs.len() ==> is_line(#[trigger] pair_lines(kvs)[i]),
    decreases kvs.len(),
{
    let all = pair_lines(kvs);
    if kvs.len() > 0 {
        let front = kvs.drop_last();
        let b = BlockModel { header: h, kvs };
        assert forall|i: int| 0 <= i < front.len() implies is_value((#[trigger] front[i]).0)
            && is_value(front[i].1) && forall|j: int|
            0 <= j < front[i].0.len() ==> front[i].0[j] != ':' by {
            assert(front[i] == b.kvs[i]);
        }
        read_values(r, h, front);
        assert(all.drop_last() =~= pair_lines(front));
        let last = b.kvs[kvs.len() - 1];
        value_line(BlockModel { header: h, kvs: front }, last);
        assert(front.push(last) =~= kvs);
        assert forall|i: int| 0 <= i < kvs.len() implies is_line(#[trigger] all[i]) by {
            if i < front.len() {
                assert(all[i] == pair_lines(front)[i]);
            }
        }
    } else {
        assert(kvs =~= Seq::empty());
        assert(all.len() == 0);
    }
}

proof fn read_block(r: Reading, b: BlockModel)
    requires
        r.pending is None,
        is_readable(b),
    ensures
        read_lines(r, block_lines(b)) == (Reading { pending: None, blocks: r.blocks.push(b) }),
        forall|i: int|
            0 <= i < block_lines(b).len() ==> is_line(#[trigger] block_lines(b)[i]),
{
    let h = b.header + ":"@;
    let e = Seq::<char>::empty();
    let lines = block_lines(b);
    header_line(b.header);
    let opened = read_line(r, h);
    assert(seq![h].drop_last().len() == 0);
    assert(read_lines(r, seq![h].drop_last()) == r);
    assert(read_lines(r, seq![h]) == opened);
    read_values(opened, b.header, b.kvs);
    read_lines_concat(r, seq![h], pair_lines(b.kvs));
    read_lines_concat(r, seq![h] + pair_lines(b.kvs), seq![e]);
    let full = read_lines(opened, pair_lines(b.kvs));
    assert(seq![e].drop_last().len() == 0);
    assert(read_lines(full, seq![e].drop_last()) == full);
    assert(is_blank(without_last(e, '\r')));
    assert(b == BlockModel { header: b.header, kvs: b.kvs });
    assert forall|i: int| 0 <= i < lines.len() implies is_line(#[trigger] lines[i]) by {
        if i == 0 {
        } else if i < lines.len() - 1 {
            assert(lines[i] == pair_lines(b.kvs)[i - 1]);
        }
    }
}

proof fn read_blocks(bs: Seq<BlockModel>)
    requires
        forall|i: int| 0 <= i < bs.len() ==> is_readable(#[trigger] bs[i]),
    ensures
        read_lines(nothing_read(), blocks_lines(bs)) == (Reading { pending: None, blocks: bs }),
        forall|i: int|
            0 <= i < blocks_lines(bs).len() ==> is_line(#[trigger] blocks_lines(bs)[i]),
    decreases bs.len(),
{
    if bs.len() > 0 {
        let front = bs.drop_last();
        assert forall|i: int| 0 <= i < front.len() implies is_readable(#[trigger] front[i]) by {
            assert(front[i] == bs[i]);
        }
        read_blocks(front);
        let a = blocks_lines(front);
        let z = block_lines(bs.last());
        assert(is_readable(bs[bs.len() - 1]));
        read_block(Reading { pending: None, blocks: front }, bs.last());
        read_lines_concat(nothing_read(), a, z);
        assert(front.push(bs.last()) =~= bs);
        assert forall|i: int| 0 <= i < blocks_lines(bs).len() implies is_line(
            #[trigger] blocks_lines(bs)[i],
        ) by {
            if i < a.len() {
                assert(blocks_lines(bs)[i] == a[i]);
            } else {
                assert(blocks_lines(bs)[i] == z[i - a.len()]);
            }
        }
    } else {
        assert(bs =~= Seq::empty());
    }
}

/// A reader that is given the lines of the text of some blocks finds the same
/// blocks.
pub proof fn blocks_read_back(bs: Seq<BlockModel>)
    requires
        forall|i: int| 0 <= i < bs.len() ==> is_readable(#[trigger] bs[i]),
    ensures
        read_lines(nothing_read(), lines_of(blocks_text(bs))) == (Reading {
            pending: None,
            blocks: bs,
        }),
{
    read_blocks(bs);
    blocks_text_is_lines(bs);
    lines_read_back(blocks_lines(bs));
}

} // verus!
