//! Capture devices and cards, read out of what FFmpeg prints about them.
use vstd::prelude::*;
use vstd::string::*;

use crate::number::{lowered, parse_i64, parsed_signed, to_lower};
use crate::patterns::{captures, group_text, is_match, pattern_captures, pattern_matches, Captured};
use crate::scan::{contains, holds, lines, lines_of, pieces, split, trim, trimmed};
use crate::text::{opt_text, same, texts};

verus! {

// ---------------------------------------------------------------------------
// Devices
// ---------------------------------------------------------------------------

/// What a device captures.
#[derive(Clone, Copy, Debug, PartialEq, Eq, Hash, Structural)]
pub enum DeviceKind {
    Video,
    Audio,
}

/// A capture device.
#[derive(Clone, Debug)]
pub struct Device {
    pub index: i32,
    pub name: String,
    pub kind: DeviceKind,
    pub category: String,
}

/// What a `Device` holds.
pub struct DeviceModel {
    pub index: int,
    pub name: Seq<char>,
    pub kind: DeviceKind,
    pub category: Seq<char>,
}

impl View for Device {
    type V = DeviceModel;

    open spec fn view(&self) -> DeviceModel {
        DeviceModel {
            index: self.index as int,
            name: self.name@,
            kind: self.kind,
            category: self.category@,
        }
    }
}

/// What the devices of a list hold.
pub open spec fn device_models(v: Seq<Device>) -> Seq<DeviceModel> {
    Seq::new(v.len(), |i: int| v[i]@)
}

/// The capture devices, and when they were looked for.
#[derive(Clone, Debug)]
pub struct DeviceList {
    pub video: Vec<Device>,
    pub audio: Vec<Device>,
    pub scanned_at: Option<u64>,
}

impl Default for DeviceList {
    /// No devices, and no scan yet.
    fn default() -> (r: Self)
        ensures
            r.video@.len() == 0,
            r.audio@.len() == 0,
            r.scanned_at is None,
    {
        DeviceList { video: Vec::new(), audio: Vec::new(), scanned_at: None }
    }
}

impl Device {
    /// A copy that holds the same.
    pub fn duplicate(&self) -> (r: Device)
        ensures
            r@ == self@,
    {
        Device {
            index: self.index,
            name: self.name.clone(),
            kind: self.kind,
            category: self.category.clone(),
        }
    }
}

/// A copy of a list of devices.
pub fn copy_devices(v: &Vec<Device>) -> (r: Vec<Device>)
    ensures
        device_models(r@) == device_models(v@),
{
    let mut out: Vec<Device> = Vec::new();
    let mut i: usize = 0;
    while i < v.len()
        invariant
            i <= v@.len(),
            out@.len() == i,
            forall|j: int| 0 <= j < i ==> (#[trigger] out@[j])@ == v@[j]@,
        decreases v@.len() - i,
    {
        out.push(v[i].duplicate());
        i += 1;
    }
    assert(device_models(out@) =~= device_models(v@));
    out
}

/// How long, in seconds, a scan is good for.
pub const CACHE_TTL_SECS: u64 = 60;

/// A scan at `scanned_at` still counts at `now`.
pub open spec fn is_fresh(scanned_at: Option<u64>, now: u64) -> bool {
    match scanned_at {
        Some(t) => now < t || now - t < CACHE_TTL_SECS,
        None => false,
    }
}

/// Whether a scan at `scanned_at` still counts at `now`.
pub fn fresh(scanned_at: Option<u64>, now: u64) -> (r: bool)
    ensures
        r == is_fresh(scanned_at, now),
{
    match scanned_at {
        Some(t) => now < t || now - t < CACHE_TTL_SECS,
        None => false,
    }
}

/// Whether a request asks for a new scan.
pub fn is_forced(force: Option<&str>) -> (r: bool)
    ensures
        r == (match force {
            Some(f) => f@ == "1"@ || f@ == "true"@,
            None => false,
        }),
{
    match force {
        Some(f) => same(f, "1") || same(f, "true"),
        None => false,
    }
}

/// The devices that are known, unless they have to be looked for again: because
/// that is asked for, or because the last scan is too old.
pub fn list_capture_devices(cache: &DeviceList, force: bool, now: u64) -> (r: Option<DeviceList>)
    ensures
        r is Some <==> !force && is_fresh(cache.scanned_at, now),
        r matches Some(d) ==> device_models(d.video@) == device_models(cache.video@)
            && device_models(d.audio@) == device_models(cache.audio@) && d.scanned_at
            == cache.scanned_at,
{
    if !force && fresh(cache.scanned_at, now) {
        Some(
            DeviceList {
                video: copy_devices(&cache.video),
                audio: copy_devices(&cache.audio),
                scanned_at: cache.scanned_at,
            },
        )
    } else {
        None
    }
}

// ---------------------------------------------------------------------------
// Categories
// ---------------------------------------------------------------------------

/// The first category of a video device whose pattern matches its name.
pub open spec fn video_category(name: Seq<char>) -> Seq<char> {
    if pattern_matches(r"(?i)capture screen|desk view|screen capture|desktop"@, name) {
        "screen"@
    } else if pattern_matches(
        r"(?i)ultrastudio|decklink|intensity|aja|magewell|elgato|epiphan|wdm capture|blackmagic"@,
        name,
    ) {
        "capture_card"@
    } else if pattern_matches(r"(?i)\bndi\b"@, name) {
        "ndi"@
    } else if pattern_matches(r"(?i)iphone|ipad"@, name) {
        "iphone"@
    } else if pattern_matches(r"(?i)virtual|obs|sysram|loopback|syphon|vmix"@, name) {
        "virtual"@
    } else {
        "camera"@
    }
}

/// The first category of an audio device whose pattern matches its name.
pub open spec fn audio_category(name: Seq<char>) -> Seq<char> {
    if pattern_matches(r"(?i)\bndi\b"@, name) {
        "ndi"@
    } else if pattern_matches(
        r"(?i)virtual|loopback|aggregate|blackhole|soundflower|background music|stereo mix|vmix"@,
        name,
    ) {
        "virtual"@
    } else {
        "microphone"@
    }
}

/// The category of a device.
pub open spec fn category_of(name: Seq<char>, kind: DeviceKind) -> Seq<char> {
    match kind {
        DeviceKind::Video => video_category(name),
        DeviceKind::Audio => audio_category(name),
    }
}

/// The category of a device: what its name says it is, or else a camera or a
/// microphone.
pub fn categorize_device(name: &str, kind: DeviceKind) -> (r: String)
    ensures
        r@ == category_of(name@, kind),
{
    let hits: Vec<bool> = match kind {
        DeviceKind::Video => vec![
            is_match(r"(?i)capture screen|desk view|screen capture|desktop", name),
            is_match(
                r"(?i)ultrastudio|decklink|intensity|aja|magewell|elgato|epiphan|wdm capture|blackmagic",
                name,
            ),
            is_match(r"(?i)\bndi\b", name),
            is_match(r"(?i)iphone|ipad", name),
            is_match(r"(?i)virtual|obs|sysram|loopback|syphon|vmix", name),
        ],
        DeviceKind::Audio => vec![
            is_match(r"(?i)\bndi\b", name),
            is_match(
                r"(?i)virtual|loopback|aggregate|blackhole|soundflower|background music|stereo mix|vmix",
                name,
            ),
        ],
    };
    category_for(&hits, kind)
}

/// The category that the first pattern of `hits` that matched stands for.
pub open spec fn chosen_category(hits: Seq<bool>, kind: DeviceKind) -> Seq<char> {
    let on = |i: int| 0 <= i < hits.len() && hits[i];
    match kind {
        DeviceKind::Video => if on(0) {
            "screen"@
        } else if on(1) {
            "capture_card"@
        } else if on(2) {
            "ndi"@
        } else if on(3) {
            "iphone"@
        } else if on(4) {
            "virtual"@
        } else {
            "camera"@
        },
        DeviceKind::Audio => if on(0) {
            "ndi"@
        } else if on(1) {
            "virtual"@
        } else {
            "microphone"@
        },
    }
}

/// The category of a device, from which of the patterns of its kind matched its
/// name.
pub fn category_for(hits: &Vec<bool>, kind: DeviceKind) -> (r: String)
    ensures
        r@ == chosen_category(hits@, kind),
{
    let n: usize = hits.len();
    let r: &str = match kind {
        DeviceKind::Video => if n > 0 && hits[0] {
            "screen"
        } else if n > 1 && hits[1] {
            "capture_card"
        } else if n > 2 && hits[2] {
            "ndi"
        } else if n > 3 && hits[3] {
            "iphone"
        } else if n > 4 && hits[4] {
            "virtual"
        } else {
            "camera"
        },
        DeviceKind::Audio => if n > 0 && hits[0] {
            "ndi"
        } else if n > 1 && hits[1] {
            "virtual"
        } else {
            "microphone"
        },
    };
    r.to_owned()
}

// ---------------------------------------------------------------------------
// AVFoundation
// ---------------------------------------------------------------------------

/// The pattern for a device in AVFoundation's list.
pub open spec fn avf_device_line() -> Seq<char> {
    r"\[[^\]]+\]\s*\[(\d+)\]\s*(.+)$"@
}

/// The number that a text stands for as a device index; zero if for none.
pub open spec fn index_of_text(s: Seq<char>) -> int {
    match parsed_signed(s) {
        Some(n) => if -0x8000_0000 <= n <= 0x7FFF_FFFF {
            n
        } else {
            0
        },
        None => 0,
    }
}

fn parse_index(s: &str) -> (r: i32)
    ensures
        r == index_of_text(s@),
{
    match parse_i64(s) {
        Some(n) => if -0x8000_0000 <= n && n <= 0x7FFF_FFFF {
            n as i32
        } else {
            0
        },
        None => 0,
    }
}

/// The device that a match of `avf_device_line` describes.
pub open spec fn avf_device(c: Seq<Option<Seq<char>>>, kind: DeviceKind) -> DeviceModel {
    let name = trimmed(group_text(c, 2));
    DeviceModel {
        index: index_of_text(group_text(c, 1)),
        name,
        kind,
        category: category_of(name, kind),
    }
}

/// The device that a match of the pattern for AVFoundation's list describes.
pub fn avf_device_from(caps: &Captured, kind: DeviceKind) -> (r: Device)
    ensures
        r@ == avf_device(caps@, kind),
{
    let index_text: String = caps.group(1);
    let name_text: String = caps.group(2);
    let name: String = trim(name_text.as_str());
    let category: String = categorize_device(name.as_str(), kind);
    Device { index: parse_index(index_text.as_str()), name, kind, category }
}

/// The section that a line of AVFoundation's list opens.
pub open spec fn avf_header(line: Seq<char>) -> Option<DeviceKind> {
    if holds(lowered(line), "avfoundation video devices"@) {
        Some(DeviceKind::Video)
    } else if holds(lowered(line), "avfoundation audio devices"@) {
        Some(DeviceKind::Audio)
    } else {
        None
    }
}

/// The devices of one kind in lines of AVFoundation's list, in a section.
pub open spec fn avf_devices(
    lines: Seq<Seq<char>>,
    section: Option<DeviceKind>,
    kind: DeviceKind,
) -> Seq<DeviceModel>
    decreases lines.len(),
{
    if lines.len() == 0 {
        Seq::empty()
    } else {
        let rest = lines.drop_first();
        match avf_header(lines[0]) {
            Some(k) => avf_devices(rest, Some(k), kind),
            None => match pattern_captures(avf_device_line(), lines[0]) {
                Some(c) => if section == Some(kind) {
                    seq![avf_device(c, kind)] + avf_devices(rest, section, kind)
                } else {
                    avf_devices(rest, section, kind)
                },
                None => avf_devices(rest, section, kind),
            },
        }
    }
}

/// The video and the audio devices in AVFoundation's list.
pub fn parse_avfoundation(text: &str) -> (r: (Vec<Device>, Vec<Device>))
    ensures
        device_models(r.0@) == avf_devices(lines_of(text@), None, DeviceKind::Video),
        device_models(r.1@) == avf_devices(lines_of(text@), None, DeviceKind::Audio),
{
    let all: Vec<String> = lines(text);
    let ghost ls = texts(all@);
    let mut video: Vec<Device> = Vec::new();
    let mut audio: Vec<Device> = Vec::new();
    let mut section: Option<DeviceKind> = None;
    let mut i: usize = 0;
    assert(ls.skip(0) == ls);
    assert(device_models(video@) =~= Seq::<DeviceModel>::empty());
    assert(device_models(audio@) =~= Seq::<DeviceModel>::empty());
    assert(device_models(video@) + avf_devices(ls.skip(0), section, DeviceKind::Video)
        =~= avf_devices(ls, None, DeviceKind::Video));
    assert(device_models(audio@) + avf_devices(ls.skip(0), section, DeviceKind::Audio)
        =~= avf_devices(ls, None, DeviceKind::Audio));
    while i < all.len()
        invariant
            i <= all@.len(),
            ls == texts(all@),
            device_models(video@) + avf_devices(ls.skip(i as int), section, DeviceKind::Video)
                == avf_devices(ls, None, DeviceKind::Video),
            device_models(audio@) + avf_devices(ls.skip(i as int), section, DeviceKind::Audio)
                == avf_devices(ls, None, DeviceKind::Audio),
        decreases all@.len() - i,
    {
        let line: &str = all[i].as_str();
        assert(ls.skip(i as int)[0] == line@);
        assert(ls.skip(i as int).drop_first() == ls.skip(i + 1));
        let lower: String = to_lower(line);
        if contains(lower.as_str(), "avfoundation video devices") {
            section = Some(DeviceKind::Video);
        } else if contains(lower.as_str(), "avfoundation audio devices") {
            section = Some(DeviceKind::Audio);
        } else {
            let caps: Option<Captured> = captures(r"\[[^\]]+\]\s*\[(\d+)\]\s*(.+)$", line);
            if let (Some(kind), Some(c)) = (section, caps) {
                let ghost v0 = device_models(video@);
                let ghost a0 = device_models(audio@);
                let ghost rest_v = avf_devices(ls.skip(i + 1), section, DeviceKind::Video);
                let ghost rest_a = avf_devices(ls.skip(i + 1), section, DeviceKind::Audio);
                let d: Device = avf_device_from(&c, kind);
                let ghost m = d@;
                match kind {
                    DeviceKind::Video => {
                        video.push(d);
                        assert(device_models(video@) =~= v0.push(m));
                        assert(v0.push(m) + rest_v =~= v0 + (seq![m] + rest_v));
                    },
                    DeviceKind::Audio => {
                        audio.push(d);
                        assert(device_models(audio@) =~= a0.push(m));
                        assert(a0.push(m) + rest_a =~= a0 + (seq![m] + rest_a));
                    },
                }
            }
        }
        i += 1;
    }
    assert(ls.skip(i as int).len() == 0);
    assert(device_models(video@) =~= avf_devices(ls, None, DeviceKind::Video));
    assert(device_models(audio@) =~= avf_devices(ls, None, DeviceKind::Audio));
    (video, audio)
}

// ---------------------------------------------------------------------------
// DirectShow
// ---------------------------------------------------------------------------

/// The pattern for a device in DirectShow's list.
pub open spec fn dshow_device_line() -> Seq<char> {
    r#"\[(?:dshow|in#\d+) @ [^\]]+\]\s+"([^"]+)"(?:\s+\(([^)]*)\))?\s*$"#@
}

/// Whether a device captures video, and whether it captures audio.
#[derive(Clone, Copy, Debug, PartialEq, Eq, Structural)]
pub struct DshowKinds {
    pub video: bool,
    pub audio: bool,
}

/// `word` is one of the comma-separated parts of `marker`, in any case.
pub open spec fn marked(marker: Seq<char>, word: Seq<char>) -> bool {
    exists|i: int|
        0 <= i < pieces(marker, ',').len() && lowered(trimmed(#[trigger] pieces(marker, ',')[i]))
            == word
}

/// What a device captures: what its marker says, or else what the section says.
/// A device that FFmpeg cannot tell the kind of counts as video, as such devices
/// are virtual cameras.
pub open spec fn dshow_kinds(marker: Option<Seq<char>>, section: Option<DeviceKind>) -> DshowKinds {
    match marker {
        Some(m) => {
            let audio = marked(m, "audio"@);
            DshowKinds {
                video: marked(m, "video"@) || (!audio && marked(m, "none"@)),
                audio,
            }
        },
        None => DshowKinds {
            video: section == Some(DeviceKind::Video),
            audio: section == Some(DeviceKind::Audio),
        },
    }
}

/// What a device captures, from its marker and the section it is listed in.
pub fn resolve_dshow_kinds(marker: Option<&str>, section: Option<DeviceKind>) -> (r: DshowKinds)
    ensures
        r == dshow_kinds(
            match marker {
                Some(m) => Some(m@),
                None => None,
            },
            section,
        ),
{
    match marker {
        Some(m) => {
            let parts: Vec<String> = split(m, ',');
            let mut video: bool = false;
            let mut audio: bool = false;
            let mut none: bool = false;
            let mut i: usize = 0;
            let ghost ps = pieces(m@, ',');
            while i < parts.len()
                invariant
                    i <= parts@.len(),
                    texts(parts@) == ps,
                    video == exists|j: int|
                        0 <= j < i && lowered(trimmed(#[trigger] ps[j])) == "video"@,
                    audio == exists|j: int|
                        0 <= j < i && lowered(trimmed(#[trigger] ps[j])) == "audio"@,
                    none == exists|j: int|
                        0 <= j < i && lowered(trimmed(#[trigger] ps[j])) == "none"@,
                decreases parts@.len() - i,
            {
                let t: String = trim(parts[i].as_str());
                let w: String = to_lower(t.as_str());
                assert(ps[i as int] == parts@[i as int]@);
                assert(w@ == lowered(trimmed(ps[i as int])));
                if same(w.as_str(), "video") {
                    video = true;
                }
                if same(w.as_str(), "audio") {
                    audio = true;
                }
                if same(w.as_str(), "none") {
                    none = true;
                }
                i += 1;
            }
            assert(texts(parts@).len() == parts@.len());
            DshowKinds { video: video || (!audio && none), audio }
        },
        None => DshowKinds {
            video: section == Some(DeviceKind::Video),
            audio: section == Some(DeviceKind::Audio),
        },
    }
}

/// The section that a line of DirectShow's list opens.
pub open spec fn dshow_header(line: Seq<char>) -> Option<DeviceKind> {
    if holds(lowered(line), "directshow video devices"@) {
        Some(DeviceKind::Video)
    } else if holds(lowered(line), "directshow audio devices"@) {
        Some(DeviceKind::Audio)
    } else {
        None
    }
}

/// The device of one kind that a match of `dshow_device_line` describes, as the
/// next after `n` others.
pub open spec fn dshow_device(c: Seq<Option<Seq<char>>>, kind: DeviceKind, n: int) -> DeviceModel {
    let name = trimmed(group_text(c, 1));
    DeviceModel { index: n, name, kind, category: category_of(name, kind) }
}

/// The marker in a match of `dshow_device_line`.
pub open spec fn dshow_marker(c: Seq<Option<Seq<char>>>) -> Option<Seq<char>> {
    if 2 < c.len() {
        c[2]
    } else {
        None
    }
}

/// The match describes a device of the kind.
pub open spec fn dshow_has(
    c: Seq<Option<Seq<char>>>,
    section: Option<DeviceKind>,
    kind: DeviceKind,
) -> bool {
    let k = dshow_kinds(dshow_marker(c), section);
    match kind {
        DeviceKind::Video => k.video,
        DeviceKind::Audio => k.audio,
    }
}

/// The devices of one kind in lines of DirectShow's list, in a section, counted
/// on from `n`.
pub open spec fn dshow_devices(
    lines: Seq<Seq<char>>,
    section: Option<DeviceKind>,
    kind: DeviceKind,
    n: int,
) -> Seq<DeviceModel>
    decreases lines.len(),
{
    if lines.len() == 0 {
        Seq::empty()
    } else {
        let rest = lines.drop_first();
        match dshow_header(lines[0]) {
            Some(k) => dshow_devices(rest, Some(k), kind, n),
            None => match pattern_captures(dshow_device_line(), lines[0]) {
                Some(c) => if !holds(lowered(lines[0]), "alternative name"@) && dshow_has(
                    c,
                    section,
                    kind,
                ) {
                    seq![dshow_device(c, kind, n)] + dshow_devices(rest, section, kind, n + 1)
                } else {
                    dshow_devices(rest, section, kind, n)
                },
                None => dshow_devices(rest, section, kind, n),
            },
        }
    }
}

/// Adds the devices that a match of the pattern for DirectShow's list describes.
pub fn add_dshow_device(
    caps: &Captured,
    section: Option<DeviceKind>,
    video: &mut Vec<Device>,
    audio: &mut Vec<Device>,
)
    requires
        old(video)@.len() <= 0x7FFF_FFFF,
        old(audio)@.len() <= 0x7FFF_FFFF,
    ensures
        device_models(final(video)@) == (if dshow_has(caps@, section, DeviceKind::Video) {
            device_models(old(video)@).push(
                dshow_device(caps@, DeviceKind::Video, old(video)@.len() as int),
            )
        } else {
            device_models(old(video)@)
        }),
        device_models(final(audio)@) == (if dshow_has(caps@, section, DeviceKind::Audio) {
            device_models(old(audio)@).push(
                dshow_device(caps@, DeviceKind::Audio, old(audio)@.len() as int),
            )
        } else {
            device_models(old(audio)@)
        }),
{
    let raw: String = caps.group(1);
    let name: String = trim(raw.as_str());
    let marker: Option<String> = caps.optional(2);
    let kinds: DshowKinds = match &marker {
        Some(m) => resolve_dshow_kinds(Some(m.as_str()), section),
        None => resolve_dshow_kinds(None, section),
    };
    assert(opt_text(marker) == dshow_marker(caps@));
    if kinds.video {
        let category: String = categorize_device(name.as_str(), DeviceKind::Video);
        let index: i32 = video.len() as i32;
        video.push(Device { index, name: name.clone(), kind: DeviceKind::Video, category });
        assert(device_models(video@) =~= device_models(old(video)@).push(
            dshow_device(caps@, DeviceKind::Video, old(video)@.len() as int),
        ));
    }
    if kinds.audio {
        let category: String = categorize_device(name.as_str(), DeviceKind::Audio);
        let index: i32 = audio.len() as i32;
        audio.push(Device { index, name, kind: DeviceKind::Audio, category });
        assert(device_models(audio@) =~= device_models(old(audio)@).push(
            dshow_device(caps@, DeviceKind::Audio, old(audio)@.len() as int),
        ));
    }
}

/// The video and the audio devices in DirectShow's list.
pub fn parse_dshow(text: &str) -> (r: (Vec<Device>, Vec<Device>))
    requires
        lines_of(text@).len() <= 0x7FFF_FFFF,
    ensures
        device_models(r.0@) == dshow_devices(lines_of(text@), None, DeviceKind::Video, 0),
        device_models(r.1@) == dshow_devices(lines_of(text@), None, DeviceKind::Audio, 0),
        r.0@.len() <= lines_of(text@).len(),
        r.1@.len() <= lines_of(text@).len(),
{
    let all: Vec<String> = lines(text);
    let ghost ls = texts(all@);
    let mut video: Vec<Device> = Vec::new();
    let mut audio: Vec<Device> = Vec::new();
    let mut section: Option<DeviceKind> = None;
    let mut i: usize = 0;
    assert(ls.skip(0) == ls);
    assert(device_models(video@) =~= Seq::<DeviceModel>::empty());
    assert(device_models(audio@) =~= Seq::<DeviceModel>::empty());
    assert(device_models(video@) + dshow_devices(ls.skip(0), section, DeviceKind::Video, 0)
        =~= dshow_devices(ls, None, DeviceKind::Video, 0));
    assert(device_models(audio@) + dshow_devices(ls.skip(0), section, DeviceKind::Audio, 0)
        =~= dshow_devices(ls, None, DeviceKind::Audio, 0));
    while i < all.len()
        invariant
            i <= all@.len(),
            ls == texts(all@),
            ls.len() <= 0x7FFF_FFFF,
            video@.len() <= i,
            audio@.len() <= i,
            device_models(video@) + dshow_devices(
                ls.skip(i as int),
                section,
                DeviceKind::Video,
                video@.len() as int,
            ) == dshow_devices(ls, None, DeviceKind::Video, 0),
            device_models(audio@) + dshow_devices(
                ls.skip(i as int),
                section,
                DeviceKind::Audio,
                audio@.len() as int,
            ) == dshow_devices(ls, None, DeviceKind::Audio, 0),
        decreases all@.len() - i,
    {
        let line: &str = all[i].as_str();
        assert(ls.skip(i as int)[0] == line@);
        assert(ls.skip(i as int).drop_first() == ls.skip(i + 1));
        let lower: String = to_lower(line);
        if contains(lower.as_str(), "directshow video devices") {
            section = Some(DeviceKind::Video);
        } else if contains(lower.as_str(), "directshow audio devices") {
            section = Some(DeviceKind::Audio);
        } else if !contains(lower.as_str(), "alternative name") {
            let caps: Option<Captured> = captures(
                r#"\[(?:dshow|in#\d+) @ [^\]]+\]\s+"([^"]+)"(?:\s+\(([^)]*)\))?\s*$"#,
                line,
            );
            if let Some(c) = caps {
                let ghost v0 = device_models(video@);
                let ghost a0 = device_models(audio@);
                let ghost vn = video@.len() as int;
                let ghost an = audio@.len() as int;
                add_dshow_device(&c, section, &mut video, &mut audio);
                proof {
                    assert(device_models(video@).len() == video@.len());
                    assert(device_models(audio@).len() == audio@.len());
                    let mv = dshow_device(c@, DeviceKind::Video, vn);
                    let ma = dshow_device(c@, DeviceKind::Audio, an);
                    let rv = dshow_devices(ls.skip(i + 1), section, DeviceKind::Video, vn + 1);
                    let ra = dshow_devices(ls.skip(i + 1), section, DeviceKind::Audio, an + 1);
                    assert(v0.push(mv) + rv =~= v0 + (seq![mv] + rv));
                    assert(a0.push(ma) + ra =~= a0 + (seq![ma] + ra));
                }
            }
        }
        i += 1;
    }
    assert(ls.skip(i as int).len() == 0);
    assert(device_models(video@) =~= dshow_devices(ls, None, DeviceKind::Video, 0));
    assert(device_models(audio@) =~= dshow_devices(ls, None, DeviceKind::Audio, 0));
    (video, audio)
}

/// The entry that stands for the whole screen.
pub open spec fn desktop_model() -> DeviceModel {
    DeviceModel {
        index: 0,
        name: "Capture screen 0"@,
        kind: DeviceKind::Video,
        category: "screen"@,
    }
}

/// The video devices with the whole screen in front, and the others counted on.
pub open spec fn with_desktop_models(v: Seq<DeviceModel>) -> Seq<DeviceModel> {
    seq![desktop_model()] + Seq::new(
        v.len(),
        |i: int| DeviceModel { index: v[i].index + 1, ..v[i] },
    )
}

/// The video devices with the whole screen in front, and the others counted on.
pub fn with_desktop(video: Vec<Device>) -> (r: Vec<Device>)
    requires
        forall|i: int| 0 <= i < video@.len() ==> (#[trigger] video@[i]).index < 0x7FFF_FFFF,
    ensures
        device_models(r@) == with_desktop_models(device_models(video@)),
{
    let mut out: Vec<Device> = Vec::new();
    out.push(
        Device {
            index: 0,
            name: "Capture screen 0".to_owned(),
            kind: DeviceKind::Video,
            category: "screen".to_owned(),
        },
    );
    let mut i: usize = 0;
    while i < video.len()
        invariant
            i <= video@.len(),
            out@.len() == i + 1,
            out@[0]@ == desktop_model(),
            forall|j: int| 0 <= j < video@.len() ==> (#[trigger] video@[j]).index < 0x7FFF_FFFF,
            forall|j: int|
                0 < j < out@.len() ==> (#[trigger] out@[j])@ == (DeviceModel {
                    index: video@[j - 1].index + 1,
                    ..video@[j - 1]@
                }),
        decreases video@.len() - i,
    {
        let mut d: Device = video[i].duplicate();
        assert(d@ == video@[i as int]@);
        d.index = video[i].index + 1;
        out.push(d);
        i += 1;
    }
    assert(device_models(out@) =~= with_desktop_models(device_models(video@)));
    out
}

// ---------------------------------------------------------------------------
// Defaults
// ---------------------------------------------------------------------------

/// The first place that is on.
pub open spec fn first_on(v: Seq<bool>) -> Option<int>
    decreases v.len(),
{
    if v.len() == 0 {
        None
    } else {
        match first_on(v.drop_last()) {
            Some(i) => Some(i),
            None => if v.last() {
                Some(v.len() - 1)
            } else {
                None
            },
        }
    }
}

/// The first place that is on.
pub fn find_on(v: &Vec<bool>) -> (r: Option<usize>)
    ensures
        r is Some <==> first_on(v@) is Some,
        r matches Some(i) ==> i < v@.len() && first_on(v@) == Some(i as int),
{
    let mut i: usize = 0;
    let mut found: Option<usize> = None;
    assert(v@.take(0).len() == 0);
    while i < v.len()
        invariant
            i <= v@.len(),
            found is Some <==> first_on(v@.take(i as int)) is Some,
            found matches Some(k) ==> k < i && first_on(v@.take(i as int)) == Some(k as int),
        decreases v@.len() - i,
    {
        assert(v@.take(i + 1).drop_last() == v@.take(i as int));
        if found.is_none() && v[i] {
            found = Some(i);
        }
        i += 1;
    }
    assert(v@.take(i as int) == v@);
    found
}

/// The device to start with: the first that the first preference with a hit
/// points out, or else the first that is not to be skipped, or else the first.
pub open spec fn preferred(prefs: Seq<Seq<bool>>, skip: Seq<bool>) -> Option<int>
    decreases prefs.len(),
{
    if prefs.len() > 0 {
        match first_on(prefs[0]) {
            Some(i) => Some(i),
            None => preferred(prefs.drop_first(), skip),
        }
    } else {
        match first_on(Seq::new(skip.len(), |i: int| !skip[i])) {
            Some(i) => Some(i),
            None => if skip.len() > 0 {
                Some(0int)
            } else {
                None
            },
        }
    }
}

/// What the rows of a table hold.
pub open spec fn rows(t: Seq<Vec<bool>>) -> Seq<Seq<bool>> {
    Seq::new(t.len(), |i: int| t[i]@)
}

/// The device to start with, from which devices each preference points out and
/// which are to be skipped.
pub fn choose_preferred(prefs: &Vec<Vec<bool>>, skip: &Vec<bool>) -> (r: Option<usize>)
    requires
        forall|i: int| 0 <= i < prefs@.len() ==> (#[trigger] prefs@[i])@.len() == skip@.len(),
    ensures
        r is Some <==> preferred(rows(prefs@), skip@) is Some,
        r matches Some(i) ==> i < skip@.len() && preferred(rows(prefs@), skip@) == Some(i as int),
{
    let ghost t = rows(prefs@);
    let mut i: usize = 0;
    assert(t.skip(0) == t);
    while i < prefs.len()
        invariant
            i <= prefs@.len(),
            t == rows(prefs@),
            forall|i: int| 0 <= i < prefs@.len() ==> (#[trigger] prefs@[i])@.len() == skip@.len(),
            preferred(t.skip(i as int), skip@) == preferred(t, skip@),
        decreases prefs@.len() - i,
    {
        assert(t.skip(i as int)[0] == prefs@[i as int]@);
        assert(t.skip(i as int).drop_first() == t.skip(i + 1));
        if let Some(k) = find_on(&prefs[i]) {
            return Some(k);
        }
        i += 1;
    }
    let mut keep: Vec<bool> = Vec::new();
    let mut j: usize = 0;
    while j < skip.len()
        invariant
            j <= skip@.len(),
            keep@.len() == j,
            forall|k: int| 0 <= k < j ==> #[trigger] keep@[k] == !skip@[k],
        decreases skip@.len() - j,
    {
        keep.push(!skip[j]);
        j += 1;
    }
    assert(keep@ =~= Seq::new(skip@.len(), |i: int| !skip@[i]));
    match find_on(&keep) {
        Some(k) => Some(k),
        None => if skip.len() > 0 {
            Some(0)
        } else {
            None
        },
    }
}

/// Which devices a pattern matches the name of.
pub open spec fn name_hits(v: Seq<DeviceModel>, pattern: Seq<char>) -> Seq<bool> {
    Seq::new(v.len(), |i: int| pattern_matches(pattern, v[i].name))
}

fn match_names(v: &Vec<Device>, pattern: &str) -> (r: Vec<bool>)
    ensures
        r@ == name_hits(device_models(v@), pattern@),
{
    let mut out: Vec<bool> = Vec::new();
    let mut i: usize = 0;
    while i < v.len()
        invariant
            i <= v@.len(),
            out@.len() == i,
            forall|j: int|
                0 <= j < i ==> #[trigger] out@[j] == pattern_matches(pattern@, v@[j].name@),
        decreases v@.len() - i,
    {
        out.push(is_match(pattern, v[i].name.as_str()));
        i += 1;
    }
    assert(out@ =~= name_hits(device_models(v@), pattern@));
    out
}

/// The place of the microphone to start with.
pub open spec fn default_audio(v: Seq<DeviceModel>) -> Option<int> {
    preferred(
        seq![
            name_hits(v, r"(?i)macbook.*microphone"@),
            name_hits(v, r"(?i)built.*microphone"@),
            name_hits(v, r"(?i)^microphone$"@),
        ],
        name_hits(v, r"(?i)(zoom|ndi audio|aggregate|dante|virtual|stereo mix)"@),
    )
}

/// The place of the camera to start with.
pub open spec fn default_video(v: Seq<DeviceModel>) -> Option<int> {
    preferred(
        seq![Seq::new(v.len(), |i: int| holds(lowered(v[i].name), "facetime"@))],
        name_hits(v, r"(?i)(virtual|capture screen|desk view|screen capture)"@),
    )
}

/// The microphone to start with: a built-in one, or else one that is no virtual
/// or network device, or else the first.
pub fn find_default_audio(devs: &DeviceList) -> (r: Option<&Device>)
    ensures
        r is Some <==> default_audio(device_models(devs.audio@)) is Some,
        r matches Some(d) ==> ({
            let i = default_audio(device_models(devs.audio@))->0;
            0 <= i < devs.audio@.len() && *d == devs.audio@[i]
        }),
{
    let a: Vec<bool> = match_names(&devs.audio, r"(?i)macbook.*microphone");
    let b: Vec<bool> = match_names(&devs.audio, r"(?i)built.*microphone");
    let c: Vec<bool> = match_names(&devs.audio, r"(?i)^microphone$");
    let skip: Vec<bool> = match_names(
        &devs.audio,
        r"(?i)(zoom|ndi audio|aggregate|dante|virtual|stereo mix)",
    );
    let prefs: Vec<Vec<bool>> = vec![a, b, c];
    assert(rows(prefs@) =~= seq![a@, b@, c@]);
    match choose_preferred(&prefs, &skip) {
        Some(i) => Some(&devs.audio[i]),
        None => None,
    }
}

/// The camera to start with: a built-in one, or else one that is no virtual
/// device or screen, or else the first.
pub fn find_default_video(devs: &DeviceList) -> (r: Option<&Device>)
    ensures
        r is Some <==> default_video(device_models(devs.video@)) is Some,
        r matches Some(d) ==> ({
            let i = default_video(device_models(devs.video@))->0;
            0 <= i < devs.video@.len() && *d == devs.video@[i]
        }),
{
    let mut a: Vec<bool> = Vec::new();
    let mut i: usize = 0;
    while i < devs.video.len()
        invariant
            i <= devs.video@.len(),
            a@.len() == i,
            forall|j: int|
                0 <= j < i ==> #[trigger] a@[j] == holds(
                    lowered(devs.video@[j].name@),
                    "facetime"@,
                ),
        decreases devs.video@.len() - i,
    {
        let lower: String = to_lower(devs.video[i].name.as_str());
        a.push(contains(lower.as_str(), "facetime"));
        i += 1;
    }
    let ghost m = device_models(devs.video@);
    assert(a@ =~= Seq::new(m.len(), |i: int| holds(lowered(m[i].name), "facetime"@)));
    let skip: Vec<bool> = match_names(
        &devs.video,
        r"(?i)(virtual|capture screen|desk view|screen capture)",
    );
    let prefs: Vec<Vec<bool>> = vec![a];
    assert(rows(prefs@) =~= seq![a@]);
    match choose_preferred(&prefs, &skip) {
        Some(i) => Some(&devs.video[i]),
        None => None,
    }
}

} // verus!
