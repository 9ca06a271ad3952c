//! DeckLink cards and their output modes, read out of what FFmpeg prints.
use vstd::prelude::*;
use vstd::string::*;

use crate::device_scanner::{fresh, is_fresh};
use crate::number::{
    ascii_lower, lowered, parse_u32, parsed, same_ignoring_case, to_ascii_lower, to_lower,
};
use crate::patterns::{captured, captures, group_text, pattern_captures, Captured};
use crate::scan::{contains, holds, lines, lines_of, position, split_once, trim, trimmed};
use crate::text::{same, str_texts, texts};

verus! {

/// A card that can be output to.
#[derive(Clone, Debug)]
pub struct DecklinkDevice {
    pub name: String,
}

/// An output mode of a card.
#[derive(Clone, Debug)]
pub struct DecklinkMode {
    pub format_code: String,
    pub description: String,
    pub width: u32,
    pub height: u32,
    pub fps_num: u32,
    pub fps_den: u32,
    pub interlaced: bool,
}

/// What a `DecklinkMode` holds.
pub struct ModeModel {
    pub format_code: Seq<char>,
    pub description: Seq<char>,
    pub width: u32,
    pub height: u32,
    pub fps_num: u32,
    pub fps_den: u32,
    pub interlaced: bool,
}

impl View for DecklinkMode {
    type V = ModeModel;

    open spec fn view(&self) -> ModeModel {
        ModeModel {
            format_code: self.format_code@,
            description: self.description@,
            width: self.width,
            height: self.height,
            fps_num: self.fps_num,
            fps_den: self.fps_den,
            interlaced: self.interlaced,
        }
    }
}

/// The names of the cards of a list.
pub open spec fn card_names(v: Seq<DecklinkDevice>) -> Seq<Seq<char>> {
    Seq::new(v.len(), |i: int| v[i].name@)
}

/// What the modes of a list hold.
pub open spec fn mode_models(v: Seq<DecklinkMode>) -> Seq<ModeModel> {
    Seq::new(v.len(), |i: int| v[i]@)
}

// ---------------------------------------------------------------------------
// Cards
// ---------------------------------------------------------------------------

/// The pattern for a card in a list: a bracketed prefix and a quoted name.
pub open spec fn decklink_device_line() -> Seq<char> {
    r"\[[^\]]+\]\s+'([^']+)'"@
}

/// The names with the one that a match describes added, unless it is empty, is a
/// heading, or is there already.
pub open spec fn name_added(
    names: Seq<Seq<char>>,
    caps: Option<Seq<Option<Seq<char>>>>,
    headings: Seq<Seq<char>>,
) -> Seq<Seq<char>> {
    match caps {
        Some(c) => {
            let name = trimmed(group_text(c, 1));
            let heading = exists|i: int|
                0 <= i < headings.len() && same_ignoring_case(name, #[trigger] headings[i]);
            if name.len() == 0 || heading || names.contains(name) {
                names
            } else {
                names.push(name)
            }
        },
        None => names,
    }
}

/// The names of the cards in lines of a list, each once, in order.
pub open spec fn listed_names(lines: Seq<Seq<char>>, headings: Seq<Seq<char>>) -> Seq<Seq<char>>
    decreases lines.len(),
{
    if lines.len() == 0 {
        Seq::empty()
    } else {
        name_added(
            listed_names(lines.drop_last(), headings),
            pattern_captures(decklink_device_line(), lines.last()),
            headings,
        )
    }
}

/// Adds the name that a match describes, unless it is empty, is a heading, or is
/// there already.
pub fn add_listed_name(names: &mut Vec<String>, caps: &Option<Captured>, headings: &[&str])
    ensures
        texts(final(names)@) == name_added(
            texts(old(names)@),
            captured(*caps),
            str_texts(headings@),
        ),
{
    if let Some(c) = caps {
        let raw: String = c.group(1);
        let name: String = trim(raw.as_str());
        if name.as_str().is_empty() {
            return;
        }
        let lower: String = to_ascii_lower(name.as_str());
        let ghost hs = str_texts(headings@);
        let mut i: usize = 0;
        while i < headings.len()
            invariant
                i <= headings@.len(),
                hs == str_texts(headings@),
                lower@ == ascii_lower(name@),
                names@ == old(names)@,
                captured(*caps) == Some(c@),
                name@ == trimmed(group_text(c@, 1)),
                forall|j: int| 0 <= j < i ==> !same_ignoring_case(name@, #[trigger] hs[j]),
            decreases headings@.len() - i,
        {
            let h: String = to_ascii_lower(headings[i]);
            if same(lower.as_str(), h.as_str()) {
                assert(same_ignoring_case(name@, hs[i as int]));
                return;
            }
            i += 1;
        }
        let mut k: usize = 0;
        while k < names.len()
            invariant
                k <= names@.len(),
                names@ == old(names)@,
                captured(*caps) == Some(c@),
                name@ == trimmed(group_text(c@, 1)),
                forall|j: int| 0 <= j < k ==> #[trigger] texts(names@)[j] != name@,
            decreases names@.len() - k,
        {
            if same(names[k].as_str(), name.as_str()) {
                assert(texts(names@)[k as int] == name@);
                return;
            }
            k += 1;
        }
        assert(!texts(names@).contains(name@));
        names.push(name);
        assert(texts(names@) =~= texts(old(names)@).push(name@));
    }
}

/// The names of the cards in a list, each once, in order.
pub fn list_names(text: &str, headings: &[&str]) -> (r: Vec<String>)
    ensures
        texts(r@) == listed_names(lines_of(text@), str_texts(headings@)),
{
    let all: Vec<String> = lines(text);
    let ghost ls = texts(all@);
    let mut names: Vec<String> = Vec::new();
    let mut i: usize = 0;
    assert(ls.take(0).len() == 0);
    assert(texts(names@) =~= Seq::<Seq<char>>::empty());
    while i < all.len()
        invariant
            i <= all@.len(),
            ls == texts(all@),
            texts(names@) == listed_names(ls.take(i as int), str_texts(headings@)),
        decreases all@.len() - i,
    {
        let caps: Option<Captured> = captures(r"\[[^\]]+\]\s+'([^']+)'", all[i].as_str());
        add_listed_name(&mut names, &caps, headings);
        assert(ls.take(i + 1).drop_last() == ls.take(i as int));
        assert(ls.take(i + 1).last() == all@[i as int]@);
        i += 1;
    }
    assert(ls.take(i as int) == ls);
    names
}

/// The heading of FFmpeg's list of cards.
pub open spec fn card_headings() -> Seq<Seq<char>> {
    seq!["Blackmagic DeckLink devices"@]
}

/// The cards in FFmpeg's list, each once, in order.
pub fn parse_decklink_devices(text: &str) -> (r: Vec<DecklinkDevice>)
    ensures
        card_names(r@) == listed_names(lines_of(text@), card_headings()),
{
    let names: Vec<String> = list_names(text, &["Blackmagic DeckLink devices"]);
    assert(str_texts(["Blackmagic DeckLink devices"]@) =~= card_headings());
    let mut out: Vec<DecklinkDevice> = Vec::new();
    let mut i: usize = 0;
    while i < names.len()
        invariant
            i <= names@.len(),
            out@.len() == i,
            forall|j: int| 0 <= j < i ==> (#[trigger] out@[j]).name@ == names@[j]@,
        decreases names@.len() - i,
    {
        out.push(DecklinkDevice { name: names[i].clone() });
        i += 1;
    }
    assert(card_names(out@) =~= texts(names@));
    out
}

/// No card is listed twice, and none without a name.
pub proof fn listed_names_are_distinct(lines: Seq<Seq<char>>, headings: Seq<Seq<char>>)
    ensures
        listed_names(lines, headings).no_duplicates(),
        forall|i: int|
            0 <= i < listed_names(lines, headings).len() ==> (#[trigger] listed_names(
                lines,
                headings,
            )[i]).len() > 0,
    decreases lines.len(),
{
    if lines.len() > 0 {
        listed_names_are_distinct(lines.drop_last(), headings);
    }
}

// ---------------------------------------------------------------------------
// Modes
// ---------------------------------------------------------------------------

/// The pattern for a mode in a card's list: a code, a size and a rate, with or
/// without a bracketed prefix.
pub open spec fn decklink_format_line() -> Seq<char> {
    r"^\s*(?:\[[^\]]+\]\s+)?(\S+)\s+(\d+)x(\d+)\s+at\s+(\d+)/(\d+)\s+fps(.*)$"@
}

/// The number that a text stands for; `default` if for none.
pub open spec fn number_or(s: Seq<char>, default: u32) -> u32 {
    match parsed(s, 0xFFFF_FFFF) {
        Some(n) => n as u32,
        None => default,
    }
}

fn parse_or(s: &str, default: u32) -> (r: u32)
    ensures
        r == number_or(s@, default),
{
    match parse_u32(s) {
        Some(n) => n,
        None => default,
    }
}

/// What a line says behind its bracketed prefix.
pub open spec fn behind_prefix(line: Seq<char>) -> Seq<char> {
    let i = position(line, ']') as int;
    if i < line.len() {
        trimmed(line.skip(i + 1))
    } else {
        trimmed(line)
    }
}

/// The mode that a match of `decklink_format_line` in a line describes. The row of
/// headings is none, nor is one whose size or rate is zero.
pub open spec fn mode_in(line: Seq<char>, c: Seq<Option<Seq<char>>>) -> Option<ModeModel> {
    let width = number_or(group_text(c, 2), 0);
    let height = number_or(group_text(c, 3), 0);
    let num = number_or(group_text(c, 4), 0);
    let den = number_or(group_text(c, 5), 1);
    if same_ignoring_case(group_text(c, 1), "format_code"@) || width == 0 || height == 0 || num
        == 0 {
        None
    } else {
        Some(
            ModeModel {
                format_code: group_text(c, 1),
                description: behind_prefix(line),
                width,
                height,
                fps_num: num,
                fps_den: if den == 0 {
                    1
                } else {
                    den
                },
                interlaced: holds(lowered(group_text(c, 6)), "interlaced"@),
            },
        )
    }
}

/// The mode that a match of the pattern for a card's list describes.
pub fn decklink_mode_from(line: &str, caps: &Captured) -> (r: Option<DecklinkMode>)
    ensures
        r is Some <==> mode_in(line@, caps@) is Some,
        r matches Some(m) ==> mode_in(line@, caps@) == Some(m@),
{
    let format_code: String = caps.group(1);
    let code_lower: String = to_ascii_lower(format_code.as_str());
    let heading: String = to_ascii_lower("format_code");
    if same(code_lower.as_str(), heading.as_str()) {
        return None;
    }
    let width_text: String = caps.group(2);
    let height_text: String = caps.group(3);
    let num_text: String = caps.group(4);
    let den_text: String = caps.group(5);
    let trailing: String = caps.group(6);
    let width: u32 = parse_or(width_text.as_str(), 0);
    let height: u32 = parse_or(height_text.as_str(), 0);
    let fps_num: u32 = parse_or(num_text.as_str(), 0);
    let den: u32 = parse_or(den_text.as_str(), 1);
    let trailing_lower: String = to_lower(trailing.as_str());
    let interlaced: bool = contains(trailing_lower.as_str(), "interlaced");
    let description: String = match split_once(line, ']') {
        Some(p) => trim(p.1.as_str()),
        None => trim(line),
    };
    if width == 0 || height == 0 || fps_num == 0 {
        return None;
    }
    let fps_den: u32 = if den == 0 {
        1
    } else {
        den
    };
    Some(DecklinkMode { format_code, description, width, height, fps_num, fps_den, interlaced })
}

/// The modes in lines of a card's list, in order.
pub open spec fn listed_modes(lines: Seq<Seq<char>>) -> Seq<ModeModel>
    decreases lines.len(),
{
    if lines.len() == 0 {
        Seq::empty()
    } else {
        let rest = listed_modes(lines.drop_last());
        match pattern_captures(decklink_format_line(), lines.last()) {
            Some(c) => match mode_in(lines.last(), c) {
                Some(m) => rest.push(m),
                None => rest,
            },
            None => rest,
        }
    }
}

/// The modes in a card's list, in order.
pub fn parse_decklink_modes(text: &str) -> (r: Vec<DecklinkMode>)
    ensures
        mode_models(r@) == listed_modes(lines_of(text@)),
{
    let all: Vec<String> = lines(text);
    let ghost ls = texts(all@);
    let mut out: Vec<DecklinkMode> = Vec::new();
    let mut i: usize = 0;
    assert(ls.take(0).len() == 0);
    assert(mode_models(out@) =~= Seq::<ModeModel>::empty());
    while i < all.len()
        invariant
            i <= all@.len(),
            ls == texts(all@),
            mode_models(out@) == listed_modes(ls.take(i as int)),
        decreases all@.len() - i,
    {
        let line: &str = all[i].as_str();
        assert(ls.take(i + 1).drop_last() == ls.take(i as int));
        assert(ls.take(i + 1).last() == line@);
        let caps: Option<Captured> = captures(
            r"^\s*(?:\[[^\]]+\]\s+)?(\S+)\s+(\d+)x(\d+)\s+at\s+(\d+)/(\d+)\s+fps(.*)$",
            line,
        );
        if let Some(c) = caps {
            if let Some(m) = decklink_mode_from(line, &c) {
                let ghost before = mode_models(out@);
                let ghost model = m@;
                out.push(m);
                assert(mode_models(out@) =~= before.push(model));
            }
        }
        i += 1;
    }
    assert(ls.take(i as int) == ls);
    out
}

/// A mode that is listed has a size and a rate.
pub proof fn listed_modes_are_usable(lines: Seq<Seq<char>>)
    ensures
        forall|i: int|
            0 <= i < listed_modes(lines).len() ==> (#[trigger] listed_modes(lines)[i]).width > 0
                && listed_modes(lines)[i].height > 0 && listed_modes(lines)[i].fps_num > 0
                && listed_modes(lines)[i].fps_den > 0,
    decreases lines.len(),
{
    if lines.len() > 0 {
        listed_modes_are_usable(lines.drop_last());
        let rest = listed_modes(lines.drop_last());
        let all = listed_modes(lines);
        assert forall|i: int| 0 <= i < all.len() implies (#[trigger] all[i]).width > 0
            && all[i].height > 0 && all[i].fps_num > 0 && all[i].fps_den > 0 by {
            if i < rest.len() {
                assert(all[i] == rest[i]);
            }
        }
    }
}

// ---------------------------------------------------------------------------
// Remembering
// ---------------------------------------------------------------------------

/// The modes of one card.
#[derive(Debug)]
pub struct CardModes {
    pub name: String,
    pub modes: Vec<DecklinkMode>,
}

/// The cards and modes that are known.
#[derive(Debug)]
pub struct DecklinkCache {
    pub devices: Vec<DecklinkDevice>,
    pub scanned_at: Option<u64>,
    pub modes: Vec<CardModes>,
}

/// The modes that are known of a card.
pub open spec fn known_modes(v: Seq<CardModes>, name: Seq<char>) -> Option<Seq<ModeModel>>
    decreases v.len(),
{
    if v.len() == 0 {
        None
    } else if v.last().name@ == name {
        Some(mode_models(v.last().modes@))
    } else {
        known_modes(v.drop_last(), name)
    }
}

impl DecklinkMode {
    /// A copy that holds the same.
    pub fn duplicate(&self) -> (r: DecklinkMode)
        ensures
            r@ == self@,
    {
        DecklinkMode {
            format_code: self.format_code.clone(),
            description: self.description.clone(),
            width: self.width,
            height: self.height,
            fps_num: self.fps_num,
            fps_den: self.fps_den,
            interlaced: self.interlaced,
        }
    }
}

fn copy_modes(v: &Vec<DecklinkMode>) -> (r: Vec<DecklinkMode>)
    ensures
        mode_models(r@) == mode_models(v@),
{
    let mut out: Vec<DecklinkMode> = Vec::new();
    let mut i: usize = 0;
    while i < v.len()
        invariant
            i <= v@.len(),
            out@.len() == i,
            forall|j: int| 0 <= j < i ==> (#[trigger] out@[j])@ == v@[j]@,
        decreases v@.len() - i,
    {
        out.push(v[i].duplicate());
        i += 1;
    }
    assert(mode_models(out@) =~= mode_models(v@));
    out
}

fn copy_cards(v: &Vec<DecklinkDevice>) -> (r: Vec<DecklinkDevice>)
    ensures
        card_names(r@) == card_names(v@),
{
    let mut out: Vec<DecklinkDevice> = Vec::new();
    let mut i: usize = 0;
    while i < v.len()
        invariant
            i <= v@.len(),
            out@.len() == i,
            forall|j: int| 0 <= j < i ==> (#[trigger] out@[j]).name@ == v@[j].name@,
        decreases v@.len() - i,
    {
        out.push(DecklinkDevice { name: v[i].name.clone() });
        i += 1;
    }
    assert(card_names(out@) =~= card_names(v@));
    out
}

impl Default for DecklinkCache {
    /// Nothing is known yet.
    fn default() -> (r: Self)
        ensures
            r.devices@.len() == 0,
            r.scanned_at is None,
            r.modes@.len() == 0,
    {
        DecklinkCache { devices: Vec::new(), scanned_at: None, modes: Vec::new() }
    }
}

/// The cards that are known, unless they have to be looked for again: because
/// that is asked for, or because the last scan is too old.
pub fn list_decklink_outputs(cache: &DecklinkCache, force: bool, now: u64) -> (r: Option<
    Vec<DecklinkDevice>,
>)
    ensures
        r is Some <==> !force && is_fresh(cache.scanned_at, now),
        r matches Some(v) ==> card_names(v@) == card_names(cache.devices@),
{
    if !force && fresh(cache.scanned_at, now) {
        Some(copy_cards(&cache.devices))
    } else {
        None
    }
}

/// The modes that are known of a card. If none are, it has to be asked.
pub fn probe_decklink_modes(cache: &DecklinkCache, device_name: &str) -> (r: Option<
    Vec<DecklinkMode>,
>)
    ensures
        r is Some <==> known_modes(cache.modes@, device_name@) is Some,
        r matches Some(v) ==> known_modes(cache.modes@, device_name@) == Some(mode_models(v@)),
{
    let mut i: usize = cache.modes.len();
    assert(cache.modes@.take(i as int) == cache.modes@);
    while i > 0
        invariant
            i <= cache.modes@.len(),
            known_modes(cache.modes@.take(i as int), device_name@) == known_modes(
                cache.modes@,
                device_name@,
            ),
        decreases i,
    {
        let ghost t = cache.modes@.take(i as int);
        assert(t.last() == cache.modes@[i - 1]);
        assert(t.drop_last() == cache.modes@.take(i - 1));
        if same(cache.modes[i - 1].name.as_str(), device_name) {
            return Some(copy_modes(&cache.modes[i - 1].modes));
        }
        i -= 1;
    }
    None
}

impl DecklinkCache {
    /// Takes down the cards that were found. What was known of their modes is
    /// forgotten, as cards may have come and gone.
    pub fn remember_outputs(&mut self, found: Vec<DecklinkDevice>, now: u64)
        ensures
            final(self).devices == found,
            final(self).scanned_at == Some(now),
            forall|name: Seq<char>| #[trigger] known_modes(final(self).modes@, name) is None,
    {
        self.devices = found;
        self.scanned_at = Some(now);
        self.modes = Vec::new();
    }

    /// Takes down the modes of a card.
    pub fn remember_modes(&mut self, device_name: &str, modes: Vec<DecklinkMode>)
        ensures
            final(self).devices == old(self).devices,
            final(self).scanned_at == old(self).scanned_at,
            forall|name: Seq<char>| #[trigger]
                known_modes(final(self).modes@, name) == (if name == device_name@ {
                    Some(mode_models(modes@))
                } else {
                    known_modes(old(self).modes@, name)
                }),
    {
        self.modes.push(CardModes { name: device_name.to_owned(), modes });
        assert(self.modes@.drop_last() =~= old(self).modes@);
    }
}

} // verus!
