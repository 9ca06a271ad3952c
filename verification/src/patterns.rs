//! Regular expressions: what a pattern finds in a line of FFmpeg's output.
use vstd::prelude::*;
use vstd::string::*;

use crate::text::opt_text;

verus! {

/// The groups of a match: the whole match first, then each group in order.
#[derive(Debug)]
pub struct Captured {
    pub groups: Vec<Option<String>>,
}

impl View for Captured {
    type V = Seq<Option<Seq<char>>>;

    open spec fn view(&self) -> Seq<Option<Seq<char>>> {
        Seq::new(self.groups@.len(), |i: int| opt_text(self.groups@[i]))
    }
}

/// What a match holds, if there is one.
pub open spec fn captured(c: Option<Captured>) -> Option<Seq<Option<Seq<char>>>> {
    match c {
        Some(x) => Some(x@),
        None => None,
    }
}

/// The groups of the leftmost match that `regex::Regex::captures` finds for a
/// pattern in a text; `None` if there is none, or if the pattern is not one.
pub uninterp spec fn pattern_captures(pattern: Seq<char>, text: Seq<char>) -> Option<
    Seq<Option<Seq<char>>>,
>;

/// `regex::Regex::new` and `captures`: the groups of the leftmost match. They
/// depend on the pattern and the text alone.
#[verifier::external_body]
pub(crate) fn captures(pattern: &str, text: &str) -> (r: Option<Captured>)
    ensures
        captured(r) == pattern_captures(pattern@, text@),
{
    let re = regex::Regex::new(pattern).ok()?;
    let caps = re.captures(text)?;
    let group = |m: Option<regex::Match>| m.map(|g| g.as_str().to_owned());
    Some(Captured { groups: caps.iter().map(group).collect() })
}

/// Whether `regex::Regex::is_match` finds a pattern in a text.
pub uninterp spec fn pattern_matches(pattern: Seq<char>, text: Seq<char>) -> bool;

/// `regex::Regex::new` and `is_match`: whether the pattern matches somewhere in
/// the text. It depends on the two alone.
#[verifier::external_body]
pub(crate) fn is_match(pattern: &str, text: &str) -> (r: bool)
    ensures
        r == pattern_matches(pattern@, text@),
{
    regex::Regex::new(pattern).is_ok_and(|re| re.is_match(text))
}

/// The text of a group; empty if the group took no part in the match.
pub open spec fn group_text(c: Seq<Option<Seq<char>>>, i: int) -> Seq<char> {
    if 0 <= i < c.len() && c[i] is Some {
        c[i]->0
    } else {
        Seq::empty()
    }
}

impl Captured {
    /// The text of the group `i`; empty if it took no part in the match.
    pub fn group(&self, i: usize) -> (r: String)
        ensures
            r@ == group_text(self@, i as int),
    {
        if i < self.groups.len() {
            match &self.groups[i] {
                Some(t) => t.clone(),
                None => String::new(),
            }
        } else {
            String::new()
        }
    }

    /// The text of the group `i`, if it took part in the match.
    pub fn optional(&self, i: usize) -> (r: Option<String>)
        ensures
            opt_text(r) == (if i < self@.len() {
                self@[i as int]
            } else {
                None
            }),
    {
        if i < self.groups.len() {
            match &self.groups[i] {
                Some(t) => Some(t.clone()),
                None => None,
            }
        } else {
            None
        }
    }
}

} // verus!
