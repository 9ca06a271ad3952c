//! Sources seen on the network.
use vstd::prelude::*;
use vstd::string::*;

use crate::scan::{cut_last, find_text, found_from, without_last};
use crate::text::{opt_text, same, slice_text, texts, to_chars};

verus! {

/// An NDI source.
#[derive(Clone, Debug)]
pub struct NdiSource {
    pub name: String,
    pub host: Option<String>,
    pub address: String,
}

/// An OMT source.
#[derive(Clone, Debug)]
pub struct OmtSource {
    pub name: String,
    pub host: Option<String>,
    pub address: String,
}

/// The name in an address of the form `HOST (Name)`; the whole address if it has
/// another form.
pub open spec fn omt_name(address: Seq<char>) -> Seq<char> {
    match found_from(address, " ("@, 0) {
        Some(i) => without_last(address.skip(i + 2), ')'),
        None => address,
    }
}

/// The host in an address of the form `HOST (Name)`.
pub open spec fn omt_host(address: Seq<char>) -> Option<Seq<char>> {
    match found_from(address, " ("@, 0) {
        Some(i) => Some(address.take(i)),
        None => None,
    }
}

/// The source at an address of the form `HOST (Name)`.
pub fn omt_source_at(address: &str) -> (r: OmtSource)
    ensures
        r.name@ == omt_name(address@),
        opt_text(r.host) == omt_host(address@),
        r.address@ == address@,
{
    let v: Vec<char> = to_chars(address);
    let mark: Vec<char> = to_chars(" (");
    proof {
        reveal_strlit(" (");
    }
    match find_text(&v, &mark, 0) {
        Some(i) => {
            let n: usize = v.len();
            assert(i + mark@.len() <= n);
            let rest: String = slice_text(&v, i + 2, n);
            let host: String = slice_text(&v, 0, i);
            assert(rest@ == address@.skip(i + 2));
            assert(host@ == address@.take(i as int));
            OmtSource {
                name: cut_last(rest.as_str(), ')'),
                host: Some(host),
                address: address.to_owned(),
            }
        },
        None => OmtSource {
            name: address.to_owned(),
            host: None,
            address: address.to_owned(),
        },
    }
}

/// The sources at the addresses, in the same order.
pub fn discover(addresses: &Vec<String>) -> (r: Vec<OmtSource>)
    ensures
        r@.len() == addresses@.len(),
        forall|i: int|
            0 <= i < r@.len() ==> (#[trigger] r@[i]).name@ == omt_name(addresses@[i]@) && opt_text(
                r@[i].host,
            ) == omt_host(addresses@[i]@) && r@[i].address@ == addresses@[i]@,
{
    let mut out: Vec<OmtSource> = Vec::new();
    let mut i: usize = 0;
    while i < addresses.len()
        invariant
            i <= addresses@.len(),
            out@.len() == i,
            forall|j: int|
                0 <= j < i ==> (#[trigger] out@[j]).name@ == omt_name(addresses@[j]@) && opt_text(
                    out@[j].host,
                ) == omt_host(addresses@[j]@) && out@[j].address@ == addresses@[j]@,
        decreases addresses@.len() - i,
    {
        out.push(omt_source_at(addresses[i].as_str()));
        i += 1;
    }
    out
}

/// The place of the first address with a name.
pub open spec fn address_named(addresses: Seq<Seq<char>>, name: Seq<char>) -> Option<int>
    decreases addresses.len(),
{
    if addresses.len() == 0 {
        None
    } else {
        match address_named(addresses.drop_last(), name) {
            Some(i) => Some(i),
            None => if omt_name(addresses.last()) == name {
                Some(addresses.len() - 1)
            } else {
                None
            },
        }
    }
}

/// The first of the addresses that has the name.
pub fn find_address_by_name(addresses: &Vec<String>, name: &str) -> (r: Option<String>)
    ensures
        match address_named(texts(addresses@), name@) {
            Some(i) => 0 <= i < addresses@.len() && opt_text(r) == Some(addresses@[i]@),
            None => r is None,
        },
{
    let ghost t = texts(addresses@);
    let mut found: Option<usize> = None;
    let mut i: usize = 0;
    assert(t.take(0).len() == 0);
    while i < addresses.len()
        invariant
            i <= addresses@.len(),
            t == texts(addresses@),
            found is Some <==> address_named(t.take(i as int), name@) is Some,
            found matches Some(k) ==> k < i && address_named(t.take(i as int), name@) == Some(
                k as int,
            ),
        decreases addresses@.len() - i,
    {
        assert(t.take(i + 1).drop_last() == t.take(i as int));
        if found.is_none() {
            let s: OmtSource = omt_source_at(addresses[i].as_str());
            if same(s.name.as_str(), name) {
                found = Some(i);
            }
        }
        i += 1;
    }
    assert(t.take(i as int) == t);
    match found {
        Some(k) => Some(addresses[k].clone()),
        None => None,
    }
}

/// The place of the first source with a name.
pub fn find_source_by_name(sources: &Vec<NdiSource>, name: &str) -> (r: Option<usize>)
    ensures
        r matches Some(i) ==> i < sources@.len() && sources@[i as int].name@ == name@ && forall|
            j: int,
        |
            0 <= j < i ==> (#[trigger] sources@[j]).name@ != name@,
        r is None ==> forall|j: int|
            0 <= j < sources@.len() ==> (#[trigger] sources@[j]).name@ != name@,
{
    let mut i: usize = 0;
    while i < sources.len()
        invariant
            i <= sources@.len(),
            forall|j: int| 0 <= j < i ==> (#[trigger] sources@[j]).name@ != name@,
        decreases sources@.len() - i,
    {
        if same(sources[i].name.as_str(), name) {
            return Some(i);
        }
        i += 1;
    }
    None
}

/// Whether a preview runs, and of what.
#[derive(Clone, Debug)]
pub struct PreviewStatus {
    pub active: bool,
    pub backend: Option<String>,
    pub source_name: Option<String>,
}

impl PreviewStatus {
    /// The status while the preview shows the named source; with no name, while
    /// there is none.
    pub fn showing(source: Option<String>) -> (r: PreviewStatus)
        ensures
            r.active == source is Some,
            opt_text(r.backend) == (if source is Some {
                Some("ndi"@)
            } else {
                None
            }),
            opt_text(r.source_name) == opt_text(source),
    {
        match source {
            Some(name) => PreviewStatus {
                active: true,
                backend: Some("ndi".to_owned()),
                source_name: Some(name),
            },
            None => PreviewStatus { active: false, backend: None, source_name: None },
        }
    }
}

} // verus!
