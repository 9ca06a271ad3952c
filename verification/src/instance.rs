//! One of several encoders that run side by side: its name and its ports.
use vstd::prelude::*;
use vstd::string::*;

use crate::number::{decimal, show};
use crate::scan::{find_last_char, is_blank, last_position, trim, trimmed};
use crate::text::{between_quotes, cat2, cat6, same, show_quoted, slice_text, texts, to_chars};

verus! {

/// What an instance is started with.
#[derive(Debug)]
pub struct Cli {
    pub instance_name: String,
    pub http_port: Option<u16>,
    pub bmd_port: Option<u16>,
}

impl Default for Cli {
    /// What an instance is started with if nothing is said.
    fn default() -> (r: Self)
        ensures
            r.instance_name@ == "default"@,
            r.http_port is None,
            r.bmd_port is None,
    {
        Cli { instance_name: "default".to_owned(), http_port: None, bmd_port: None }
    }
}

/// The port on which the API is first tried.
pub const HTTP_START_PORT: u16 = 8090;

/// The port on which the control protocol is first tried.
pub const BMD_START_PORT: u16 = 9977;

/// So many ports are tried.
pub const PORT_WALK: u16 = 10;

/// The port of the API.
#[derive(Clone, Copy, Debug)]
pub struct HttpPort(pub u16);

/// The port of the control protocol.
#[derive(Clone, Copy, Debug)]
pub struct BmdPort(pub u16);

impl Cli {
    /// The port on which the API is first tried.
    pub fn http_start(&self) -> (r: u16)
        ensures
            r == (match self.http_port {
                Some(p) => p,
                None => HTTP_START_PORT,
            }),
    {
        match self.http_port {
            Some(p) => p,
            None => HTTP_START_PORT,
        }
    }

    /// The port on which the control protocol is first tried.
    pub fn bmd_start(&self) -> (r: u16)
        ensures
            r == (match self.bmd_port {
                Some(p) => p,
                None => BMD_START_PORT,
            }),
    {
        match self.bmd_port {
            Some(p) => p,
            None => BMD_START_PORT,
        }
    }
}

/// The title of an instance's window.
pub open spec fn title(instance: Seq<char>, http_port: u16, bmd_port: u16) -> Seq<char> {
    let name = if instance == "default"@ {
        Seq::empty()
    } else {
        " ["@ + instance + "]"@
    };
    "ATEM IP Patchbay"@ + name + "  ·  http :"@ + decimal(http_port as nat) + "  ·  bmd :"@
        + decimal(bmd_port as nat)
}

/// The title of an instance's window.
pub fn window_title(instance: &str, http_port: u16, bmd_port: u16) -> (r: String)
    ensures
        r@ == title(instance@, http_port, bmd_port),
{
    let h: String = show(http_port as u64);
    let b: String = show(bmd_port as u64);
    let mut out: String = "ATEM IP Patchbay".to_owned();
    if !same(instance, "default") {
        out.push_str(" [");
        out.push_str(instance);
        out.push_str("]");
    }
    out.push_str("  ·  http :");
    out.push_str(h.as_str());
    out.push_str("  ·  bmd :");
    out.push_str(b.as_str());
    assert(out@ =~= title(instance@, http_port, bmd_port));
    out
}

/// Why an instance cannot have a name.
#[derive(Debug)]
pub enum NameError {
    /// There is no name.
    Empty,
    /// The name cannot be that of a directory.
    Invalid(String),
}

/// What a name cannot hold, as it names a directory.
pub open spec fn breaks_paths(c: char) -> bool {
    c == '/' || c == '\\' || c == ':' || c == '\0'
}

/// A character that a name cannot hold stands in it.
pub open spec fn has_bad_char(s: Seq<char>) -> bool {
    exists|i: int| 0 <= i < s.len() && breaks_paths(#[trigger] s[i])
}

impl NameError {
    /// What the operator is told.
    pub fn message(&self) -> (r: String)
        ensures
            r@ == (match *self {
                NameError::Empty => "instance name cannot be empty"@,
                NameError::Invalid(n) => "instance name contains invalid characters: "@
                    + between_quotes(n@),
            }),
    {
        match self {
            NameError::Empty => "instance name cannot be empty".to_owned(),
            NameError::Invalid(n) => {
                let q: String = show_quoted(n.as_str());
                cat2("instance name contains invalid characters: ", q.as_str())
            },
        }
    }
}

/// The name of a new instance, without whitespace at its ends.
pub fn check_name(name: &str) -> (r: Result<String, NameError>)
    ensures
        match r {
            Ok(n) => n@ == trimmed(name@) && !is_blank(name@) && !has_bad_char(trimmed(name@)),
            Err(NameError::Empty) => is_blank(name@),
            Err(NameError::Invalid(n)) => !is_blank(name@) && has_bad_char(trimmed(name@)) && n@
                == trimmed(name@),
        },
{
    let t: String = trim(name);
    if t.as_str().is_empty() {
        return Err(NameError::Empty);
    }
    let v: Vec<char> = to_chars(t.as_str());
    let mut i: usize = 0;
    while i < v.len()
        invariant
            i <= v@.len(),
            v@ == t@,
            t@ == trimmed(name@),
            !is_blank(name@),
            forall|j: int| 0 <= j < i ==> !breaks_paths(#[trigger] v@[j]),
        decreases v@.len() - i,
    {
        let c: char = v[i];
        if c == '/' || c == '\\' || c == ':' || c == '\0' {
            assert(breaks_paths(t@[i as int]));
            return Err(NameError::Invalid(t));
        }
        i += 1;
    }
    Ok(t)
}

/// The arguments that start an instance with a name.
pub fn instance_args(name: &str) -> (r: Vec<String>)
    ensures
        texts(r@) == seq!["--instance-name"@, name@],
{
    let mut out: Vec<String> = Vec::new();
    out.push("--instance-name".to_owned());
    out.push(name.to_owned());
    assert(texts(out@) =~= seq!["--instance-name"@, name@]);
    out
}

// ---------------------------------------------------------------------------
// Ports
// ---------------------------------------------------------------------------

/// The ports that are tried, the first one first.
pub fn ports_to_try(start: u16) -> (r: Vec<u16>)
    requires
        start + PORT_WALK - 1 <= u16::MAX,
    ensures
        r@ == Seq::new(PORT_WALK as nat, |i: int| (start + i) as u16),
{
    let mut out: Vec<u16> = Vec::new();
    let mut i: u16 = 0;
    while i < PORT_WALK
        invariant
            i <= PORT_WALK,
            start + PORT_WALK - 1 <= u16::MAX,
            out@ == Seq::new(i as nat, |j: int| (start + j) as u16),
        decreases PORT_WALK - i,
    {
        out.push(start + i);
        i += 1;
        assert(out@ =~= Seq::new(i as nat, |j: int| (start + j) as u16));
    }
    out
}

/// What is told when none of the ports is free.
pub open spec fn bind_fault(what: Seq<char>, start: u16, last: Seq<char>) -> Seq<char> {
    "could not bind "@ + what + " on TCP "@ + decimal(start as nat) + "-"@ + decimal(
        (start + PORT_WALK - 1) as nat,
    ) + ": "@ + last
}

/// What is told when none of the ports is free, with the last error.
pub fn bind_fault_text(what: &str, start: u16, last_error: &Option<String>) -> (r: String)
    requires
        start + PORT_WALK - 1 <= u16::MAX,
    ensures
        r@ == bind_fault(
            what@,
            start,
            match *last_error {
                Some(e) => e@,
                None => "no error"@,
            },
        ),
{
    let a: String = show(start as u64);
    let b: String = show((start + (PORT_WALK - 1)) as u64);
    let last: &str = match last_error {
        Some(e) => e.as_str(),
        None => "no error",
    };
    let mut out: String = cat6("could not bind ", what, " on TCP ", a.as_str(), "-", b.as_str());
    out.push_str(": ");
    out.push_str(last);
    out
}

// ---------------------------------------------------------------------------
// Service files
// ---------------------------------------------------------------------------

/// A file that may describe a service: its path, and when it was last changed, if
/// that is known.
#[derive(Debug)]
pub struct ServiceFile {
    pub path: String,
    pub modified: Option<u64>,
}

/// What a `ServiceFile` holds.
pub struct FileModel {
    pub path: Seq<char>,
    pub modified: Option<u64>,
}

impl View for ServiceFile {
    type V = FileModel;

    open spec fn view(&self) -> FileModel {
        FileModel { path: self.path@, modified: self.modified }
    }
}

/// What files hold.
pub open spec fn file_models(v: Seq<ServiceFile>) -> Seq<FileModel> {
    Seq::new(v.len(), |i: int| v[i]@)
}

/// The first file was changed later than the second; one of which it is not known
/// counts as the oldest.
pub open spec fn is_newer(a: Option<u64>, b: Option<u64>) -> bool {
    match (a, b) {
        (Some(x), Some(y)) => x > y,
        (Some(_), None) => true,
        _ => false,
    }
}

/// The file name ends in `.xml` and has something before it.
pub open spec fn names_xml(name: Seq<char>) -> bool {
    last_position(name, '.') > 0 && name.skip(last_position(name, '.') + 1) == "xml"@
}

/// Whether a file with the name describes a service.
pub fn is_service_file(name: &str) -> (r: bool)
    ensures
        r == names_xml(name@),
{
    let v: Vec<char> = to_chars(name);
    match find_last_char(&v, '.') {
        Some(i) => {
            let n: usize = v.len();
            let ext: String = slice_text(&v, i + 1, n);
            assert(ext@ == name@.skip(i + 1));
            i > 0 && same(ext.as_str(), "xml")
        },
        None => false,
    }
}

/// How many files at the start of `v` are not older than a file.
pub open spec fn place_for(v: Seq<FileModel>, f: FileModel) -> nat
    decreases v.len(),
{
    if v.len() == 0 || is_newer(f.modified, v[0].modified) {
        0
    } else {
        1 + place_for(v.drop_first(), f)
    }
}

/// The files, the newest first; of files with one age, the first stays first.
pub open spec fn newest_first(v: Seq<FileModel>) -> Seq<FileModel>
    decreases v.len(),
{
    if v.len() == 0 {
        Seq::empty()
    } else {
        let sorted = newest_first(v.drop_last());
        sorted.insert(place_for(sorted, v.last()) as int, v.last())
    }
}

fn newer(a: Option<u64>, b: Option<u64>) -> (r: bool)
    ensures
        r == is_newer(a, b),
{
    match a {
        Some(x) => match b {
            Some(y) => x > y,
            None => true,
        },
        None => false,
    }
}

proof fn place_is(v: Seq<FileModel>, f: FileModel, i: int)
    requires
        0 <= i <= v.len(),
        forall|j: int| 0 <= j < i ==> !is_newer(f.modified, (#[trigger] v[j]).modified),
        i < v.len() ==> is_newer(f.modified, v[i].modified),
    ensures
        place_for(v, f) == i,
    decreases v.len(),
{
    if i > 0 {
        assert(!is_newer(f.modified, v[0].modified));
        let t = v.drop_first();
        assert forall|j: int| 0 <= j < i - 1 implies !is_newer(
            f.modified,
            (#[trigger] t[j]).modified,
        ) by {
            assert(t[j] == v[j + 1]);
        }
        place_is(t, f, i - 1);
    }
}

/// The order in which service files are loaded, the newest first, as the first one
/// becomes the active service.
pub fn load_order(files: Vec<ServiceFile>) -> (r: Vec<ServiceFile>)
    ensures
        file_models(r@) == newest_first(file_models(files@)),
{
    let ghost all = file_models(files@);
    let mut rest: Vec<ServiceFile> = files;
    let mut out: Vec<ServiceFile> = Vec::new();
    let mut n: usize = 0;
    let total: usize = rest.len();
    assert(all.take(0).len() == 0);
    assert(file_models(out@) =~= Seq::<FileModel>::empty());
    assert(all.skip(0) =~= file_models(rest@));
    while n < total
        invariant
            n <= total,
            total == all.len(),
            file_models(rest@) == all.skip(n as int),
            file_models(out@) == newest_first(all.take(n as int)),
        decreases total - n,
    {
        assert(rest@.len() == all.skip(n as int).len());
        let ghost had = rest@;
        let f: ServiceFile = rest.remove(0);
        assert(f@ == file_models(had)[0]);
        assert forall|k: int| 0 <= k < rest@.len() implies file_models(rest@)[k] == all.skip(
            n + 1,
        )[k] by {
            assert(rest@[k] == had[k + 1]);
            assert(file_models(had)[k + 1] == all.skip(n as int)[k + 1]);
        }
        assert(file_models(rest@) =~= all.skip(n + 1));
        assert(all.take(n + 1).drop_last() == all.take(n as int));
        let ghost sorted = file_models(out@);
        let mut i: usize = 0;
        while i < out.len() && !newer(f.modified, out[i].modified)
            invariant
                i <= out@.len(),
                sorted == file_models(out@),
                forall|j: int|
                    0 <= j < i ==> !is_newer(f.modified, (#[trigger] sorted[j]).modified),
            decreases out@.len() - i,
        {
            assert(sorted[i as int] == out@[i as int]@);
            i += 1;
        }
        proof {
            if i < out@.len() {
                assert(sorted[i as int] == out@[i as int]@);
            }
            place_is(sorted, f@, i as int);
        }
        out.insert(i, f);
        assert(file_models(out@) =~= sorted.insert(i as int, f@));
        n += 1;
    }
    assert(all.take(n as int) == all);
    out
}

/// No file is older than one that is loaded after it.
pub proof fn newest_first_is_sorted(v: Seq<FileModel>)
    ensures
        forall|i: int, j: int|
            0 <= i < j < newest_first(v).len() ==> !is_newer(
                (#[trigger] newest_first(v)[j]).modified,
                (#[trigger] newest_first(v)[i]).modified,
            ),
    decreases v.len(),
{
    if v.len() > 0 {
        let s = newest_first(v.drop_last());
        let f = v.last();
        newest_first_is_sorted(v.drop_last());
        place_facts(s, f);
        let p = place_for(s, f) as int;
        let r = newest_first(v);
        assert forall|i: int, j: int| 0 <= i < j < r.len() implies !is_newer(
            (#[trigger] r[j]).modified,
            (#[trigger] r[i]).modified,
        ) by {
            let si = if i < p {
                s[i]
            } else if i == p {
                f
            } else {
                s[i - 1]
            };
            let sj = if j < p {
                s[j]
            } else if j == p {
                f
            } else {
                s[j - 1]
            };
            assert(r[i] == si && r[j] == sj);
            if i == p {
                if j - 1 > p {
                    assert(!is_newer(s[j - 1].modified, s[p].modified));
                }
            } else if j == p {
            } else {
                let a = if i < p {
                    i
                } else {
                    i - 1
                };
                let b = if j < p {
                    j
                } else {
                    j - 1
                };
                assert(!is_newer(s[b].modified, s[a].modified));
            }
        }
    }
}

proof fn place_facts(v: Seq<FileModel>, f: FileModel)
    ensures
        place_for(v, f) <= v.len(),
        place_for(v, f) < v.len() ==> is_newer(f.modified, v[place_for(v, f) as int].modified),
        forall|j: int|
            0 <= j < place_for(v, f) ==> !is_newer(f.modified, (#[trigger] v[j]).modified),
    decreases v.len(),
{
    if v.len() > 0 && !is_newer(f.modified, v[0].modified) {
        let t = v.drop_first();
        place_facts(t, f);
        assert forall|j: int| 0 <= j < place_for(v, f) implies !is_newer(
            f.modified,
            (#[trigger] v[j]).modified,
        ) by {
            if j > 0 {
                assert(v[j] == t[j - 1]);
            }
        }
    }
}

/// Every file is loaded once.
pub proof fn newest_first_keeps_all(v: Seq<FileModel>)
    ensures
        newest_first(v).to_multiset() == v.to_multiset(),
    decreases v.len(),
{
    broadcast use vstd::seq_lib::group_to_multiset_ensures;

    if v.len() > 0 {
        let s = newest_first(v.drop_last());
        let f = v.last();
        newest_first_keeps_all(v.drop_last());
        place_facts(s, f);
        assert(v =~= v.drop_last().push(f));
        assert(newest_first(v).to_multiset() =~= s.to_multiset().insert(f));
        assert(v.to_multiset() =~= v.drop_last().to_multiset().insert(f));
    } else {
        assert(newest_first(v) =~= v);
    }
}

} // verus!
