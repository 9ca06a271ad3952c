//! The registry of streaming services, kept in the order of their names.
use vstd::prelude::*;
use vstd::string::*;

use crate::text::to_chars;
use crate::xml::{ServiceModel, StreamService};

verus! {

/// `a` comes before `b` in the order of texts: character by character, by code
/// point, and a text before all longer texts that start with it.
pub open spec fn comes_before(a: Seq<char>, b: Seq<char>) -> bool
    decreases a.len(),
{
    if b.len() == 0 {
        false
    } else if a.len() == 0 {
        true
    } else if a[0] == b[0] {
        comes_before(a.drop_first(), b.drop_first())
    } else {
        a[0] < b[0]
    }
}

/// Of two texts either one comes before the other or they are the same, and
/// never two of these.
pub proof fn order_is_total(a: Seq<char>, b: Seq<char>)
    ensures
        comes_before(a, b) || comes_before(b, a) || a == b,
        !(comes_before(a, b) && comes_before(b, a)),
        a == b ==> !comes_before(a, b),
    decreases a.len(),
{
    if a.len() > 0 && b.len() > 0 && a[0] == b[0] {
        let x = a.drop_first();
        let y = b.drop_first();
        order_is_total(x, y);
        if x == y {
            assert(a =~= b) by {
                assert forall|i: int| 0 <= i < a.len() implies a[i] == b[i] by {
                    if i > 0 {
                        assert(x[i - 1] == a[i]);
                        assert(y[i - 1] == b[i]);
                    }
                }
            }
        }
    } else if a.len() == 0 && b.len() == 0 {
        assert(a =~= b);
    }
}

/// The order of texts is transitive.
pub proof fn order_is_transitive(a: Seq<char>, b: Seq<char>, c: Seq<char>)
    requires
        comes_before(a, b),
        comes_before(b, c),
    ensures
        comes_before(a, c),
    decreases a.len(),
{
    if a.len() > 0 && b.len() > 0 && c.len() > 0 && a[0] == b[0] && b[0] == c[0] {
        order_is_transitive(a.drop_first(), b.drop_first(), c.drop_first());
    }
}

/// Whether `a` comes before `b`.
pub fn is_before(a: &str, b: &str) -> (r: bool)
    ensures
        r == comes_before(a@, b@),
{
    let x: Vec<char> = to_chars(a);
    let y: Vec<char> = to_chars(b);
    let mut i: usize = 0;
    assert(x@.skip(0) == a@);
    assert(y@.skip(0) == b@);
    while i < x.len() && i < y.len() && x[i] == y[i]
        invariant
            i <= x@.len(),
            i <= y@.len(),
            comes_before(x@.skip(i as int), y@.skip(i as int)) == comes_before(a@, b@),
        decreases x@.len() - i,
    {
        assert(x@.skip(i as int).drop_first() == x@.skip(i + 1));
        assert(y@.skip(i as int).drop_first() == y@.skip(i + 1));
        i += 1;
    }
    if i == y.len() {
        false
    } else if i == x.len() {
        true
    } else {
        assert(x@.skip(i as int)[0] == x@[i as int]);
        assert(y@.skip(i as int)[0] == y@[i as int]);
        x[i] < y[i]
    }
}

/// What the services of a list hold.
pub open spec fn service_models(s: Seq<StreamService>) -> Seq<ServiceModel> {
    Seq::new(s.len(), |i: int| s[i]@)
}

/// The names of services, in order.
pub open spec fn service_names(s: Seq<ServiceModel>) -> Seq<Seq<char>> {
    Seq::new(s.len(), |i: int| s[i].name)
}

/// Each service comes before the next by name; so no two have the same name.
pub open spec fn in_name_order(s: Seq<ServiceModel>) -> bool {
    forall|i: int, j: int|
        0 <= i < j < s.len() ==> comes_before(#[trigger] s[i].name, #[trigger] s[j].name)
}

/// The service called `name`, if there is one.
pub open spec fn lookup(s: Seq<ServiceModel>, name: Seq<char>) -> Option<ServiceModel>
    decreases s.len(),
{
    if s.len() == 0 {
        None
    } else if s.last().name == name {
        Some(s.last())
    } else {
        lookup(s.drop_last(), name)
    }
}

/// A service of an ordered list is what a lookup of its name finds.
pub proof fn lookup_finds(s: Seq<ServiceModel>, i: int)
    requires
        in_name_order(s),
        0 <= i < s.len(),
    ensures
        lookup(s, s[i].name) == Some(s[i]),
    decreases s.len(),
{
    if i < s.len() - 1 {
        let last = s.len() - 1;
        order_is_total(s[i].name, s[last].name);
        assert(comes_before(s[i].name, s[last].name));
        assert(s.drop_last()[i] == s[i]);
        assert(in_name_order(s.drop_last()));
        lookup_finds(s.drop_last(), i);
    }
}

/// A lookup of a name that no service has finds nothing.
pub proof fn lookup_misses(s: Seq<ServiceModel>, name: Seq<char>)
    requires
        forall|i: int| 0 <= i < s.len() ==> (#[trigger] s[i]).name != name,
    ensures
        lookup(s, name) is None,
    decreases s.len(),
{
    if s.len() > 0 {
        assert(s[s.len() - 1].name != name);
        assert forall|i: int| 0 <= i < s.drop_last().len() implies (
        #[trigger] s.drop_last()[i]).name != name by {
            assert(s.drop_last()[i] == s[i]);
        }
        lookup_misses(s.drop_last(), name);
    }
}

/// What a lookup finds stands in the list, under the name asked for.
pub proof fn lookup_is_there(s: Seq<ServiceModel>, name: Seq<char>) -> (i: int)
    requires
        lookup(s, name) is Some,
    ensures
        0 <= i < s.len(),
        s[i] == lookup(s, name)->0,
        s[i].name == name,
    decreases s.len(),
{
    if s.last().name == name {
        s.len() - 1
    } else {
        lookup_is_there(s.drop_last(), name)
    }
}

/// The place of the service called `name`.
pub fn find_service(s: &Vec<StreamService>, name: &str) -> (r: Option<usize>)
    requires
        in_name_order(service_models(s@)),
    ensures
        r is Some <==> lookup(service_models(s@), name@) is Some,
        r matches Some(i) ==> i < s@.len() && s@[i as int].name@ == name@ && lookup(
            service_models(s@),
            name@,
        ) == Some(s@[i as int]@),
{
    let ghost m = service_models(s@);
    let mut i: usize = 0;
    while i < s.len()
        invariant
            i <= s@.len(),
            m == service_models(s@),
            in_name_order(m),
            forall|j: int| 0 <= j < i ==> (#[trigger] m[j]).name != name@,
        decreases s@.len() - i,
    {
        if crate::text::same(s[i].name.as_str(), name) {
            proof {
                lookup_finds(m, i as int);
            }
            return Some(i);
        }
        i += 1;
    }
    proof {
        lookup_misses(m, name@);
    }
    None
}

/// `n` is `o` with `svc` added under its name, in place of one that had the
/// name before.
pub open spec fn with_service(
    o: Seq<ServiceModel>,
    svc: ServiceModel,
    n: Seq<ServiceModel>,
) -> bool {
    &&& in_name_order(n)
    &&& forall|name: Seq<char>| #[trigger]
        lookup(n, name) == (if name == svc.name {
            Some(svc)
        } else {
            lookup(o, name)
        })
}

/// `m` is one of the services of `s`.
spec fn stands_in(m: ServiceModel, s: Seq<ServiceModel>) -> bool {
    exists|j: int| 0 <= j < s.len() && s[j] == m
}

/// Two lookups in ordered lists agree if each service of the one that is not
/// called `skip` stands in the other.
proof fn lookup_agrees(
    o: Seq<ServiceModel>,
    n: Seq<ServiceModel>,
    skip: Seq<char>,
    name: Seq<char>,
)
    requires
        in_name_order(o),
        in_name_order(n),
        name != skip,
        forall|i: int|
            0 <= i < o.len() && o[i].name != skip ==> #[trigger] stands_in(o[i], n),
        forall|i: int|
            0 <= i < n.len() && n[i].name != skip ==> #[trigger] stands_in(n[i], o),
    ensures
        lookup(o, name) == lookup(n, name),
{
    if lookup(o, name) is Some {
        let i = lookup_is_there(o, name);
        assert(stands_in(o[i], n));
        let j = choose|j: int| 0 <= j < n.len() && n[j] == o[i];
        lookup_finds(n, j);
    } else if lookup(n, name) is Some {
        let i = lookup_is_there(n, name);
        assert(stands_in(n[i], o));
        let j = choose|j: int| 0 <= j < o.len() && o[j] == n[i];
        lookup_finds(o, j);
    }
}

/// Adds a service under its name, in place of one that had the name before.
pub fn put_service(s: &mut Vec<StreamService>, svc: StreamService)
    requires
        in_name_order(service_models(old(s)@)),
    ensures
        with_service(service_models(old(s)@), svc@, service_models(final(s)@)),
{
    let ghost o = service_models(s@);
    let ghost model = svc@;
    let mut i: usize = 0;
    while i < s.len() && is_before(s[i].name.as_str(), svc.name.as_str())
        invariant
            i <= s@.len(),
            s@ == old(s)@,
            o == service_models(s@),
            model == svc@,
            forall|j: int| 0 <= j < i ==> comes_before(#[trigger] o[j].name, model.name),
        decreases s@.len() - i,
    {
        i += 1;
    }
    let taken: bool = i < s.len() && crate::text::same(s[i].name.as_str(), svc.name.as_str());
    if taken {
        s.set(i, svc);
        let ghost n = service_models(s@);
        proof {
            assert(n =~= o.update(i as int, model));
            assert(in_name_order(n)) by {
                assert forall|a: int, b: int| 0 <= a < b < n.len() implies comes_before(
                    #[trigger] n[a].name,
                    #[trigger] n[b].name,
                ) by {
                    assert(n[a].name == o[a].name);
                    assert(n[b].name == o[b].name);
                }
            }
            lookup_finds(n, i as int);
            assert forall|name: Seq<char>| #[trigger] lookup(n, name) == (if name == model.name {
                Some(model)
            } else {
                lookup(o, name)
            }) by {
                if name != model.name {
                    assert forall|k: int| 0 <= k < o.len() && o[k].name
                        != model.name implies #[trigger] stands_in(o[k], n) by {
                        assert(n[k] == o[k]);
                    }
                    assert forall|k: int| 0 <= k < n.len() && n[k].name
                        != model.name implies #[trigger] stands_in(n[k], o) by {
                        assert(o[k] == n[k]);
                    }
                    lookup_agrees(o, n, model.name, name);
                }
            }
        }
    } else {
        proof {
            if i < s@.len() {
                order_is_total(o[i as int].name, model.name);
                assert forall|j: int| i <= j < o.len() implies comes_before(
                    model.name,
                    #[trigger] o[j].name,
                ) by {
                    if j > i {
                        order_is_transitive(model.name, o[i as int].name, o[j].name);
                    }
                }
            }
        }
        s.insert(i, svc);
        let ghost n = service_models(s@);
        proof {
            assert(n =~= o.insert(i as int, model));
            assert(in_name_order(n)) by {
                assert forall|a: int, b: int| 0 <= a < b < n.len() implies comes_before(
                    #[trigger] n[a].name,
                    #[trigger] n[b].name,
                ) by {
                    let oa = if a < i {
                        a
                    } else {
                        a - 1
                    };
                    let ob = if b < i {
                        b
                    } else {
                        b - 1
                    };
                    if a != i {
                        assert(n[a] == o[oa]);
                    }
                    if b != i {
                        assert(n[b] == o[ob]);
                    }
                }
            }
            lookup_finds(n, i as int);
            assert(n[i as int] == model);
            assert forall|name: Seq<char>| #[trigger] lookup(n, name) == (if name == model.name {
                Some(model)
            } else {
                lookup(o, name)
            }) by {
                if name != model.name {
                    assert forall|k: int| 0 <= k < o.len() && o[k].name
                        != model.name implies #[trigger] stands_in(o[k], n) by {
                        if k < i {
                            assert(n[k] == o[k]);
                        } else {
                            assert(n[k + 1] == o[k]);
                        }
                    }
                    assert forall|k: int| 0 <= k < n.len() && n[k].name
                        != model.name implies #[trigger] stands_in(n[k], o) by {
                        if k < i {
                            assert(o[k] == n[k]);
                        } else {
                            assert(o[k - 1] == n[k]);
                        }
                    }
                    lookup_agrees(o, n, model.name, name);
                }
            }
        }
    }
}

} // verus!
