//! Putting things in order by a number, the largest first.
use vstd::prelude::*;

verus! {

/// How many of the places at the start of `order` hold a number that is not less than
/// `key`.
pub open spec fn rank_place(order: Seq<int>, keys: Seq<u64>, key: u64) -> nat
    decreases order.len(),
{
    if order.len() == 0 || keys[order[0]] < key {
        0
    } else {
        1 + rank_place(order.drop_first(), keys, key)
    }
}

/// The places of the first `n` numbers, that of the largest number first; of equal
/// numbers, the first stays first.
pub open spec fn ranked(keys: Seq<u64>, n: nat) -> Seq<int>
    decreases n,
{
    if n == 0 {
        Seq::empty()
    } else {
        let front = ranked(keys, (n - 1) as nat);
        front.insert(rank_place(front, keys, keys[n - 1]) as int, n - 1)
    }
}

/// Places as whole numbers.
pub open spec fn places(v: Seq<usize>) -> Seq<int> {
    Seq::new(v.len(), |i: int| v[i] as int)
}

proof fn rank_place_is(order: Seq<int>, keys: Seq<u64>, key: u64, i: int)
    requires
        0 <= i <= order.len(),
        forall|j: int| 0 <= j < i ==> keys[#[trigger] order[j]] >= key,
        i < order.len() ==> keys[order[i]] < key,
    ensures
        rank_place(order, keys, key) == i,
    decreases order.len(),
{
    if i > 0 {
        assert(keys[order[0]] >= key);
        let t = order.drop_first();
        assert forall|j: int| 0 <= j < i - 1 implies keys[#[trigger] t[j]] >= key by {
            assert(t[j] == order[j + 1]);
        }
        rank_place_is(t, keys, key, i - 1);
    }
}

proof fn rank_place_facts(order: Seq<int>, keys: Seq<u64>, key: u64)
    ensures
        rank_place(order, keys, key) <= order.len(),
        forall|j: int|
            0 <= j < rank_place(order, keys, key) ==> keys[#[trigger] order[j]] >= key,
        rank_place(order, keys, key) < order.len() ==> keys[order[rank_place(
            order,
            keys,
            key,
        ) as int]] < key,
    decreases order.len(),
{
    if order.len() > 0 && keys[order[0]] >= key {
        let t = order.drop_first();
        rank_place_facts(t, keys, key);
        assert forall|j: int| 0 <= j < rank_place(order, keys, key) implies keys[
            #[trigger] order[j]
        ] >= key by {
            if j > 0 {
                assert(order[j] == t[j - 1]);
            }
        }
    }
}

/// Every place comes up once, and no number comes before a larger one.
pub proof fn ranked_is_an_order(keys: Seq<u64>, n: nat)
    requires
        n <= keys.len(),
    ensures
        ranked(keys, n).len() == n,
        forall|i: int| 0 <= i < n ==> 0 <= #[trigger] ranked(keys, n)[i] < n,
        ranked(keys, n).no_duplicates(),
        forall|i: int, j: int|
            0 <= i < j < n ==> keys[#[trigger] ranked(keys, n)[i]] >= keys[#[trigger] ranked(
                keys,
                n,
            )[j]],
    decreases n,
{
    if n > 0 {
        let m = (n - 1) as nat;
        let front = ranked(keys, m);
        let key = keys[n - 1];
        ranked_is_an_order(keys, m);
        rank_place_facts(front, keys, key);
        let p = rank_place(front, keys, key) as int;
        let all = ranked(keys, n);
        assert forall|i: int| 0 <= i < n implies 0 <= #[trigger] all[i] < n by {
            if i < p {
                assert(all[i] == front[i]);
            } else if i > p {
                assert(all[i] == front[i - 1]);
            }
        }
        assert forall|i: int, j: int| 0 <= i < n && 0 <= j < n && i != j implies all[i]
            != all[j] by {
            let a = if i < p {
                front[i]
            } else if i == p {
                n - 1
            } else {
                front[i - 1]
            };
            let b = if j < p {
                front[j]
            } else if j == p {
                n - 1
            } else {
                front[j - 1]
            };
            assert(all[i] == a && all[j] == b);
        }
        assert forall|i: int, j: int| 0 <= i < j < n implies keys[#[trigger] all[i]] >= keys[
            #[trigger] all[j]
        ] by {
            let a = if i < p {
                front[i]
            } else if i == p {
                n - 1
            } else {
                front[i - 1]
            };
            let b = if j < p {
                front[j]
            } else if j == p {
                n - 1
            } else {
                front[j - 1]
            };
            assert(all[i] == a && all[j] == b);
            if i == p {
                if j - 1 > p {
                    assert(keys[front[p]] >= keys[front[j - 1]]);
                }
            } else if j == p {
                assert(keys[front[i]] >= key);
            }
        }
    }
}

/// The places of the numbers, that of the largest number first; of equal numbers, the
/// first stays first.
pub fn rank(keys: &Vec<u64>) -> (r: Vec<usize>)
    ensures
        places(r@) == ranked(keys@, keys@.len()),
        r@.len() == keys@.len(),
        forall|i: int| 0 <= i < r@.len() ==> (#[trigger] r@[i]) < keys@.len(),
{
    let mut out: Vec<usize> = Vec::new();
    let mut n: usize = 0;
    assert(places(out@) =~= Seq::<int>::empty());
    while n < keys.len()
        invariant
            n <= keys@.len(),
            out@.len() == n,
            forall|i: int| 0 <= i < n ==> (#[trigger] out@[i]) < n,
            places(out@) == ranked(keys@, n as nat),
        decreases keys@.len() - n,
    {
        let key: u64 = keys[n];
        let ghost front = places(out@);
        let mut i: usize = 0;
        while i < out.len() && keys[out[i]] >= key
            invariant
                i <= out@.len(),
                out@.len() == n,
                n < keys@.len(),
                front == places(out@),
                forall|j: int| 0 <= j < n ==> (#[trigger] out@[j]) < n,
                forall|j: int| 0 <= j < i ==> keys@[#[trigger] front[j]] >= key,
            decreases out@.len() - i,
        {
            assert(front[i as int] == out@[i as int]);
            i += 1;
        }
        proof {
            if i < out@.len() {
                assert(front[i as int] == out@[i as int]);
            }
            rank_place_is(front, keys@, key, i as int);
        }
        let ghost had = out@;
        out.insert(i, n);
        assert(places(out@) =~= front.insert(i as int, n as int));
        n += 1;
    }
    out
}

} // verus!
