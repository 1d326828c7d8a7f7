//! Ascending lists of keys: how a set of encodings is laid out before it is
//! folded, each member once and the smaller first.

use crate::digest::views;
use crate::order::{
    lemma_precedes_asymmetric, lemma_precedes_irreflexive, lemma_precedes_total,
    lemma_precedes_transitive, lemma_rank_same, precedes, rank_words, Rank,
};
use vstd::prelude::*;

verus! {

/// Each key comes strictly before those after it; so none occurs twice.
pub open spec fn ascending(keys: Seq<Seq<u64>>) -> bool {
    forall|i: int, j: int|
        0 <= i < j < keys.len() ==> precedes(#[trigger] keys[i], #[trigger] keys[j])
}

/// `keys` holds the members of `set`, each once, in ascending order.
pub open spec fn lists(keys: Seq<Seq<u64>>, set: Set<Seq<u64>>) -> bool {
    ascending(keys) && keys.to_set() == set
}

/// The members of `set` in ascending order.
pub open spec fn ascending_list(set: Set<Seq<u64>>) -> Seq<Seq<u64>> {
    choose|keys: Seq<Seq<u64>>| lists(keys, set)
}

/// The keys that `chosen` points at, in its order.
pub open spec fn picked(keys: Seq<Seq<u64>>, chosen: Seq<usize>) -> Seq<Seq<u64>> {
    chosen.map_values(|i: usize| keys[i as int])
}

/// An ascending list without its last key is ascending.
proof fn lemma_drop_last_ascending(s: Seq<Seq<u64>>)
    requires
        ascending(s),
        s.len() > 0,
    ensures
        ascending(s.drop_last()),
{
    let rest = s.drop_last();
    assert forall|i: int, j: int| 0 <= i < j < rest.len() implies precedes(
        #[trigger] rest[i],
        #[trigger] rest[j],
    ) by {
        assert(precedes(s[i], s[j]));
    }
}

/// A set has one ascending list only.
pub proof fn lemma_ascending_unique(s: Seq<Seq<u64>>, t: Seq<Seq<u64>>)
    requires
        ascending(s),
        ascending(t),
        s.to_set() == t.to_set(),
    ensures
        s == t,
    decreases s.len(),
{
    if s.len() == 0 {
        if t.len() > 0 {
            assert(s.to_set().contains(t[0]));
        }
        assert(s =~= t);
    } else {
        // The last key of each list is in the other. Were they different,
        // each would come before the other.
        let m = s.last();
        let w = t.last();
        assert(t.to_set().contains(m));
        assert(s.to_set().contains(w));
        let j = choose|j: int| 0 <= j < t.len() && t[j] == m;
        let i = choose|i: int| 0 <= i < s.len() && s[i] == w;
        if j < t.len() - 1 {
            assert(precedes(t[j], t[t.len() - 1]));
            if i < s.len() - 1 {
                assert(precedes(s[i], s[s.len() - 1]));
                lemma_precedes_asymmetric(m, w);
            } else {
                lemma_precedes_irreflexive(m);
            }
        }
        assert(m == w);
        // Without it, the two list the same set still.
        let s1 = s.drop_last();
        let t1 = t.drop_last();
        lemma_drop_last_ascending(s);
        lemma_drop_last_ascending(t);
        assert forall|x: Seq<u64>| s1.to_set().contains(x) <==> t1.to_set().contains(x) by {
            lemma_without_last(s, x);
            lemma_without_last(t, x);
        }
        assert(s1.to_set() =~= t1.to_set());
        lemma_ascending_unique(s1, t1);
        assert(s =~= s1.push(m));
        assert(t =~= t1.push(w));
    }
}

/// In an ascending list, all but the last are the members other than the
/// last.
proof fn lemma_without_last(s: Seq<Seq<u64>>, x: Seq<u64>)
    requires
        ascending(s),
        s.len() > 0,
    ensures
        s.drop_last().to_set().contains(x) <==> (s.to_set().contains(x) && x != s.last()),
{
    let s1 = s.drop_last();
    if s1.to_set().contains(x) {
        let p = choose|p: int| 0 <= p < s1.len() && s1[p] == x;
        assert(precedes(s[p], s[s.len() - 1]));
        lemma_precedes_asymmetric(x, s.last());
    }
    if s.to_set().contains(x) && x != s.last() {
        let p = choose|p: int| 0 <= p < s.len() && s[p] == x;
        assert(s1[p] == x);
    }
}

/// An ascending list can take one more key and stay ascending.
proof fn lemma_insert_exists(keys: Seq<Seq<u64>>, x: Seq<u64>)
    requires
        ascending(keys),
        !keys.contains(x),
    ensures
        exists|out: Seq<Seq<u64>>| lists(out, keys.to_set().insert(x)),
    decreases keys.len(),
{
    if keys.len() == 0 {
        let out = seq![x];
        assert(out =~= keys.push(x));
        keys.lemma_push_to_set_commute(x);
        assert(lists(out, keys.to_set().insert(x)));
    } else {
        let last = keys.last();
        lemma_precedes_total(last, x);
        if precedes(last, x) {
            // `x` goes to the end.
            let out = keys.push(x);
            assert forall|i: int, j: int| 0 <= i < j < out.len() implies precedes(
                #[trigger] out[i],
                #[trigger] out[j],
            ) by {
                if j == keys.len() && i < keys.len() - 1 {
                    assert(precedes(keys[i], keys[keys.len() - 1]));
                    lemma_precedes_transitive(keys[i], last, x);
                }
            }
            keys.lemma_push_to_set_commute(x);
            assert(lists(out, keys.to_set().insert(x)));
        } else {
            // `x` goes among the others, and the last key stays last.
            let rest = keys.drop_last();
            lemma_drop_last_ascending(keys);
            if rest.contains(x) {
                let k = choose|k: int| 0 <= k < rest.len() && rest[k] == x;
                assert(keys[k] == x);
            }
            lemma_insert_exists(rest, x);
            let shorter = choose|out: Seq<Seq<u64>>| lists(out, rest.to_set().insert(x));
            let out = shorter.push(last);
            assert forall|i: int, j: int| 0 <= i < j < out.len() implies precedes(
                #[trigger] out[i],
                #[trigger] out[j],
            ) by {
                if j == shorter.len() {
                    assert(shorter.to_set().contains(shorter[i]));
                    if shorter[i] != x {
                        let k = choose|k: int| 0 <= k < rest.len() && rest[k] == shorter[i];
                        assert(precedes(keys[k], keys[keys.len() - 1]));
                    }
                }
            }
            shorter.lemma_push_to_set_commute(last);
            assert(keys =~= rest.push(last));
            rest.lemma_push_to_set_commute(last);
            assert(out.to_set() =~= keys.to_set().insert(x));
            assert(lists(out, keys.to_set().insert(x)));
        }
    }
}

/// Every finite set of keys has its ascending list: the order leaves no two
/// keys unordered.
pub proof fn lemma_ascending_list(set: Set<Seq<u64>>)
    requires
        set.finite(),
    ensures
        lists(ascending_list(set), set),
    decreases set.len(),
{
    if set.len() == 0 {
        let none = Seq::<Seq<u64>>::empty();
        assert(none.to_set() =~= set);
        assert(lists(none, set));
    } else {
        let x = set.choose();
        let rest = set.remove(x);
        lemma_ascending_list(rest);
        lemma_insert_exists(ascending_list(rest), x);
        assert(rest.insert(x) =~= set);
    }
}

/// Where the key at `n` belongs among the chosen, found by halving: the
/// place before which every key comes before it, and whether the key at
/// that place is the same.
fn position(keys: &Vec<Vec<u64>>, chosen: &Vec<usize>, n: usize) -> (r: (usize, bool))
    requires
        n < keys.len(),
        forall|q: int| 0 <= q < chosen.len() ==> chosen[q] < keys.len(),
        ascending(picked(views(keys@), chosen@)),
    ensures
        r.0 <= chosen.len(),
        forall|q: int| 0 <= q < r.0 ==> precedes(#[trigger] keys[chosen[q] as int]@, keys[n as int]@),
        r.1 ==> r.0 < chosen.len() && keys[chosen[r.0 as int] as int]@ == keys[n as int]@,
        !r.1 && r.0 < chosen.len() ==> precedes(keys[n as int]@, keys[chosen[r.0 as int] as int]@),
{
    let ghost list = picked(views(keys@), chosen@);
    let ghost key = keys[n as int]@;
    let mut lo: usize = 0;
    let mut hi: usize = chosen.len();
    while lo < hi
        invariant
            lo <= hi <= chosen.len(),
            n < keys.len(),
            key == keys[n as int]@,
            list == picked(views(keys@), chosen@),
            ascending(list),
            forall|q: int| 0 <= q < chosen.len() ==> chosen[q] < keys.len(),
            forall|q: int| 0 <= q < lo ==> precedes(#[trigger] list[q], key),
            forall|q: int| hi <= q < chosen.len() ==> precedes(key, #[trigger] list[q]),
        decreases hi - lo,
    {
        let mid: usize = lo + (hi - lo) / 2;
        let r = rank_words(&keys[chosen[mid]], &keys[n]);
        proof {
            lemma_rank_same(list[mid as int], key);
        }
        match r {
            Rank::Before => {
                proof {
                    assert forall|q: int| 0 <= q < mid + 1 implies precedes(
                        #[trigger] list[q],
                        key,
                    ) by {
                        if q < mid {
                            assert(precedes(list[q], list[mid as int]));
                            lemma_precedes_transitive(list[q], list[mid as int], key);
                        }
                    }
                }
                lo = mid + 1;
            },
            Rank::Same => {
                proof {
                    assert forall|q: int| 0 <= q < mid implies precedes(
                        #[trigger] keys[chosen[q] as int]@,
                        keys[n as int]@,
                    ) by {
                        assert(precedes(list[q], list[mid as int]));
                    }
                }
                return (mid, true);
            },
            Rank::After => {
                proof {
                    assert forall|q: int| mid <= q < chosen.len() implies precedes(
                        key,
                        #[trigger] list[q],
                    ) by {
                        if q > mid {
                            assert(precedes(list[mid as int], list[q]));
                            lemma_precedes_transitive(key, list[mid as int], list[q]);
                        }
                    }
                }
                hi = mid;
            },
        }
    }
    proof {
        assert forall|q: int| 0 <= q < lo implies precedes(
            #[trigger] keys[chosen[q] as int]@,
            keys[n as int]@,
        ) by {
            assert(precedes(list[q], key));
        }
        if lo < chosen.len() {
            assert(precedes(key, list[lo as int]));
        }
    }
    (lo, false)
}

/// Takes the key at `n` into the chosen, unless its like is there already.
fn place(keys: &Vec<Vec<u64>>, chosen: &mut Vec<usize>, n: usize)
    requires
        n < keys.len(),
        forall|q: int| 0 <= q < old(chosen).len() ==> old(chosen)[q] < keys.len(),
        ascending(picked(views(keys@), old(chosen)@)),
    ensures
        forall|q: int| 0 <= q < final(chosen).len() ==> final(chosen)[q] < keys.len(),
        ascending(picked(views(keys@), final(chosen)@)),
        picked(views(keys@), final(chosen)@).to_set() == picked(
            views(keys@),
            old(chosen)@,
        ).to_set().insert(keys[n as int]@),
{
    let ghost all = views(keys@);
    let ghost before = picked(all, chosen@);
    let ghost key = keys[n as int]@;
    let (p, present) = position(keys, chosen, n);
    if present {
        proof {
            assert(before[p as int] == key);
            assert(before.to_set() =~= before.to_set().insert(key));
        }
    } else {
        chosen.insert(p, n);
        proof {
            // The keys below `p` keep their places, `key` stands at `p`, and
            // the others have moved one place on.
            let after = picked(all, chosen@);
            assert(after =~= before.insert(p as int, key));
            assert forall|i: int, j: int| 0 <= i < j < after.len() implies precedes(
                #[trigger] after[i],
                #[trigger] after[j],
            ) by {
                if i == p {
                    if j > p + 1 {
                        assert(precedes(before[p as int], before[j - 1]));
                        lemma_precedes_transitive(key, before[p as int], before[j - 1]);
                    }
                } else if j != p {
                    let from = if i < p {
                        i
                    } else {
                        i - 1
                    };
                    let to = if j < p {
                        j
                    } else {
                        j - 1
                    };
                    assert(precedes(before[from], before[to]));
                }
            }
            assert forall|x: Seq<u64>| after.to_set().contains(x) <==> before.to_set().insert(
                key,
            ).contains(x) by {
                if after.to_set().contains(x) {
                    let k = choose|k: int| 0 <= k < after.len() && after[k] == x;
                    if k < p {
                        assert(before[k] == x);
                    } else if k > p {
                        assert(before[k - 1] == x);
                    }
                }
                if before.to_set().contains(x) {
                    let k = choose|k: int| 0 <= k < before.len() && before[k] == x;
                    if k < p {
                        assert(after[k] == x);
                    } else {
                        assert(after[k + 1] == x);
                    }
                }
                if x == key {
                    assert(after[p as int] == x);
                }
            }
            assert(after.to_set() =~= before.to_set().insert(key));
        }
    }
}

/// Picks one key for each distinct key in `keys`, in ascending order of the
/// keys: the result points into `keys`.
pub fn distinct_ascending(keys: &Vec<Vec<u64>>) -> (chosen: Vec<usize>)
    ensures
        forall|q: int| 0 <= q < chosen.len() ==> chosen[q] < keys.len(),
        picked(views(keys@), chosen@) == ascending_list(views(keys@).to_set()),
        lists(picked(views(keys@), chosen@), views(keys@).to_set()),
{
    let ghost all = views(keys@);
    let mut chosen: Vec<usize> = Vec::new();
    let mut n: usize = 0;
    while n < keys.len()
        invariant
            n <= keys.len(),
            all == views(keys@),
            forall|q: int| 0 <= q < chosen.len() ==> chosen[q] < keys.len(),
            ascending(picked(all, chosen@)),
            picked(all, chosen@).to_set() == all.take(n as int).to_set(),
        decreases keys.len() - n,
    {
        place(keys, &mut chosen, n);
        proof {
            assert(all.take(n + 1) =~= all.take(n as int).push(all[n as int]));
            all.take(n as int).lemma_push_to_set_commute(all[n as int]);
        }
        n = n + 1;
    }
    proof {
        assert(all.take(n as int) =~= all);
        let list = picked(all, chosen@);
        assert(lists(list, all.to_set()));
        lemma_ascending_unique(list, ascending_list(all.to_set()));
    }
    chosen
}

} // verus!
