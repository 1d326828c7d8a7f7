//! The order in which a collection takes the classifications of its
//! elements: encodings compared word by word, the shorter first where one
//! begins the other.

use vstd::prelude::*;

verus! {

/// `a` and `b` hold the same words at every place before `k`.
pub open spec fn agree_below(a: Seq<u64>, b: Seq<u64>, k: int) -> bool {
    forall|j: int| 0 <= j < k ==> #[trigger] a[j] == b[j]
}

/// `k` is a place where `a` falls before `b`: they agree before it, `b` goes
/// on, and `a` ends there or holds the smaller word.
pub open spec fn parts_at(a: Seq<u64>, b: Seq<u64>, k: int) -> bool {
    &&& 0 <= k <= a.len()
    &&& k < b.len()
    &&& agree_below(a, b, k)
    &&& (k < a.len() ==> a[k] < b[k])
}

/// `a` comes strictly before `b`.
pub open spec fn precedes(a: Seq<u64>, b: Seq<u64>) -> bool {
    exists|k: int| #[trigger] parts_at(a, b, k)
}

/// Nothing comes before itself.
pub proof fn lemma_precedes_irreflexive(a: Seq<u64>)
    ensures
        !precedes(a, a),
{
}

/// What comes before something that comes before `c` comes before `c`.
pub proof fn lemma_precedes_transitive(a: Seq<u64>, b: Seq<u64>, c: Seq<u64>)
    requires
        precedes(a, b),
        precedes(b, c),
    ensures
        precedes(a, c),
{
    let k1 = choose|k: int| #[trigger] parts_at(a, b, k);
    let k2 = choose|k: int| #[trigger] parts_at(b, c, k);
    let k = if k1 <= k2 {
        k1
    } else {
        k2
    };
    // `a` and `c` agree with `b` before `k`, and part there as the nearer
    // of the two pairs does.
    assert(agree_below(a, c, k));
    assert(parts_at(a, c, k));
}

/// Of two encodings at most one comes before the other.
pub proof fn lemma_precedes_asymmetric(a: Seq<u64>, b: Seq<u64>)
    requires
        precedes(a, b),
    ensures
        !precedes(b, a),
        a != b,
{
    if precedes(b, a) {
        lemma_precedes_transitive(a, b, a);
    }
    lemma_precedes_irreflexive(a);
}

/// Two encodings that agree before `i` are the same or ordered.
proof fn lemma_scan(a: Seq<u64>, b: Seq<u64>, i: int)
    requires
        0 <= i <= a.len(),
        i <= b.len(),
        agree_below(a, b, i),
    ensures
        a == b || precedes(a, b) || precedes(b, a),
    decreases a.len() - i,
{
    if i == a.len() && i == b.len() {
        assert(a =~= b);
    } else if i == a.len() {
        assert(parts_at(a, b, i));
    } else if i == b.len() || b[i] < a[i] {
        assert(agree_below(b, a, i));
        assert(parts_at(b, a, i));
    } else if a[i] < b[i] {
        assert(parts_at(a, b, i));
    } else {
        lemma_scan(a, b, i + 1);
    }
}

/// Any two distinct encodings are ordered, one way or the other.
pub proof fn lemma_precedes_total(a: Seq<u64>, b: Seq<u64>)
    ensures
        a == b || precedes(a, b) || precedes(b, a),
{
    lemma_scan(a, b, 0);
}

/// How one encoding stands to another.
#[derive(Debug, Copy, Clone, PartialEq, Eq, Structural)]
pub enum Rank {
    Before,
    Same,
    After,
}

/// How `a` stands to `b`.
pub open spec fn rank(a: Seq<u64>, b: Seq<u64>) -> Rank {
    if precedes(a, b) {
        Rank::Before
    } else if precedes(b, a) {
        Rank::After
    } else {
        Rank::Same
    }
}

/// `rank` is `Same` for equal encodings only.
pub proof fn lemma_rank_same(a: Seq<u64>, b: Seq<u64>)
    ensures
        rank(a, b) is Same <==> a == b,
{
    lemma_precedes_total(a, b);
    lemma_precedes_irreflexive(a);
}

/// Compares two encodings.
pub fn rank_words(a: &Vec<u64>, b: &Vec<u64>) -> (r: Rank)
    ensures
        r == rank(a@, b@),
{
    let mut i: usize = 0;
    while i < a.len() && i < b.len()
        invariant
            i <= a.len(),
            i <= b.len(),
            agree_below(a@, b@, i as int),
        decreases a.len() - i,
    {
        if a[i] < b[i] {
            proof {
                assert(parts_at(a@, b@, i as int));
                lemma_precedes_asymmetric(a@, b@);
            }
            return Rank::Before;
        }
        if b[i] < a[i] {
            proof {
                assert(agree_below(b@, a@, i as int));
                assert(parts_at(b@, a@, i as int));
                lemma_precedes_asymmetric(b@, a@);
            }
            return Rank::After;
        }
        i = i + 1;
    }
    if i < b.len() {
        proof {
            assert(parts_at(a@, b@, i as int));
            lemma_precedes_asymmetric(a@, b@);
        }
        Rank::Before
    } else if i < a.len() {
        proof {
            assert(agree_below(b@, a@, i as int));
            assert(parts_at(b@, a@, i as int));
            lemma_precedes_asymmetric(b@, a@);
        }
        Rank::After
    } else {
        proof {
            assert(a@ =~= b@);
            lemma_precedes_irreflexive(a@);
        }
        Rank::Same
    }
}

} // verus!
