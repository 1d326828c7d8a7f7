//! Classification of tuples: the classes of the members, folded in the
//! order of their positions.

use crate::classify::{lemma_encodings_told_apart, told_apart, Classification, Classify};
use crate::digest::{digest, Digest};
use crate::record::{lemma_fields_read_back, record_words};
use vstd::prelude::*;

verus! {

impl<T: Classify> Classify for (T,) {
    type Output = u64;

    open spec fn spec_classify(&self) -> u64 {
        digest(self.0.spec_classify().encoding())
    }

    fn classify(&self) -> u64 {
        let mut state = Digest::new();
        state.fold(&self.0.classify());
        state.finish()
    }
}

/// The words a pair folds: the encoding of the class of its first member,
/// then that of its second.
pub open spec fn pair_words<T: Classify, U: Classify>(pair: (T, U)) -> Seq<u64> {
    pair.0.spec_classify().encoding() + pair.1.spec_classify().encoding()
}

impl<T: Classify, U: Classify> Classify for (T, U) {
    type Output = u64;

    open spec fn spec_classify(&self) -> u64 {
        digest(pair_words(*self))
    }

    fn classify(&self) -> u64 {
        let mut state = Digest::new();
        state.fold(&self.0.classify());
        state.fold(&self.1.classify());
        state.finish()
    }
}

impl<T: Classify, U: Classify, V: Classify> Classify for (T, U, V) {
    type Output = u64;

    open spec fn spec_classify(&self) -> u64 {
        digest(
            self.0.spec_classify().encoding() + self.1.spec_classify().encoding()
                + self.2.spec_classify().encoding(),
        )
    }

    fn classify(&self) -> u64 {
        let mut state = Digest::new();
        state.fold(&self.0.classify());
        state.fold(&self.1.classify());
        state.fold(&self.2.classify());
        assert(state@ =~= self.0.spec_classify().encoding() + self.1.spec_classify().encoding()
            + self.2.spec_classify().encoding());
        state.finish()
    }
}

impl<T: Classify, U: Classify, V: Classify, W: Classify> Classify for (T, U, V, W) {
    type Output = u64;

    open spec fn spec_classify(&self) -> u64 {
        digest(
            self.0.spec_classify().encoding() + self.1.spec_classify().encoding()
                + self.2.spec_classify().encoding() + self.3.spec_classify().encoding(),
        )
    }

    fn classify(&self) -> u64 {
        let mut state = Digest::new();
        state.fold(&self.0.classify());
        state.fold(&self.1.classify());
        state.fold(&self.2.classify());
        state.fold(&self.3.classify());
        assert(state@ =~= self.0.spec_classify().encoding() + self.1.spec_classify().encoding()
            + self.2.spec_classify().encoding() + self.3.spec_classify().encoding());
        state.finish()
    }
}

/// A pair folds what a record of two fields folds, the members being the
/// fields.
pub proof fn lemma_pair_is_record<T: Classify, U: Classify>(pair: (T, U))
    ensures
        pair_words(pair) == record_words(
            seq![pair.0.spec_classify().encoding(), pair.1.spec_classify().encoding()],
        ),
{
    let first = pair.0.spec_classify().encoding();
    let second = pair.1.spec_classify().encoding();
    let none = Seq::<Seq<u64>>::empty();
    none.lemma_flatten_push(first);
    none.push(first).lemma_flatten_push(second);
    assert(seq![first, second] =~= none.push(first).push(second));
}

/// Tuples of one member whose members have the same class have the same
/// class.
pub proof fn lemma_single_congruence<T: Classify>(a: (T,), b: (T,))
    requires
        a.0.spec_classify() == b.0.spec_classify(),
    ensures
        a.spec_classify() == b.spec_classify(),
{
}

/// Pairs whose members have the same classes, place by place, have the same
/// class.
pub proof fn lemma_pair_congruence<T: Classify, U: Classify>(a: (T, U), b: (T, U))
    requires
        a.0.spec_classify() == b.0.spec_classify(),
        a.1.spec_classify() == b.1.spec_classify(),
    ensures
        a.spec_classify() == b.spec_classify(),
{
}

/// Triples whose members have the same classes, place by place, have the
/// same class.
pub proof fn lemma_triple_congruence<T: Classify, U: Classify, V: Classify>(
    a: (T, U, V),
    b: (T, U, V),
)
    requires
        a.0.spec_classify() == b.0.spec_classify(),
        a.1.spec_classify() == b.1.spec_classify(),
        a.2.spec_classify() == b.2.spec_classify(),
    ensures
        a.spec_classify() == b.spec_classify(),
{
}

/// Tuples of four whose members have the same classes, place by place, have
/// the same class.
pub proof fn lemma_quadruple_congruence<T: Classify, U: Classify, V: Classify, W: Classify>(
    a: (T, U, V, W),
    b: (T, U, V, W),
)
    requires
        a.0.spec_classify() == b.0.spec_classify(),
        a.1.spec_classify() == b.1.spec_classify(),
        a.2.spec_classify() == b.2.spec_classify(),
        a.3.spec_classify() == b.3.spec_classify(),
    ensures
        a.spec_classify() == b.spec_classify(),
{
}

/// The words of a pair give the classes of its members back: pairs that
/// differ in the class of a member fold different words.
pub proof fn lemma_pair_read_back<T: Classify, U: Classify>(a: (T, U), b: (T, U))
    requires
        pair_words(a) == pair_words(b),
    ensures
        a.0.spec_classify() == b.0.spec_classify(),
        a.1.spec_classify() == b.1.spec_classify(),
{
    let fields_a = seq![a.0.spec_classify().encoding(), a.1.spec_classify().encoding()];
    let fields_b = seq![b.0.spec_classify().encoding(), b.1.spec_classify().encoding()];
    lemma_pair_is_record(a);
    lemma_pair_is_record(b);
    lemma_encodings_told_apart(a.0.spec_classify(), b.0.spec_classify());
    lemma_encodings_told_apart(a.1.spec_classify(), b.1.spec_classify());
    assert forall|i: int| 0 <= i < fields_a.len() implies told_apart(
        #[trigger] fields_a[i],
        fields_b[i],
    ) by {
        assert(i == 0 || i == 1);
    }
    lemma_fields_read_back(fields_a, fields_b);
    assert(fields_a[0] == fields_b[0]);
    assert(fields_a[1] == fields_b[1]);
}

/// Position counts: a pair of members with different classes folds other
/// words than the pair of the same members the other way round. The two
/// classes are digests of different words, and nothing makes them equal.
pub proof fn lemma_pair_order_counts<T: Classify>(x: T, y: T)
    requires
        x.spec_classify() != y.spec_classify(),
    ensures
        pair_words((x, y)) != pair_words((y, x)),
{
    if pair_words((x, y)) == pair_words((y, x)) {
        lemma_pair_read_back((x, y), (y, x));
    }
}

} // verus!
