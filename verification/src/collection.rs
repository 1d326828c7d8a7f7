//! Classification of a collection of like values: what counts is how many
//! elements there are, up to two, and which classes occur among them.

use crate::classify::{Classification, Classify};
use crate::digest::{digest, views, Digest};
use crate::keys::{ascending_list, distinct_ascending, lemma_ascending_list, lists, picked};
use vstd::prelude::*;

verus! {

/// The word for the size of a collection: none, one, or more.
pub open spec fn cardinality_bucket(len: nat) -> u64 {
    if len == 0 {
        0
    } else if len == 1 {
        1
    } else {
        2
    }
}

/// The words a collection folds, given the encodings of its elements'
/// classes in any order and with any repeats: the bucket of its size, then
/// each distinct encoding once, in ascending order.
pub open spec fn collection_words(encodings: Seq<Seq<u64>>) -> Seq<u64> {
    seq![cardinality_bucket(encodings.len())] + ascending_list(encodings.to_set()).flatten()
}

/// What a collection folds after its bucket is the encoding of each class
/// that occurs among its elements, once, in ascending order.
pub proof fn lemma_collection_keys(encodings: Seq<Seq<u64>>)
    ensures
        lists(ascending_list(encodings.to_set()), encodings.to_set()),
{
    vstd::seq_lib::seq_to_set_is_finite(encodings);
    lemma_ascending_list(encodings.to_set());
}

/// The class of a collection, from the encodings of its elements' classes:
/// one for each element, in any order.
///
/// Only the size, up to two, and the set of encodings count. Two collections
/// with the same bucket and the same distinct classes among their elements
/// get the same digest, however the elements are arranged or repeated.
pub fn classify_keys(keys: &Vec<Vec<u64>>) -> (r: u64)
    ensures
        r == digest(collection_words(views(keys@))),
{
    let ghost all = views(keys@);
    let chosen = distinct_ascending(keys);
    let ghost list = picked(all, chosen@);
    let bucket: u64 = if keys.len() == 0 {
        0
    } else if keys.len() == 1 {
        1
    } else {
        2
    };
    let mut state = Digest::new();
    state.fold_word(bucket);
    let mut p: usize = 0;
    while p < chosen.len()
        invariant
            p <= chosen.len(),
            all == views(keys@),
            list == picked(all, chosen@),
            forall|q: int| 0 <= q < chosen.len() ==> chosen[q] < keys.len(),
            state@ == seq![bucket] + list.take(p as int).flatten(),
        decreases chosen.len() - p,
    {
        state.fold_words(&keys[chosen[p]]);
        proof {
            assert(list.take(p + 1) =~= list.take(p as int).push(list[p as int]));
            list.take(p as int).lemma_flatten_push(list[p as int]);
        }
        p = p + 1;
    }
    assert(list.take(p as int) =~= list);
    state.finish()
}

/// The encodings of the classes of `elements`, one for each, in their order.
pub open spec fn element_encodings<T: Classify>(elements: Seq<T>) -> Seq<Seq<u64>> {
    elements.map_values(|e: T| e.spec_classify().encoding())
}

/// The class of the collection that holds `elements`.
pub open spec fn collection_class<T: Classify>(elements: Seq<T>) -> u64 {
    digest(collection_words(element_encodings(elements)))
}

/// The classes of `elements`, one for each, in their order.
pub open spec fn element_classes<T: Classify>(elements: Seq<T>) -> Seq<T::Output> {
    elements.map_values(|e: T| e.spec_classify())
}

/// Two collections whose sizes fall in the same bucket, and among whose
/// elements the same classes occur, have the same class: neither the order
/// of the elements counts, nor how often a class occurs.
pub proof fn lemma_collection_congruence<T: Classify>(a: Seq<T>, b: Seq<T>)
    requires
        cardinality_bucket(a.len()) == cardinality_bucket(b.len()),
        element_classes(a).to_set() == element_classes(b).to_set(),
    ensures
        collection_class(a) == collection_class(b),
{
    let ea = element_encodings(a);
    let eb = element_encodings(b);
    assert forall|x: Seq<u64>| ea.to_set().contains(x) <==> eb.to_set().contains(x) by {
        if ea.to_set().contains(x) {
            let i = choose|i: int| 0 <= i < ea.len() && ea[i] == x;
            let class = element_classes(a)[i];
            assert(element_classes(b).to_set().contains(class));
            let j = choose|j: int|
                0 <= j < element_classes(b).len() && element_classes(b)[j] == class;
            assert(eb[j] == x);
        }
        if eb.to_set().contains(x) {
            let i = choose|i: int| 0 <= i < eb.len() && eb[i] == x;
            let class = element_classes(b)[i];
            assert(element_classes(a).to_set().contains(class));
            let j = choose|j: int|
                0 <= j < element_classes(a).len() && element_classes(a)[j] == class;
            assert(ea[j] == x);
        }
    }
    assert(ea.to_set() =~= eb.to_set());
}

/// A collection keeps its class when its elements are rearranged.
pub proof fn lemma_collection_rearranged<T: Classify>(a: Seq<T>, b: Seq<T>)
    requires
        a.to_multiset() == b.to_multiset(),
    ensures
        collection_class(a) == collection_class(b),
{
    a.to_multiset_ensures();
    b.to_multiset_ensures();
    let ca = element_classes(a);
    let cb = element_classes(b);
    assert forall|c: T::Output| ca.to_set().contains(c) <==> cb.to_set().contains(c) by {
        if ca.to_set().contains(c) {
            let i = choose|i: int| 0 <= i < ca.len() && ca[i] == c;
            assert(b.to_multiset().count(a[i]) > 0);
            let j = choose|j: int| 0 <= j < b.len() && b[j] == a[i];
            assert(cb[j] == c);
        }
        if cb.to_set().contains(c) {
            let i = choose|i: int| 0 <= i < cb.len() && cb[i] == c;
            assert(a.to_multiset().count(b[i]) > 0);
            let j = choose|j: int| 0 <= j < a.len() && a[j] == b[i];
            assert(ca[j] == c);
        }
    }
    assert(ca.to_set() =~= cb.to_set());
    lemma_collection_congruence(a, b);
}

/// Collections whose sizes fall in different buckets fold different words:
/// an empty one, one of a single element and one of more are kept apart
/// before anything is digested, whatever the classes of their elements.
/// (Of the digests themselves no such thing can be said: two different runs
/// of words may have the same digest.)
pub proof fn lemma_cardinality_apart<T: Classify>(a: Seq<T>, b: Seq<T>)
    requires
        cardinality_bucket(a.len()) != cardinality_bucket(b.len()),
    ensures
        collection_words(element_encodings(a)) != collection_words(element_encodings(b)),
{
    // The bucket is the first word.
    let wa = collection_words(element_encodings(a));
    let wb = collection_words(element_encodings(b));
    assert(wa[0] == cardinality_bucket(a.len()));
    assert(wb[0] == cardinality_bucket(b.len()));
}

/// Classifies the elements of a slice one by one and combines their classes.
pub fn classify_slice<T: Classify>(elements: &[T]) -> (r: u64)
    ensures
        r == collection_class(elements@),
{
    let mut keys: Vec<Vec<u64>> = Vec::new();
    let mut i: usize = 0;
    while i < elements.len()
        invariant
            i <= elements.len(),
            views(keys@) == element_encodings(elements@.take(i as int)),
        decreases elements.len() - i,
    {
        let class = elements[i].classify();
        let mut key: Vec<u64> = Vec::new();
        class.encode(&mut key);
        let ghost encoding = key@;
        keys.push(key);
        proof {
            let prefix = elements@.take(i as int);
            let longer = elements@.take(i + 1);
            assert(longer =~= prefix.push(elements@[i as int]));
            assert(element_encodings(longer) =~= element_encodings(prefix).push(encoding));
        }
        i = i + 1;
    }
    assert(elements@.take(i as int) =~= elements@);
    classify_keys(&keys)
}

impl<T: Classify> Classify for [T] {
    type Output = u64;

    open spec fn spec_classify(&self) -> u64 {
        collection_class(self@)
    }

    fn classify(&self) -> u64 {
        classify_slice(self)
    }
}

impl<T: Classify> Classify for Vec<T> {
    type Output = u64;

    open spec fn spec_classify(&self) -> u64 {
        collection_class(self@)
    }

    fn classify(&self) -> u64 {
        classify_slice(self.as_slice())
    }
}

impl<T: Classify, const N: usize> Classify for [T; N] {
    type Output = u64;

    open spec fn spec_classify(&self) -> u64 {
        collection_class(self@)
    }

    fn classify(&self) -> u64 {
        classify_slice(self.as_slice())
    }
}

} // verus!
