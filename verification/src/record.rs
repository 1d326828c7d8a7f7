//! Classification of declared types: records, and sum types variant by
//! variant. A type lists the classes of its fields in the order of their
//! declaration; a value of a sum type puts the position of its variant
//! first.

use crate::classify::told_apart;
use crate::digest::{digest, views, Digest};
use vstd::prelude::*;

verus! {

/// The words a record folds: the encodings of its fields' classes, in the
/// order of the fields. A record without fields folds nothing.
pub open spec fn record_words(fields: Seq<Seq<u64>>) -> Seq<u64> {
    fields.flatten()
}

/// The class of a record whose fields' classes have the encodings `fields`.
pub open spec fn record_class(fields: Seq<Seq<u64>>) -> u64 {
    digest(record_words(fields))
}

/// The words a value of a sum type folds: the position of its variant among
/// the variants, then the encodings of the classes of what it carries. A
/// variant that carries nothing folds its position alone.
pub open spec fn variant_words(position: u64, fields: Seq<Seq<u64>>) -> Seq<u64> {
    seq![position] + fields.flatten()
}

/// The class of a value of a sum type, of the variant at `position`, whose
/// fields' classes have the encodings `fields`.
pub open spec fn variant_class(position: u64, fields: Seq<Seq<u64>>) -> u64 {
    digest(variant_words(position, fields))
}

/// Folds the encodings in `fields`, first to last.
fn fold_fields(state: &mut Digest, fields: &Vec<Vec<u64>>)
    ensures
        final(state)@ == old(state)@ + views(fields@).flatten(),
{
    let ghost all = views(fields@);
    let mut i: usize = 0;
    while i < fields.len()
        invariant
            i <= fields.len(),
            all == views(fields@),
            state@ == old(state)@ + all.take(i as int).flatten(),
        decreases fields.len() - i,
    {
        state.fold_words(&fields[i]);
        proof {
            assert(all.take(i + 1) =~= all.take(i as int).push(all[i as int]));
            all.take(i as int).lemma_flatten_push(all[i as int]);
        }
        i = i + 1;
    }
    assert(all.take(i as int) =~= all);
}

/// The class of a record, from the encodings of its fields' classes in the
/// order of the fields.
pub fn classify_record(fields: &Vec<Vec<u64>>) -> (r: u64)
    ensures
        r == record_class(views(fields@)),
{
    let mut state = Digest::new();
    fold_fields(&mut state, fields);
    state.finish()
}

/// The class of a value of a sum type, from the position of its variant and
/// the encodings of the classes of what it carries, in the order of the
/// fields.
pub fn classify_variant(position: u64, fields: &Vec<Vec<u64>>) -> (r: u64)
    ensures
        r == variant_class(position, views(fields@)),
{
    let mut state = Digest::variant(position);
    fold_fields(&mut state, fields);
    state.finish()
}

/// The words of a record give its fields back: two records with as many
/// fields, whose encodings are told apart field by field, fold the same
/// words only if they agree in every field. So a change of class in one
/// field changes the words that are digested.
pub proof fn lemma_fields_read_back(a: Seq<Seq<u64>>, b: Seq<Seq<u64>>)
    requires
        a.len() == b.len(),
        forall|i: int| 0 <= i < a.len() ==> told_apart(#[trigger] a[i], b[i]),
        record_words(a) == record_words(b),
    ensures
        a == b,
    decreases a.len(),
{
    if a.len() == 0 {
        assert(a =~= b);
    } else {
        // Both first fields begin the same run of words, so one begins the
        // other, and they are the same; then so is what follows them.
        let x = a.first();
        let y = b.first();
        let rest_a = a.drop_first();
        let rest_b = b.drop_first();
        let whole = a.flatten();
        if x.len() <= y.len() {
            assert(x =~= y.subrange(0, x.len() as int)) by {
                assert forall|i: int| 0 <= i < x.len() implies x[i] == y[i] by {
                    assert((x + rest_a.flatten())[i] == (y + rest_b.flatten())[i]);
                }
            }
        } else {
            assert(y =~= x.subrange(0, y.len() as int)) by {
                assert forall|i: int| 0 <= i < y.len() implies y[i] == x[i] by {
                    assert((x + rest_a.flatten())[i] == (y + rest_b.flatten())[i]);
                }
            }
        }
        assert(told_apart(a[0], b[0]));
        assert(x == y);
        assert(rest_a.flatten() =~= whole.subrange(x.len() as int, whole.len() as int));
        assert(rest_b.flatten() =~= whole.subrange(y.len() as int, whole.len() as int));
        assert forall|i: int| 0 <= i < rest_a.len() implies told_apart(
            #[trigger] rest_a[i],
            rest_b[i],
        ) by {
            assert(told_apart(a[i + 1], b[i + 1]));
        }
        lemma_fields_read_back(rest_a, rest_b);
        assert(a =~= seq![x] + rest_a);
        assert(b =~= seq![y] + rest_b);
    }
}

/// Values of different variants fold different words, whatever they carry.
/// (Of the digests themselves no such thing can be said: two different runs
/// of words may have the same digest.)
pub proof fn lemma_variants_apart(p: u64, q: u64, a: Seq<Seq<u64>>, b: Seq<Seq<u64>>)
    requires
        p != q,
    ensures
        variant_words(p, a) != variant_words(q, b),
{
    // The position is the first word.
    assert(variant_words(p, a)[0] == p);
    assert(variant_words(q, b)[0] == q);
}

/// Two values of one variant, whose fields' encodings are told apart field
/// by field, fold the same words only if they agree in every field.
pub proof fn lemma_variant_read_back(position: u64, a: Seq<Seq<u64>>, b: Seq<Seq<u64>>)
    requires
        a.len() == b.len(),
        forall|i: int| 0 <= i < a.len() ==> told_apart(#[trigger] a[i], b[i]),
        variant_words(position, a) == variant_words(position, b),
    ensures
        a == b,
{
    let wa = variant_words(position, a);
    let wb = variant_words(position, b);
    assert(a.flatten() =~= wa.subrange(1, wa.len() as int));
    assert(b.flatten() =~= wb.subrange(1, wb.len() as int));
    lemma_fields_read_back(a, b);
}

} // verus!
