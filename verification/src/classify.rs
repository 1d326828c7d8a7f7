//! The two capabilities everything else is built from: a value can be
//! classified, and a classification can be folded into a digest.

use vstd::prelude::*;

verus! {

/// A classification: a value that stands for a whole class of values.
///
/// Its encoding is the run of words it contributes when it is folded into a
/// digest, and the key by which a collection orders and deduplicates it.
pub trait Classification: Sized {
    /// The words that stand for this classification.
    spec fn encoding(&self) -> Seq<u64>;

    /// Appends the encoding to `out`.
    fn encode(&self, out: &mut Vec<u64>)
        ensures
            final(out)@ == old(out)@ + self.encoding(),
    ;

    /// No encoding is the beginning of the encoding of another
    /// classification of the same type. So distinct classifications have
    /// distinct encodings, and a run of encodings can be split in one way
    /// only.
    proof fn lemma_prefix_free(&self, other: &Self)
        requires
            self.encoding().is_prefix_of(other.encoding()),
        ensures
            *self == *other,
    ;
}

/// A value that has a classification.
pub trait Classify {
    type Output: Classification;

    /// The class the value belongs to.
    spec fn spec_classify(&self) -> Self::Output;

    /// Computes the class of the value. The result is a function of the
    /// value alone: classifying it again gives the same class.
    fn classify(&self) -> (c: Self::Output)
        ensures
            c == self.spec_classify(),
    ;
}

/// Neither of the two runs of words begins the other, unless they are the
/// same run.
pub open spec fn told_apart(a: Seq<u64>, b: Seq<u64>) -> bool {
    (a.is_prefix_of(b) || b.is_prefix_of(a)) ==> a == b
}

/// The encodings of two classifications of one type are told apart, and are
/// the same for the same classification only.
pub proof fn lemma_encodings_told_apart<C: Classification>(a: C, b: C)
    ensures
        told_apart(a.encoding(), b.encoding()),
        a.encoding() == b.encoding() <==> a == b,
{
    if a.encoding().is_prefix_of(b.encoding()) {
        a.lemma_prefix_free(&b);
    }
    if b.encoding().is_prefix_of(a.encoding()) {
        b.lemma_prefix_free(&a);
    }
    if a.encoding() == b.encoding() {
    }
}

/// A digest is its own encoding: one word.
impl Classification for u64 {
    open spec fn encoding(&self) -> Seq<u64> {
        seq![*self]
    }

    fn encode(&self, out: &mut Vec<u64>) {
        out.push(*self);
    }

    proof fn lemma_prefix_free(&self, other: &Self) {
        assert(self.encoding()[0] == other.encoding()[0]);
    }
}

} // verus!
