//! Classification of a value that may be absent.

use crate::classify::{Classification, Classify};
use vstd::prelude::*;

verus! {

/// The word that opens the encoding of an absent value.
pub const ABSENT: u64 = 0;

/// The word that opens the encoding of a present value.
pub const PRESENT: u64 = 1;

/// Absent is one word; present is another word, then the encoding of what is
/// present. The first word keeps the two apart.
impl<C: Classification> Classification for Option<C> {
    open spec fn encoding(&self) -> Seq<u64> {
        match self {
            None => seq![ABSENT],
            Some(c) => seq![PRESENT] + c.encoding(),
        }
    }

    fn encode(&self, out: &mut Vec<u64>) {
        match self {
            None => {
                out.push(ABSENT);
            },
            Some(c) => {
                out.push(PRESENT);
                c.encode(out);
            },
        }
    }

    proof fn lemma_prefix_free(&self, other: &Self) {
        let a = self.encoding();
        let b = other.encoding();
        assert(a[0] == b[0]);
        match (self, other) {
            (Some(c), Some(d)) => {
                assert forall|i: int| 0 <= i < c.encoding().len() implies c.encoding()[i]
                    == d.encoding()[i] by {
                    assert(a[i + 1] == b[i + 1]);
                }
                c.lemma_prefix_free(d);
            },
            _ => {},
        }
    }
}

/// Absent classifies as absent, and a present value as its own class,
/// present: two present values fall together exactly when what they hold
/// does, and never with absent.
impl<T: Classify> Classify for Option<T> {
    type Output = Option<T::Output>;

    open spec fn spec_classify(&self) -> Option<T::Output> {
        match self {
            None => None,
            Some(x) => Some(x.spec_classify()),
        }
    }

    fn classify(&self) -> Option<T::Output> {
        match self {
            None => None,
            Some(x) => Some(x.classify()),
        }
    }
}

/// Two present values have the same class exactly when what they hold has.
pub proof fn lemma_present_alike<T: Classify>(a: T, b: T)
    ensures
        Some(a).spec_classify() == Some(b).spec_classify() <==> a.spec_classify()
            == b.spec_classify(),
{
}

/// Absent never has the class of a present value.
pub proof fn lemma_absent_apart<T: Classify>(a: T)
    ensures
        None::<T>.spec_classify() != Some(a).spec_classify(),
{
}

} // verus!
