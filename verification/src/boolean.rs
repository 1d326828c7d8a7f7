//! Classification of truth values: each is a class of its own.

use crate::classify::{Classification, Classify};
use vstd::prelude::*;

verus! {

impl Classification for bool {
    open spec fn encoding(&self) -> Seq<u64> {
        if *self {
            seq![1u64]
        } else {
            seq![0u64]
        }
    }

    fn encode(&self, out: &mut Vec<u64>) {
        let word: u64 = if *self {
            1
        } else {
            0
        };
        out.push(word);
    }

    proof fn lemma_prefix_free(&self, other: &Self) {
        assert(self.encoding()[0] == other.encoding()[0]);
    }
}

impl Classify for bool {
    type Output = bool;

    open spec fn spec_classify(&self) -> bool {
        *self
    }

    fn classify(&self) -> bool {
        *self
    }
}

} // verus!
