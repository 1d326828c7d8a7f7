//! The digest into which classifications are folded, word by word.

use crate::classify::Classification;
use std::collections::hash_map::DefaultHasher;
use std::hash::Hasher;
use vstd::bytes::*;
use vstd::prelude::*;
use vstd::std_specs::hash::DefaultHasherAdditionalSpecFns;

verus! {

/// What the hasher is fed for `words`: one write of eight little-endian
/// bytes for each word, in order.
pub open spec fn word_writes(words: Seq<u64>) -> Seq<Seq<u8>> {
    words.map_values(|w: u64| spec_u64_to_le_bytes(w))
}

/// The 64-bit digest of a sequence of words: what a hasher that was seeded
/// the default way returns after those writes.
pub open spec fn digest(words: Seq<u64>) -> u64 {
    DefaultHasher::spec_finish(word_writes(words))
}

/// The encodings held by a vector of them.
pub open spec fn views(keys: Seq<Vec<u64>>) -> Seq<Seq<u64>> {
    keys.map_values(|k: Vec<u64>| k@)
}

/// Digests `words` with a hasher of its own.
pub fn digest_words(words: &Vec<u64>) -> (r: u64)
    ensures
        r == digest(words@),
{
    let mut state = DefaultHasher::new();
    let mut i: usize = 0;
    while i < words.len()
        invariant
            i <= words.len(),
            state@ == word_writes(words@.take(i as int)),
        decreases words.len() - i,
    {
        let bytes = u64_to_le_bytes(words[i]);
        state.write(bytes.as_slice());
        assert(word_writes(words@.take(i + 1)) =~= word_writes(words@.take(i as int)).push(
            spec_u64_to_le_bytes(words@[i as int]),
        ));
        i = i + 1;
    }
    assert(words@.take(i as int) =~= words@);
    state.finish()
}

/// A running digest: the words folded so far. Each one starts empty, so the
/// result depends on nothing but what was folded, and in which order.
pub struct Digest {
    words: Vec<u64>,
}

impl View for Digest {
    type V = Seq<u64>;

    closed spec fn view(&self) -> Seq<u64> {
        self.words@
    }
}

impl Digest {
    /// A fresh digest, with nothing folded.
    pub fn new() -> (d: Digest)
        ensures
            d@ == Seq::<u64>::empty(),
    {
        Digest { words: Vec::new() }
    }

    /// A digest for a value of a sum type, with the position of its variant
    /// among the variants folded first.
    pub fn variant(position: u64) -> (d: Digest)
        ensures
            d@ == seq![position],
    {
        let mut words: Vec<u64> = Vec::new();
        words.push(position);
        Digest { words }
    }

    /// Folds one word.
    pub fn fold_word(&mut self, word: u64)
        ensures
            final(self)@ == old(self)@.push(word),
    {
        self.words.push(word);
    }

    /// Folds a run of words, first to last.
    pub fn fold_words(&mut self, words: &Vec<u64>)
        ensures
            final(self)@ == old(self)@ + words@,
    {
        let mut i: usize = 0;
        while i < words.len()
            invariant
                i <= words.len(),
                self@ == old(self)@ + words@.take(i as int),
            decreases words.len() - i,
        {
            self.words.push(words[i]);
            i = i + 1;
        }
    }

    /// Folds a classification: its encoding, word by word.
    pub fn fold<C: Classification>(&mut self, class: &C)
        ensures
            final(self)@ == old(self)@ + class.encoding(),
    {
        class.encode(&mut self.words);
    }

    /// The digest of all that was folded.
    pub fn finish(&self) -> (r: u64)
        ensures
            r == digest(self@),
    {
        digest_words(&self.words)
    }
}

} // verus!
