use shrink::classify::Classify;
use shrink::digest::{digest_words, Digest};
use shrink::integer::IntClassification;
use std::collections::hash_map::DefaultHasher;
use std::hash::Hasher;

fn written(words: &[u64]) -> u64 {
    let mut state = DefaultHasher::new();
    for word in words {
        state.write(&word.to_le_bytes());
    }
    state.finish()
}

#[test]
fn digest_of_nothing_is_the_fresh_hasher() {
    assert_eq!(digest_words(&Vec::new()), DefaultHasher::new().finish());
    assert_eq!(Digest::new().finish(), DefaultHasher::new().finish());
}

#[test]
fn digest_writes_eight_little_endian_bytes_per_word() {
    let mut state = DefaultHasher::new();
    state.write(&[0x08, 0x07, 0x06, 0x05, 0x04, 0x03, 0x02, 0x01]);
    assert_eq!(digest_words(&vec![0x0102_0304_0506_0708]), state.finish());
    assert_eq!(digest_words(&vec![1, 2, 3]), written(&[1, 2, 3]));
    assert_eq!(digest_words(&vec![u64::MAX, 0]), written(&[u64::MAX, 0]));
}

#[test]
fn digest_depends_on_the_order_of_the_words() {
    assert_ne!(digest_words(&vec![1, 2]), digest_words(&vec![2, 1]));
    assert_ne!(digest_words(&vec![0]), digest_words(&vec![0, 0]));
}

#[test]
fn running_digest_agrees_with_digest_of_the_words() {
    let mut state = Digest::new();
    state.fold_word(1);
    state.fold_words(&vec![2, 3]);
    state.fold_words(&Vec::new());
    state.fold_word(4);
    assert_eq!(state.finish(), digest_words(&vec![1, 2, 3, 4]));
    // finishing does not use the digest up
    assert_eq!(state.finish(), state.finish());
}

#[test]
fn variant_digest_starts_with_the_position() {
    assert_eq!(Digest::variant(3).finish(), digest_words(&vec![3]));
    let mut state = Digest::variant(u64::MAX);
    state.fold_word(9);
    assert_eq!(state.finish(), digest_words(&vec![u64::MAX, 9]));
}

#[test]
fn fold_takes_the_encoding_of_a_class() {
    let mut state = Digest::new();
    state.fold(&IntClassification::Zero);
    state.fold(&IntClassification::Positive);
    state.fold(&IntClassification::Negative);
    state.fold(&IntClassification::Max);
    state.fold(&IntClassification::Min);
    assert_eq!(state.finish(), digest_words(&vec![0, 1, 2, 3, 4]));

    let mut state = Digest::new();
    state.fold(&true);
    state.fold(&false);
    state.fold(&77u64);
    assert_eq!(state.finish(), digest_words(&vec![1, 0, 77]));

    let absent: Option<u8> = None;
    let mut state = Digest::new();
    state.fold(&absent.classify());
    state.fold(&Some(255u8).classify());
    state.fold(&Some(Some(false)).classify());
    assert_eq!(state.finish(), digest_words(&vec![0, 1, 3, 1, 1, 0]));
}
