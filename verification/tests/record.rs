use shrink::classify::Classify;
use shrink::digest::{digest_words, Digest};
use shrink::record::{classify_record, classify_variant};

#[test]
fn record_folds_its_fields_in_order() {
    assert_eq!(
        classify_record(&vec![vec![1], vec![0, 7], vec![3]]),
        digest_words(&vec![1, 0, 7, 3])
    );
    assert_ne!(
        classify_record(&vec![vec![1], vec![3]]),
        classify_record(&vec![vec![3], vec![1]])
    );
}

#[test]
fn record_without_fields_is_the_empty_digest() {
    assert_eq!(classify_record(&Vec::new()), digest_words(&Vec::new()));
    assert_eq!(classify_record(&Vec::new()), Digest::new().finish());
}

#[test]
fn record_agrees_with_the_tuple_of_its_fields() {
    let first = 1u8;
    let second = -1i8;
    let mut one = Vec::new();
    let mut two = Vec::new();
    one.push(1);
    two.push(2);
    assert_eq!(classify_record(&vec![one, two]), (first, second).classify());
}

#[test]
fn two_field_record_goes_by_the_classes_of_its_fields() {
    // both fields Positive, for several values
    let a = (1u8, 2u8).classify();
    assert_eq!(a, (2u8, 2u8).classify());
    assert_eq!(a, (200u8, 17u8).classify());
    assert_eq!(a, (254u8, 1u8).classify());
    // one field Zero
    assert_ne!(a, (0u8, 2u8).classify());
    assert_ne!(a, (1u8, 0u8).classify());
}

#[test]
fn variant_folds_its_position_first() {
    assert_eq!(
        classify_variant(2, &vec![vec![1], vec![0]]),
        digest_words(&vec![2, 1, 0])
    );
}

#[test]
fn unit_variant_folds_its_position_alone() {
    assert_eq!(classify_variant(0, &Vec::new()), digest_words(&vec![0]));
    assert_eq!(classify_variant(5, &Vec::new()), digest_words(&vec![5]));
    assert_eq!(classify_variant(5, &Vec::new()), Digest::variant(5).finish());
    assert_ne!(classify_variant(0, &Vec::new()), classify_record(&Vec::new()));
}

#[test]
fn variants_are_kept_apart_by_position() {
    let carried = vec![vec![1u64]];
    assert_ne!(classify_variant(0, &carried), classify_variant(1, &carried));
    assert_ne!(classify_variant(1, &carried), classify_variant(2, &carried));
    assert_eq!(classify_variant(1, &carried), classify_variant(1, &vec![vec![1]]));
    assert_ne!(classify_variant(1, &carried), classify_variant(1, &vec![vec![0]]));
}
