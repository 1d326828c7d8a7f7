use shrink::classify::Classify;
use shrink::digest::digest_words;
use shrink::float::Binary32;

#[test]
fn test_tuple_classification() {
    let single = (42i32,).classify();
    let pair = (42, "hello").classify();
    let triple = (42, "hello", Binary32(3.14f32.to_bits())).classify();
    let quadruple = (42, "hello", Binary32(3.14f32.to_bits()), true).classify();

    // Each classification should be unique
    assert_ne!(single, pair);
    assert_ne!(single, triple);
    assert_ne!(single, quadruple);
    assert_ne!(pair, triple);
    assert_ne!(pair, quadruple);
    assert_ne!(triple, quadruple);

    // Same content should yield same classification
    assert_eq!((42,).classify(), (4,).classify());
    assert_eq!((42, "hello").classify(), (4, "hello world").classify());
}

#[test]
fn tuple_folds_the_classes_of_its_members_in_order() {
    // Positive is 1, Zero is 0, Max is 3; true is 1
    assert_eq!((1u8,).classify(), digest_words(&vec![1]));
    assert_eq!((1u8, 0u8).classify(), digest_words(&vec![1, 0]));
    assert_eq!((0u8, 1u8).classify(), digest_words(&vec![0, 1]));
    assert_eq!((0u8, 1u8, 255u8).classify(), digest_words(&vec![0, 1, 3]));
    assert_eq!(
        (0u8, 1u8, 255u8, true).classify(),
        digest_words(&vec![0, 1, 3, 1])
    );
    // an absent member takes one word, a present one a word more than its class
    let absent: Option<u8> = None;
    assert_eq!((absent, Some(255u8)).classify(), digest_words(&vec![0, 1, 3]));
}

#[test]
fn swapping_members_of_different_class_changes_the_class() {
    assert_ne!((0u8, 1u8).classify(), (1u8, 0u8).classify());
    assert_ne!(("", "a").classify(), ("a", "").classify());
    assert_ne!((0u8, 1u8, 1u8).classify(), (1u8, 1u8, 0u8).classify());
    // members of the same class may change places
    assert_eq!((1u8, 2u8).classify(), (2u8, 1u8).classify());
}

#[test]
fn tuple_goes_by_the_classes_of_its_members() {
    assert_eq!((5i32, "x", true).classify(), (9i32, "yz", true).classify());
    assert_ne!((5i32, "x", true).classify(), (9i32, "yz", false).classify());
    assert_ne!((5i32, "x", true).classify(), (9i32, " ", true).classify());
    assert_ne!((5i32, "x", true).classify(), (-9i32, "x", true).classify());
    assert_eq!((5i32, "x", true).classify(), (5i32, "x", true).classify());
}
