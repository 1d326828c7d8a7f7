use shrink::classify::Classify;
use shrink::collection::{classify_keys, classify_slice};
use shrink::digest::digest_words;

#[test]
fn test_array_classification_length() {
    let arr1: [u8; 0] = [];
    let arr2 = [1u8];
    let arr3 = [1u8, 1u8];

    assert_ne!(arr1.classify(), arr2.classify());
    assert_ne!(arr1.classify(), arr3.classify());
    assert_ne!(arr2.classify(), arr3.classify());
}

#[test]
fn test_array_classification() {
    let arr1 = [1u8, 2, 3];
    let arr2 = [1u8, 2, 3, 4];

    // Arrays with same unique classifications should have same classification
    // In effect, this means that items 2 and 3 are skipped in this case
    assert_eq!(arr1.classify(), arr2.classify());

    // Different unique classifications should have different classifications
    let arr1 = [1u8, 2, 3];
    let arr2 = [0u8];
    assert_ne!(arr1.classify(), arr2.classify());
}

#[test]
fn test_slice_classification() {
    let arr1 = &[1u8, 2, 3];
    let arr2 = &[1u8, 2, 3, 4];

    // Arrays with same unique classifications should have same classification
    // In effect, this means that items 2 and 3 are skipped in this case
    assert_eq!(arr1.classify(), arr2.classify());

    // Different unique classifications should have different classifications
    let arr1 = &[1u8, 2, 3];
    let arr2 = &[0u8];
    assert_ne!(arr1.classify(), arr2.classify());
}

#[test]
fn test_mixed_classification() {
    let arr1 = [1u8, 2, 3];
    let arr2 = &[1u8, 2];

    // Arrays with same unique classifications should have same classification
    // In effect, this means that items 2 and 3 are skipped in this case
    assert_eq!(arr1.classify(), arr2.classify());
}

#[test]
fn collection_folds_bucket_then_distinct_classes_in_order() {
    // Zero is 0, Positive is 1, Max is 3
    let none: [u8; 0] = [];
    assert_eq!(none.classify(), digest_words(&vec![0]));
    assert_eq!([7u8].classify(), digest_words(&vec![1, 1]));
    assert_eq!([0u8].classify(), digest_words(&vec![1, 0]));
    assert_eq!([7u8, 7].classify(), digest_words(&vec![2, 1]));
    assert_eq!([255u8, 7, 0, 7, 255].classify(), digest_words(&vec![2, 0, 1, 3]));
    // absent is the word 0, present the word 1 and then the class
    assert_eq!(
        [Some(255u8), None, Some(0u8), None].classify(),
        digest_words(&vec![2, 0, 1, 0, 1, 3])
    );
}

#[test]
fn classify_keys_sorts_and_drops_repeats() {
    assert_eq!(classify_keys(&Vec::new()), digest_words(&vec![0]));
    assert_eq!(classify_keys(&vec![vec![9, 9]]), digest_words(&vec![1, 9, 9]));
    assert_eq!(
        classify_keys(&vec![vec![1], vec![0], vec![1]]),
        digest_words(&vec![2, 0, 1])
    );
    assert_eq!(
        classify_keys(&vec![vec![2, 1], vec![2], vec![], vec![1, 5], vec![2, 0], vec![2]]),
        digest_words(&vec![2, 1, 5, 2, 2, 0, 2, 1])
    );
    assert_eq!(
        classify_keys(&vec![vec![5], vec![4], vec![3], vec![2], vec![1], vec![0]]),
        classify_keys(&vec![vec![0], vec![1], vec![2], vec![3], vec![4], vec![5]])
    );
    assert_eq!(
        classify_keys(&vec![vec![3], vec![1], vec![4], vec![1], vec![5], vec![9], vec![2], vec![6]]),
        digest_words(&vec![2, 1, 2, 3, 4, 5, 6, 9])
    );
}

#[test]
fn order_of_the_elements_does_not_count() {
    assert_eq!([1u8, 2, 3].classify(), [3u8, 2, 1].classify());
    assert_eq!([0u8, 1, 255].classify(), [255u8, 0, 1].classify());
    assert_eq!([0u8, 1, 255].classify(), [1u8, 255, 0, 0, 1, 1].classify());
    assert_eq!(
        [i8::MIN, -1, 0, 1, i8::MAX].classify(),
        [i8::MAX, 1, 0, -1, i8::MIN].classify()
    );
    assert_ne!([0u8, 1].classify(), [1u8, 255].classify());
    assert_ne!([0u8, 1].classify(), [0u8, 1, 255].classify());
}

#[test]
fn cardinality_keeps_none_one_and_more_apart() {
    for x in [0u8, 1, 255] {
        let none: [u8; 0] = [];
        assert_ne!(none.classify(), [x].classify());
        assert_ne!([x].classify(), [x, x].classify());
        assert_ne!(none.classify(), [x, x].classify());
        assert_eq!([x, x].classify(), [x, x, x].classify());
    }
}

#[test]
fn arrays_vectors_and_slices_classify_alike() {
    let array = [0u8, 5, 255];
    let vector = vec![0u8, 5, 255];
    let slice: &[u8] = &array;
    assert_eq!(array.classify(), vector.classify());
    assert_eq!(array.classify(), slice.classify());
    assert_eq!(array.classify(), classify_slice(slice));
    let none: Vec<u8> = Vec::new();
    let empty: [u8; 0] = [];
    assert_eq!(none.classify(), empty.classify());
}

#[test]
fn collections_nest() {
    let a = vec![vec![1u8, 2], vec![], vec![0]];
    let b = vec![vec![0u8], vec![7, 9, 11], vec![], vec![]];
    assert_eq!(a.classify(), b.classify());
    let c = vec![vec![1u8, 2], vec![0]];
    assert_ne!(a.classify(), c.classify());
    assert_eq!(a.classify(), a.classify());
}
