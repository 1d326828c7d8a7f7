use shrink::order::{rank_words, Rank};

#[test]
fn rank_compares_word_by_word() {
    assert_eq!(rank_words(&vec![1, 2], &vec![1, 3]), Rank::Before);
    assert_eq!(rank_words(&vec![1, 3], &vec![1, 2]), Rank::After);
    assert_eq!(rank_words(&vec![0, 9, 9], &vec![1]), Rank::Before);
    assert_eq!(rank_words(&vec![2], &vec![1, 9, 9]), Rank::After);
    assert_eq!(rank_words(&vec![u64::MAX], &vec![0]), Rank::After);
}

#[test]
fn rank_puts_a_beginning_before_the_whole() {
    assert_eq!(rank_words(&Vec::new(), &vec![0]), Rank::Before);
    assert_eq!(rank_words(&vec![0], &Vec::new()), Rank::After);
    assert_eq!(rank_words(&vec![1, 2], &vec![1, 2, 0]), Rank::Before);
    assert_eq!(rank_words(&vec![1, 2, 0], &vec![1, 2]), Rank::After);
}

#[test]
fn rank_is_same_for_equal_words_only() {
    assert_eq!(rank_words(&Vec::new(), &Vec::new()), Rank::Same);
    assert_eq!(rank_words(&vec![5], &vec![5]), Rank::Same);
    assert_eq!(rank_words(&vec![1, 2, 3], &vec![1, 2, 3]), Rank::Same);
    assert_ne!(rank_words(&vec![1, 2, 3], &vec![1, 2, 4]), Rank::Same);
}
