use shrink::keys::distinct_ascending;

fn laid_out(keys: &Vec<Vec<u64>>) -> Vec<Vec<u64>> {
    distinct_ascending(keys)
        .iter()
        .map(|&i| keys[i].clone())
        .collect()
}

#[test]
fn distinct_ascending_of_nothing_is_nothing() {
    assert_eq!(distinct_ascending(&Vec::new()), Vec::<usize>::new());
}

#[test]
fn distinct_ascending_sorts() {
    let keys = vec![vec![3], vec![1], vec![2]];
    assert_eq!(distinct_ascending(&keys), vec![1, 2, 0]);
    let keys = vec![vec![0], vec![1], vec![2], vec![3]];
    assert_eq!(distinct_ascending(&keys), vec![0, 1, 2, 3]);
    let keys = vec![vec![3], vec![2], vec![1], vec![0]];
    assert_eq!(distinct_ascending(&keys), vec![3, 2, 1, 0]);
}

#[test]
fn distinct_ascending_keeps_one_of_each() {
    let keys = vec![vec![1], vec![0], vec![1], vec![0], vec![1]];
    assert_eq!(laid_out(&keys), vec![vec![0], vec![1]]);
    let keys = vec![vec![7, 7]; 5];
    assert_eq!(laid_out(&keys), vec![vec![7, 7]]);
}

#[test]
fn distinct_ascending_compares_whole_keys() {
    let keys = vec![
        vec![1, 0],
        vec![],
        vec![0, 9],
        vec![1],
        vec![0],
        vec![1, 0, 0],
        vec![],
        vec![0, 9],
    ];
    assert_eq!(
        laid_out(&keys),
        vec![
            vec![],
            vec![0],
            vec![0, 9],
            vec![1],
            vec![1, 0],
            vec![1, 0, 0],
        ]
    );
}

#[test]
fn distinct_ascending_handles_many_keys() {
    let keys: Vec<Vec<u64>> = (0..200u64).map(|i| vec![(i * 37) % 50, i % 3]).collect();
    let out = laid_out(&keys);
    let mut expected = keys.clone();
    expected.sort();
    expected.dedup();
    assert_eq!(out, expected);
}
