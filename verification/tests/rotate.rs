use circular_queue::rotate::reverse_range;

#[test]
fn reverse_range_reverses_the_stretch_only() {
    let mut v = vec![0, 1, 2, 3, 4, 5, 6];
    reverse_range(&mut v, 2, 6);
    assert_eq!(v, [0, 1, 5, 4, 3, 2, 6]);

    reverse_range(&mut v, 0, 7);
    assert_eq!(v, [6, 2, 3, 4, 5, 1, 0]);

    reverse_range(&mut v, 0, 2);
    assert_eq!(v, [2, 6, 3, 4, 5, 1, 0]);
}

#[test]
fn reverse_range_leaves_short_stretches_alone() {
    let mut v = vec![0, 1, 2];
    reverse_range(&mut v, 1, 1);
    assert_eq!(v, [0, 1, 2]);
    reverse_range(&mut v, 3, 3);
    assert_eq!(v, [0, 1, 2]);
    reverse_range(&mut v, 2, 3);
    assert_eq!(v, [0, 1, 2]);

    let mut empty: Vec<i32> = Vec::new();
    reverse_range(&mut empty, 0, 0);
    assert_eq!(empty, []);
}

#[test]
fn reverse_range_moves_values_that_cannot_be_copied() {
    let mut v = vec![String::from("a"), String::from("b"), String::from("c")];
    reverse_range(&mut v, 0, 3);
    assert_eq!(v, ["c", "b", "a"]);
}
