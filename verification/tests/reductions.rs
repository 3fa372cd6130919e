use rock_paper_scissors::find_largest_element;
use rock_paper_scissors::sum_one_to_n;
use rock_paper_scissors::summation::LARGEST_BOUND;

#[test]
fn test_no_elements() {
    let empty_vec = Vec::new();

    let result = find_largest_element(&empty_vec);

    assert_eq!(result, None);
}

#[test]
fn test_some_elements() {
    let myvec = vec![1, 5, 3, 8, 0];

    let result = find_largest_element(&myvec);

    assert_eq!(result, Some(8));
}

#[test]
fn test_negative_elements() {
    let myvec = vec![-1, -5, -3, -8];

    let result = find_largest_element(&myvec);

    assert_eq!(result, Some(-1));
}

#[test]
fn largest_of_one_element_is_that_element() {
    assert_eq!(find_largest_element(&vec![42]), Some(42));
    assert_eq!(find_largest_element(&vec![i64::MIN]), Some(i64::MIN));
}

#[test]
fn largest_is_found_wherever_it_stands() {
    assert_eq!(find_largest_element(&vec![9, 2, 3]), Some(9));
    assert_eq!(find_largest_element(&vec![2, 9, 3]), Some(9));
    assert_eq!(find_largest_element(&vec![2, 3, 9]), Some(9));
}

#[test]
fn largest_with_repeats_and_extremes() {
    assert_eq!(find_largest_element(&vec![7, 7, 7]), Some(7));
    assert_eq!(find_largest_element(&vec![0, i64::MAX, i64::MIN, i64::MAX]), Some(i64::MAX));
    assert_eq!(find_largest_element(&vec![i64::MIN, -1, i64::MIN]), Some(-1));
}

#[test]
fn largest_occurs_in_the_list_and_bounds_it() {
    let lists: Vec<Vec<i64>> = vec![
        vec![3, 1, 4, 1, 5, 9, 2, 6],
        vec![-10, -20, -30],
        vec![0],
        vec![5, 5],
    ];
    for list in lists.iter() {
        let largest = find_largest_element(list).unwrap();
        assert!(list.contains(&largest));
        assert!(list.iter().all(|e| *e <= largest));
    }
}

#[test]
fn test_sum_0() {
    let result = sum_one_to_n(0);

    assert_eq!(result, 0);
}

#[test]
fn test_sum_1() {
    let result = sum_one_to_n(1);

    assert_eq!(result, 1);
}

#[test]
fn test_sum_100() {
    let result = sum_one_to_n(100);

    assert_eq!(result, 5050);
}

#[test]
fn sum_of_small_bounds() {
    assert_eq!(sum_one_to_n(2), 3);
    assert_eq!(sum_one_to_n(3), 6);
    assert_eq!(sum_one_to_n(10), 55);
    assert_eq!(sum_one_to_n(1000), 500500);
}

#[test]
fn sum_grows_by_the_next_bound() {
    let mut n: u32 = 0;
    while n < 200 {
        assert_eq!(sum_one_to_n(n + 1), sum_one_to_n(n) + n + 1);
        n += 1;
    }
}

#[test]
fn sum_at_the_largest_bound() {
    assert_eq!(LARGEST_BOUND, 92681);
    assert_eq!(sum_one_to_n(LARGEST_BOUND), 4294930221);
    let next = u64::from(LARGEST_BOUND) + 1;
    assert!(next * (next + 1) / 2 > u64::from(u32::MAX));
}
