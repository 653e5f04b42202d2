use player_metrics::aggregate_players;

#[test]
fn sums_all_contributions() {
    let counts: Vec<u64> = vec![3, 0, 7];
    assert_eq!(aggregate_players(&counts), 10);
}

#[test]
fn empty_fleet_sums_to_zero() {
    let counts: Vec<u64> = vec![];
    assert_eq!(aggregate_players(&counts), 0);
}

#[test]
fn order_does_not_change_the_sum() {
    let a: Vec<u64> = vec![1, 2, 3, 4, 5];
    let b: Vec<u64> = vec![5, 3, 1, 4, 2];
    assert_eq!(aggregate_players(&a), aggregate_players(&b));
    assert_eq!(aggregate_players(&a), 15);
}

#[test]
fn single_server_sum_is_its_count() {
    let counts: Vec<u64> = vec![123456789];
    assert_eq!(aggregate_players(&counts), 123456789);
}

#[test]
fn oversized_sum_saturates() {
    let counts: Vec<u64> = vec![u64::MAX, 1];
    assert_eq!(aggregate_players(&counts), u64::MAX);
    let counts2: Vec<u64> = vec![u64::MAX / 2 + 1, u64::MAX / 2 + 1, 9];
    assert_eq!(aggregate_players(&counts2), u64::MAX);
}

#[test]
fn exact_sum_just_below_the_limit() {
    let counts: Vec<u64> = vec![u64::MAX - 5, 5];
    assert_eq!(aggregate_players(&counts), u64::MAX);
    let counts2: Vec<u64> = vec![u64::MAX - 5, 4];
    assert_eq!(aggregate_players(&counts2), u64::MAX - 1);
}
