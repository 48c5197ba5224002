use adm_sdk::ipc::manager::{base_fee_surged, estimate_priority_fee, premium_estimation};

const GWEI: u128 = 1_000_000_000;

#[test]
fn surge_bands() {
    assert_eq!(base_fee_surged(30 * GWEI), 60 * GWEI);
    assert_eq!(base_fee_surged(40 * GWEI), 80 * GWEI);
    assert_eq!(base_fee_surged(50 * GWEI), 80 * GWEI);
    assert_eq!(base_fee_surged(100 * GWEI), 160 * GWEI);
    assert_eq!(base_fee_surged(150 * GWEI), 210 * GWEI);
    assert_eq!(base_fee_surged(200 * GWEI), 280 * GWEI);
    assert_eq!(base_fee_surged(300 * GWEI), 360 * GWEI);
}

#[test]
fn gas_estimation_example() {
    let rewards = vec![vec![4 * GWEI], vec![5 * GWEI], vec![6 * GWEI]];
    let (priority, max_fee) = premium_estimation(30 * GWEI, rewards);
    assert_eq!(priority, 5 * GWEI);
    assert_eq!(max_fee, 60 * GWEI);
}

#[test]
fn priority_fee_of_no_samples_is_zero() {
    assert_eq!(estimate_priority_fee(vec![]), 0);
    assert_eq!(estimate_priority_fee(vec![vec![0], vec![0]]), 0);
}

#[test]
fn priority_fee_of_one_sample_is_that_sample() {
    assert_eq!(estimate_priority_fee(vec![vec![0], vec![7], vec![0]]), 7);
}

#[test]
fn priority_fee_cuts_below_a_large_jump_in_the_upper_half() {
    // sorted: 1, 2, 3, 100, 101; changes: 100, 50, 3233, 1; the jump sits at
    // index 2, which is in the upper half, so the median is taken of
    // 3, 100, 101.
    let rewards = vec![vec![100], vec![1], vec![101], vec![3], vec![2]];
    assert_eq!(estimate_priority_fee(rewards), 100);
}

#[test]
fn priority_fee_keeps_all_when_the_jump_is_in_the_lower_half() {
    // sorted: 1, 10, 11, 12, 13; the jump sits at index 0.
    let rewards = vec![vec![13], vec![1], vec![12], vec![10], vec![11]];
    assert_eq!(estimate_priority_fee(rewards), 11);
}

#[test]
fn priority_fee_keeps_all_when_the_jump_is_small() {
    // sorted: 10, 11, 12, 13, 14: no change reaches 200 percent.
    let rewards = vec![vec![14], vec![13], vec![12], vec![11], vec![10]];
    assert_eq!(estimate_priority_fee(rewards), 12);
}

#[test]
fn priority_fee_takes_the_first_of_equal_jumps() {
    // sorted: 1, 3, 9, 27; changes: 200, 200, 200; the first is at index 0,
    // in the lower half, so all samples count and the median is 9.
    let rewards = vec![vec![27], vec![9], vec![3], vec![1]];
    assert_eq!(estimate_priority_fee(rewards), 9);
}

#[test]
fn max_fee_adds_the_surge_to_a_larger_priority_fee() {
    let rewards = vec![vec![100 * GWEI], vec![100 * GWEI]];
    let (priority, max_fee) = premium_estimation(30 * GWEI, rewards);
    assert_eq!(priority, 100 * GWEI);
    assert_eq!(max_fee, 160 * GWEI);
}
