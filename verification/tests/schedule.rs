use milestone_escrow::schedule::{
    check_explicit_schedule, expected_amount, validate_schedule, MAX_MILESTONES,
};
use milestone_escrow::EscrowError;

#[test]
fn zero_total_is_an_invalid_amount() {
    assert_eq!(validate_schedule(0, 3, &None), Err(EscrowError::InvalidAmount));
    assert_eq!(validate_schedule(0, 0, &None), Err(EscrowError::InvalidAmount));
    assert_eq!(validate_schedule(0, 2, &Some(vec![0, 0])), Err(EscrowError::InvalidAmount));
}

#[test]
fn milestone_count_must_be_between_one_and_twenty() {
    assert_eq!(MAX_MILESTONES, 20);
    assert_eq!(validate_schedule(100, 0, &None), Err(EscrowError::InvalidMilestoneCount));
    assert_eq!(validate_schedule(100, 21, &None), Err(EscrowError::InvalidMilestoneCount));
    assert_eq!(validate_schedule(100, 255, &None), Err(EscrowError::InvalidMilestoneCount));
    assert_eq!(validate_schedule(100, 1, &None), Ok(()));
    assert_eq!(validate_schedule(100, 20, &None), Ok(()));
}

#[test]
fn explicit_schedule_needs_one_amount_per_milestone() {
    assert_eq!(
        validate_schedule(100, 3, &Some(vec![40, 60])),
        Err(EscrowError::InvalidMilestoneAmounts)
    );
    assert_eq!(
        validate_schedule(100, 1, &Some(vec![40, 60])),
        Err(EscrowError::InvalidMilestoneAmounts)
    );
    assert_eq!(
        validate_schedule(100, 2, &Some(vec![])),
        Err(EscrowError::InvalidMilestoneAmounts)
    );
}

#[test]
fn explicit_schedule_must_add_up_to_the_total() {
    assert_eq!(
        validate_schedule(100, 2, &Some(vec![40, 59])),
        Err(EscrowError::InvalidMilestoneAmounts)
    );
    assert_eq!(
        validate_schedule(100, 2, &Some(vec![40, 61])),
        Err(EscrowError::InvalidMilestoneAmounts)
    );
    assert_eq!(validate_schedule(100, 2, &Some(vec![40, 60])), Ok(()));
    assert_eq!(validate_schedule(100, 1, &Some(vec![100])), Ok(()));
}

#[test]
fn explicit_schedule_must_be_positive_throughout() {
    assert_eq!(
        validate_schedule(100, 3, &Some(vec![40, 0, 60])),
        Err(EscrowError::InvalidMilestoneAmounts)
    );
    assert_eq!(
        validate_schedule(100, 2, &Some(vec![100, 0])),
        Err(EscrowError::InvalidMilestoneAmounts)
    );
}

#[test]
fn explicit_schedule_is_summed_without_wrapping() {
    // Taken modulo 2^64, the two amounts would add up to the total.
    let total = u64::MAX - 1;
    assert_eq!(
        validate_schedule(total, 2, &Some(vec![u64::MAX, u64::MAX])),
        Err(EscrowError::InvalidMilestoneAmounts)
    );
    assert_eq!(validate_schedule(u64::MAX, 2, &Some(vec![u64::MAX - 1, 1])), Ok(()));
}

#[test]
fn twenty_milestones_of_one_unit_are_a_valid_schedule() {
    assert_eq!(validate_schedule(20, 20, &Some(vec![1; 20])), Ok(()));
    assert_eq!(
        validate_schedule(21, 20, &Some(vec![1; 21])),
        Err(EscrowError::InvalidMilestoneAmounts)
    );
}

#[test]
fn terms_are_checked_in_order() {
    // A zero total is reported before a bad count, a bad count before a bad list.
    assert_eq!(validate_schedule(0, 21, &Some(vec![1])), Err(EscrowError::InvalidAmount));
    assert_eq!(
        validate_schedule(5, 21, &Some(vec![1])),
        Err(EscrowError::InvalidMilestoneCount)
    );
}

#[test]
fn check_explicit_schedule_agrees_with_the_rules() {
    assert!(check_explicit_schedule(100, 2, &vec![40, 60]));
    assert!(!check_explicit_schedule(100, 2, &vec![40, 50]));
    assert!(!check_explicit_schedule(100, 2, &vec![100, 0]));
    assert!(!check_explicit_schedule(100, 2, &vec![100]));
    assert!(!check_explicit_schedule(100, 2, &vec![]));
}

#[test]
fn equal_split_puts_the_remainder_on_the_last_milestone() {
    let none: Vec<u64> = Vec::new();
    assert_eq!(expected_amount(100, 3, &none, 0), 33);
    assert_eq!(expected_amount(100, 3, &none, 1), 33);
    assert_eq!(expected_amount(100, 3, &none, 2), 34);
}

#[test]
fn equal_split_without_remainder_is_even() {
    let none: Vec<u64> = Vec::new();
    for index in 0..4u8 {
        assert_eq!(expected_amount(100, 4, &none, index), 25);
    }
    assert_eq!(expected_amount(7, 1, &none, 0), 7);
}

#[test]
fn equal_split_of_less_than_one_unit_each() {
    let none: Vec<u64> = Vec::new();
    assert_eq!(expected_amount(2, 3, &none, 0), 0);
    assert_eq!(expected_amount(2, 3, &none, 1), 0);
    assert_eq!(expected_amount(2, 3, &none, 2), 2);
}

#[test]
fn equal_split_of_the_largest_total() {
    let none: Vec<u64> = Vec::new();
    // u64::MAX = 20 * 922337203685477580 + 15
    assert_eq!(expected_amount(u64::MAX, 20, &none, 0), 922337203685477580);
    assert_eq!(expected_amount(u64::MAX, 20, &none, 19), 922337203685477595);
}

#[test]
fn equal_split_adds_up_to_the_total() {
    let none: Vec<u64> = Vec::new();
    for &(total, count) in &[(100u64, 3u8), (1, 1), (19, 20), (1000, 7), (u64::MAX, 20)] {
        let mut sum: u128 = 0;
        for index in 0..count {
            sum += expected_amount(total, count, &none, index) as u128;
        }
        assert_eq!(sum, total as u128);
    }
}

#[test]
fn explicit_schedule_pays_the_listed_amounts() {
    let amounts = vec![40u64, 60];
    assert_eq!(expected_amount(100, 2, &amounts, 0), 40);
    assert_eq!(expected_amount(100, 2, &amounts, 1), 60);
}
