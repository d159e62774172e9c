//! The payout schedule of an escrow: how the total is cut into milestones.
//!
//! A schedule is either explicit, one positive amount per milestone adding up
//! to the total, or an equal split, in which every milestone pays the same and
//! the last one takes the remainder of the division on top.

use crate::error::EscrowError;
use vstd::arithmetic::div_mod::lemma_fundamental_div_mod;
use vstd::arithmetic::mul::lemma_mul_inequality;
use vstd::prelude::*;

verus! {

/// Largest number of milestones an escrow may be cut into.
pub const MAX_MILESTONES: u8 = 20;

/// The sum of a list of amounts.
pub open spec fn sum_of(amounts: Seq<u64>) -> int
    decreases amounts.len(),
{
    if amounts.len() == 0 {
        0
    } else {
        sum_of(amounts.drop_last()) + amounts.last()
    }
}

/// Whether every amount of the list is positive.
pub open spec fn all_positive(amounts: Seq<u64>) -> bool {
    forall|i: int| 0 <= i < amounts.len() ==> amounts[i] > 0
}

/// Whether `count` is an admitted number of milestones.
pub open spec fn valid_milestone_count(count: u8) -> bool {
    1 <= count <= MAX_MILESTONES
}

/// Whether `amounts` is an explicit schedule for `total` in `count` milestones:
/// one positive amount for each milestone, adding up to the total.
pub open spec fn valid_explicit_schedule(total: u64, count: u8, amounts: Seq<u64>) -> bool {
    &&& amounts.len() == count
    &&& all_positive(amounts)
    &&& sum_of(amounts) == total
}

/// Whether the stored schedule of a record is valid: the list is empty, which
/// stands for the equal split, or it is an explicit schedule.
pub open spec fn valid_schedule(total: u64, count: u8, amounts: Seq<u64>) -> bool {
    &&& total > 0
    &&& valid_milestone_count(count)
    &&& (amounts.len() == 0 || valid_explicit_schedule(total, count, amounts))
}

/// The first reason, if any, for which the terms of a new escrow are refused.
pub open spec fn schedule_rejection(total: u64, count: u8, amounts: Option<Seq<u64>>) -> Option<
    EscrowError,
> {
    if total == 0 {
        Some(EscrowError::InvalidAmount)
    } else if !valid_milestone_count(count) {
        Some(EscrowError::InvalidMilestoneCount)
    } else if amounts is Some && !valid_explicit_schedule(total, count, amounts->0) {
        Some(EscrowError::InvalidMilestoneAmounts)
    } else {
        None
    }
}

/// The explicit schedule asked for, if one is, as a list of amounts.
pub open spec fn requested(amounts: Option<Vec<u64>>) -> Option<Seq<u64>> {
    match amounts {
        Some(list) => Some(list@),
        None => None,
    }
}

/// The list stored in the record for the schedule asked for: the explicit
/// amounts, or the empty list for the equal split.
pub open spec fn stored_schedule(amounts: Option<Seq<u64>>) -> Seq<u64> {
    match amounts {
        Some(list) => list,
        None => Seq::empty(),
    }
}

/// The amount that milestone `index` pays out.
pub open spec fn milestone_amount(total: u64, count: u8, amounts: Seq<u64>, index: int) -> int {
    if amounts.len() > 0 {
        amounts[index] as int
    } else if index == count - 1 {
        total / (count as u64) + total % (count as u64)
    } else {
        (total / (count as u64)) as int
    }
}

/// What the first `done` milestones pay out together.
pub open spec fn paid_through(total: u64, count: u8, amounts: Seq<u64>, done: nat) -> int
    decreases done,
{
    if done == 0 {
        0
    } else {
        paid_through(total, count, amounts, (done - 1) as nat) + milestone_amount(
            total,
            count,
            amounts,
            done - 1,
        )
    }
}

/// Adds up a short list of amounts.
fn sum_amounts(amounts: &Vec<u64>) -> (sum: u128)
    requires
        amounts.len() <= u8::MAX,
    ensures
        sum == sum_of(amounts@),
{
    let mut sum: u128 = 0;
    let mut i: usize = 0;
    while i < amounts.len()
        invariant
            i <= amounts.len() <= u8::MAX,
            sum == sum_of(amounts@.take(i as int)),
            sum <= i * u64::MAX,
        decreases amounts.len() - i,
    {
        assert(amounts@.take(i + 1).drop_last() == amounts@.take(i as int));
        sum = sum + amounts[i] as u128;
        i = i + 1;
    }
    assert(amounts@.take(i as int) == amounts@);
    sum
}

/// Decides whether every amount of the list is positive.
fn check_all_positive(amounts: &Vec<u64>) -> (ok: bool)
    ensures
        ok == all_positive(amounts@),
{
    let mut i: usize = 0;
    while i < amounts.len()
        invariant
            i <= amounts.len(),
            forall|j: int| 0 <= j < i ==> amounts[j] > 0,
        decreases amounts.len() - i,
    {
        if amounts[i] == 0 {
            return false;
        }
        i = i + 1;
    }
    true
}

/// Decides whether `amounts` is an explicit schedule for `total` in `count`
/// milestones.
pub fn check_explicit_schedule(total: u64, count: u8, amounts: &Vec<u64>) -> (ok: bool)
    ensures
        ok == valid_explicit_schedule(total, count, amounts@),
{
    amounts.len() == count as usize && sum_amounts(amounts) == total as u128 && check_all_positive(
        amounts,
    )
}

/// Checks the terms of a new escrow: a positive total, an admitted number of
/// milestones and, where an explicit schedule is given, one that fits both.
pub fn validate_schedule(total: u64, count: u8, amounts: &Option<Vec<u64>>) -> (checked: Result<
    (),
    EscrowError,
>)
    ensures
        checked == match schedule_rejection(total, count, requested(*amounts)) {
            Some(reason) => Err::<(), EscrowError>(reason),
            None => Ok(()),
        },
{
    if total == 0 {
        return Err(EscrowError::InvalidAmount);
    }
    if count == 0 || count > MAX_MILESTONES {
        return Err(EscrowError::InvalidMilestoneCount);
    }
    if let Some(list) = amounts {
        if !check_explicit_schedule(total, count, list) {
            return Err(EscrowError::InvalidMilestoneAmounts);
        }
    }
    Ok(())
}

/// Computes the amount that milestone `index` pays out.
pub fn expected_amount(total: u64, count: u8, amounts: &Vec<u64>, index: u8) -> (amount: u64)
    requires
        index < count,
        amounts.len() == 0 || amounts.len() == count,
    ensures
        amount == milestone_amount(total, count, amounts@, index as int),
{
    if amounts.len() > 0 {
        amounts[index as usize]
    } else {
        let base: u64 = total / (count as u64);
        let remainder: u64 = total % (count as u64);
        if index == count - 1 {
            proof {
                lemma_fundamental_div_mod(total as int, count as int);
                lemma_mul_inequality(1, count as int, base as int);
            }
            base + remainder
        } else {
            base
        }
    }
}

} // verus!
