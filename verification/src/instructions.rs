//! The operations on an escrow.
//!
//! Each one either succeeds as a whole or is rejected and changes nothing.
//! Where funds are to move, the operation hands back the [`Transfer`] that the
//! host is to carry out together with the change of the record.

use crate::accounts::{
    AssignFreelancer, CloseEscrow, InitializeEscrow, RefundEscrow, ReleaseMilestone,
};
use crate::address::signer_seeds_for;
use crate::custody::Transfer;
use crate::error::EscrowError;
use crate::identity::Identity;
use crate::record::{opened, EscrowStatus, MAX_GIG_ID_LEN};
use crate::schedule::{expected_amount, requested, stored_schedule, validate_schedule};
use vstd::prelude::*;
use vstd::utf8::encode_utf8;

verus! {

/// Opens an escrow for a gig and asks for its funding.
///
/// The terms are checked first: a positive total, between one and twenty
/// milestones and, where an explicit schedule is given, one positive amount
/// for each milestone that add up to the total. A gig has one escrow: where
/// one lives in the record already, the request is rejected with
/// `InvalidStatus`. Then the custody accounts are checked.
///
/// On success the record starts out as `Initialized` with the caller as its
/// client, no freelancer, nothing paid and the first milestone current; it
/// stores the explicit schedule, or nothing for the equal split. The transfer
/// handed back moves the whole total from the client's custody into the
/// escrow's.
pub fn initialize_escrow(
    ctx: &mut InitializeEscrow,
    gig_id: String,
    total_amount: u64,
    milestone_count: u8,
    milestone_amounts: Option<Vec<u64>>,
) -> (result: Result<Transfer, EscrowError>)
    requires
        encode_utf8(gig_id@).len() <= MAX_GIG_ID_LEN,
    ensures
        match result {
            Ok(transfer) => {
                &&& old(ctx).rejection(total_amount, milestone_count, requested(milestone_amounts))
                    is None
                &&& final(ctx).escrow@ == opened(
                    old(ctx).client@,
                    gig_id@,
                    total_amount,
                    milestone_count,
                    stored_schedule(requested(milestone_amounts)),
                    old(ctx).escrow_bump,
                )
                &&& transfer@ == old(ctx).deposit(total_amount)
                &&& *final(ctx) == (InitializeEscrow { escrow: final(ctx).escrow, ..*old(ctx) })
                &&& final(ctx).escrow@.wf()
                &&& final(ctx).escrow@.on_schedule()
            },
            Err(reason) => {
                &&& old(ctx).rejection(total_amount, milestone_count, requested(milestone_amounts))
                    == Some(reason)
                &&& *final(ctx) == *old(ctx)
            },
        },
{
    match validate_schedule(total_amount, milestone_count, &milestone_amounts) {
        Err(reason) => {
            return Err(reason);
        },
        Ok(()) => {},
    }
    if !ctx.escrow.is_vacant() {
        return Err(EscrowError::InvalidStatus);
    }
    match ctx.check_custody() {
        Err(reason) => {
            return Err(reason);
        },
        Ok(()) => {},
    }
    ctx.escrow.client = ctx.client;
    ctx.escrow.freelancer = Identity::default();
    ctx.escrow.gig_id = gig_id;
    ctx.escrow.total_amount = total_amount;
    ctx.escrow.paid_amount = 0;
    ctx.escrow.milestone_count = milestone_count;
    ctx.escrow.current_milestone = 0;
    ctx.escrow.status = EscrowStatus::Initialized;
    ctx.escrow.bump = ctx.escrow_bump;
    ctx.escrow.milestone_amounts = match milestone_amounts {
        Some(list) => list,
        None => Vec::new(),
    };
    let no_seeds: Vec<Vec<u8>> = Vec::new();
    assert(no_seeds.deep_view() =~= Seq::<Seq<u8>>::empty());
    Ok(
        Transfer {
            from: ctx.client_token_account.key,
            to: ctx.escrow_token_account.key,
            authority: ctx.client,
            signer_seeds: no_seeds,
            amount: total_amount,
        },
    )
}

/// Assigns the freelancer and sets the escrow in progress.
///
/// This is open to the client alone, and only while the escrow is
/// `Initialized`. No funds move.
pub fn assign_freelancer(ctx: &mut AssignFreelancer, freelancer: Identity) -> (result: Result<
    (),
    EscrowError,
>)
    ensures
        match result {
            Ok(()) => {
                &&& old(ctx).escrow@.assign_rejection(old(ctx).client@) is None
                &&& final(ctx).escrow@ == old(ctx).escrow@.assigned(freelancer@)
                &&& final(ctx).client == old(ctx).client
            },
            Err(reason) => {
                &&& old(ctx).escrow@.assign_rejection(old(ctx).client@) == Some(reason)
                &&& *final(ctx) == *old(ctx)
            },
        },
        old(ctx).escrow@.wf() ==> final(ctx).escrow@.wf(),
        old(ctx).escrow@.on_schedule() ==> final(ctx).escrow@.on_schedule(),
{
    if ctx.escrow.status != EscrowStatus::Initialized {
        return Err(EscrowError::InvalidStatus);
    }
    if !(ctx.client == ctx.escrow.client) {
        return Err(EscrowError::Unauthorized);
    }
    ctx.escrow.freelancer = freelancer;
    ctx.escrow.status = EscrowStatus::InProgress;
    Ok(())
}

/// Releases the current milestone to the freelancer.
///
/// The release goes through only while the escrow is in progress with a
/// freelancer assigned, for a positive amount that the escrow can still pay,
/// while a milestone is left, for exactly the amount scheduled for it, on the
/// client's request, and between custody accounts that fit. The first of these
/// that fails, in this order, decides the rejection. On success the amount is
/// booked as paid, the next milestone becomes current, and the escrow is
/// completed once everything is paid.
pub fn release_milestone(ctx: &mut ReleaseMilestone, amount_to_release: u64) -> (result: Result<
    Transfer,
    EscrowError,
>)
    requires
        old(ctx).escrow@.wf(),
    ensures
        match result {
            Ok(transfer) => {
                &&& old(ctx).rejection(amount_to_release) is None
                &&& final(ctx).escrow@ == old(ctx).escrow@.released(amount_to_release)
                &&& transfer@ == old(ctx).payout(amount_to_release)
                &&& *final(ctx) == (ReleaseMilestone { escrow: final(ctx).escrow, ..*old(ctx) })
            },
            Err(reason) => {
                &&& old(ctx).rejection(amount_to_release) == Some(reason)
                &&& *final(ctx) == *old(ctx)
            },
        },
        final(ctx).escrow@.wf(),
        old(ctx).escrow@.on_schedule() ==> final(ctx).escrow@.on_schedule(),
{
    if ctx.escrow.status != EscrowStatus::InProgress {
        return Err(EscrowError::InvalidStatus);
    }
    if ctx.escrow.freelancer == Identity::default() {
        return Err(EscrowError::FreelancerNotAssigned);
    }
    if amount_to_release == 0 {
        return Err(EscrowError::InvalidAmount);
    }
    if amount_to_release > ctx.escrow.total_amount - ctx.escrow.paid_amount {
        return Err(EscrowError::ExceedsTotalAmount);
    }
    if ctx.escrow.current_milestone >= ctx.escrow.milestone_count {
        return Err(EscrowError::ExceedsMilestoneCount);
    }
    let expected: u64 = expected_amount(
        ctx.escrow.total_amount,
        ctx.escrow.milestone_count,
        &ctx.escrow.milestone_amounts,
        ctx.escrow.current_milestone,
    );
    if amount_to_release != expected {
        return Err(EscrowError::InvalidMilestoneAmount);
    }
    if !(ctx.client == ctx.escrow.client) {
        return Err(EscrowError::Unauthorized);
    }
    match ctx.check_custody() {
        Err(reason) => {
            return Err(reason);
        },
        Ok(()) => {},
    }
    let transfer = Transfer {
        from: ctx.escrow_token_account.key,
        to: ctx.freelancer_token_account.key,
        authority: ctx.escrow_address,
        signer_seeds: signer_seeds_for(ctx.escrow.gig_id.as_str(), ctx.escrow.bump),
        amount: amount_to_release,
    };
    ctx.escrow.paid_amount = ctx.escrow.paid_amount + amount_to_release;
    ctx.escrow.current_milestone = ctx.escrow.current_milestone + 1;
    if ctx.escrow.paid_amount == ctx.escrow.total_amount {
        ctx.escrow.status = EscrowStatus::Completed;
    }
    Ok(transfer)
}

/// Cancels the escrow and asks for what it still holds to go back to the
/// client.
///
/// This is open to the client alone, and not once the escrow is completed.
/// Where the escrow still holds funds, the transfer handed back moves all of
/// them to the client's custody; where it holds none, as after an earlier
/// refund, nothing moves and the call succeeds all the same.
pub fn refund_escrow(ctx: &mut RefundEscrow) -> (result: Result<Option<Transfer>, EscrowError>)
    requires
        old(ctx).escrow@.wf(),
    ensures
        match result {
            Ok(moved) => {
                &&& old(ctx).rejection() is None
                &&& final(ctx).escrow@ == old(ctx).escrow@.refunded()
                &&& match moved {
                    Some(transfer) => old(ctx).escrow@.held() > 0 && transfer@ == old(
                        ctx,
                    ).repayment(),
                    None => old(ctx).escrow@.held() == 0,
                }
                &&& *final(ctx) == (RefundEscrow { escrow: final(ctx).escrow, ..*old(ctx) })
            },
            Err(reason) => {
                &&& old(ctx).rejection() == Some(reason)
                &&& *final(ctx) == *old(ctx)
            },
        },
        final(ctx).escrow@.wf(),
        old(ctx).escrow@.on_schedule() ==> final(ctx).escrow@.on_schedule(),
{
    if !(ctx.client == ctx.escrow.client) {
        return Err(EscrowError::Unauthorized);
    }
    if ctx.escrow.status == EscrowStatus::Completed {
        return Err(EscrowError::AlreadyCompleted);
    }
    match ctx.check_custody() {
        Err(reason) => {
            return Err(reason);
        },
        Ok(()) => {},
    }
    let remaining: u64 = if ctx.escrow.status == EscrowStatus::Refunded {
        0
    } else {
        ctx.escrow.total_amount - ctx.escrow.paid_amount
    };
    let moved = if remaining > 0 {
        Some(
            Transfer {
                from: ctx.escrow_token_account.key,
                to: ctx.client_token_account.key,
                authority: ctx.escrow_address,
                signer_seeds: signer_seeds_for(ctx.escrow.gig_id.as_str(), ctx.escrow.bump),
                amount: remaining,
            },
        )
    } else {
        None
    };
    ctx.escrow.status = EscrowStatus::Refunded;
    Ok(moved)
}

/// Decides whether the record may be closed and its storage given back.
///
/// A record may be closed by its client, once it is completed or refunded and
/// holds no funds any more.
pub fn close_escrow(ctx: &CloseEscrow) -> (result: Result<(), EscrowError>)
    ensures
        result == match ctx.escrow@.close_rejection(ctx.client@) {
            Some(reason) => Err::<(), EscrowError>(reason),
            None => Ok(()),
        },
{
    if ctx.escrow.status != EscrowStatus::Completed && ctx.escrow.status != EscrowStatus::Refunded {
        return Err(EscrowError::InvalidStatus);
    }
    if !(ctx.client == ctx.escrow.client) {
        return Err(EscrowError::Unauthorized);
    }
    if ctx.escrow.paid_amount != ctx.escrow.total_amount && ctx.escrow.status
        != EscrowStatus::Refunded {
        return Err(EscrowError::FundsNotReleased);
    }
    Ok(())
}

} // verus!
