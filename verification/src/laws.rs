//! What holds of every escrow, proved from the rules of the record.

use crate::accounts::{InitializeEscrow, RefundEscrow, ReleaseMilestone};
use crate::address::{escrow_address, signer_seeds};
use crate::error::EscrowError;
use crate::record::{opened, EscrowStatus, EscrowView, Operation, MAX_GIG_ID_LEN};
use crate::schedule::{
    paid_through, schedule_rejection, stored_schedule, sum_of, valid_milestone_count,
    valid_schedule,
};
use vstd::arithmetic::div_mod::lemma_fundamental_div_mod;
use vstd::prelude::*;
use vstd::utf8::encode_utf8;

verus! {

/// In the equal split, the first `done` milestones pay `done` times the
/// quotient of the total by the number of milestones, as long as the last
/// milestone is not among them.
proof fn lemma_equal_split_prefix(total: u64, count: u8, amounts: Seq<u64>, done: nat)
    requires
        valid_milestone_count(count),
        amounts.len() == 0,
        done < count,
    ensures
        paid_through(total, count, amounts, done) == done * (total / (count as u64)),
    decreases done,
{
    let base = (total / (count as u64)) as int;
    if done > 0 {
        lemma_equal_split_prefix(total, count, amounts, (done - 1) as nat);
        assert((done - 1) * base + base == done * base) by (nonlinear_arith);
    }
}

/// With an explicit schedule, the first `done` milestones pay the sum of the
/// first `done` amounts of the list.
proof fn lemma_explicit_prefix(total: u64, count: u8, amounts: Seq<u64>, done: nat)
    requires
        amounts.len() > 0,
        done <= amounts.len(),
    ensures
        paid_through(total, count, amounts, done) == sum_of(amounts.take(done as int)),
    decreases done,
{
    if done > 0 {
        lemma_explicit_prefix(total, count, amounts, (done - 1) as nat);
        assert(amounts.take(done as int).drop_last() == amounts.take(done - 1));
    }
}

/// The sum of the first `shorter` amounts is at most that of the first `longer`.
proof fn lemma_prefix_sums_grow(amounts: Seq<u64>, shorter: int, longer: int)
    requires
        0 <= shorter <= longer <= amounts.len(),
    ensures
        sum_of(amounts.take(shorter)) <= sum_of(amounts.take(longer)),
    decreases longer - shorter,
{
    if shorter < longer {
        lemma_prefix_sums_grow(amounts, shorter, longer - 1);
        assert(amounts.take(longer).drop_last() == amounts.take(longer - 1));
    }
}

/// The milestones of a valid schedule pay the total between them, whether the
/// schedule is explicit or the equal split with its remainder on the last
/// milestone.
pub proof fn law_schedule_pays_the_total(total: u64, count: u8, amounts: Seq<u64>)
    requires
        valid_schedule(total, count, amounts),
    ensures
        paid_through(total, count, amounts, count as nat) == total,
{
    if amounts.len() > 0 {
        lemma_explicit_prefix(total, count, amounts, count as nat);
        assert(amounts.take(count as int) == amounts);
    } else {
        let base = (total / (count as u64)) as int;
        let n = count as int;
        lemma_equal_split_prefix(total, count, amounts, (count - 1) as nat);
        lemma_fundamental_div_mod(total as int, n);
        assert((n - 1) * base + base == n * base) by (nonlinear_arith);
    }
}

/// Before the last milestone of a valid schedule is released, less than the
/// total has been paid.
pub proof fn law_schedule_is_short_until_the_end(
    total: u64,
    count: u8,
    amounts: Seq<u64>,
    done: nat,
)
    requires
        valid_schedule(total, count, amounts),
        done < count,
    ensures
        0 <= paid_through(total, count, amounts, done) < total,
{
    if amounts.len() > 0 {
        let d = done as int;
        lemma_explicit_prefix(total, count, amounts, done);
        lemma_prefix_sums_grow(amounts, 0, d);
        lemma_prefix_sums_grow(amounts, d + 1, count as int);
        assert(amounts.take(d + 1).drop_last() == amounts.take(d));
        assert(amounts.take(count as int) == amounts);
        assert(amounts[d] > 0);
        assert(sum_of(amounts.take(0)) == 0);
    } else {
        let base = (total / (count as u64)) as int;
        let n = count as int;
        let d = done as int;
        lemma_equal_split_prefix(total, count, amounts, done);
        lemma_fundamental_div_mod(total as int, n);
        assert(0 <= d * base) by (nonlinear_arith)
            requires
                0 <= d,
                0 <= base,
        ;
        if base > 0 {
            assert(d * base < n * base) by (nonlinear_arith)
                requires
                    0 <= d < n,
                    base > 0,
            ;
        } else {
            assert(d * base == 0) by (nonlinear_arith)
                requires
                    base == 0,
            ;
        }
    }
}

/// Whatever terms the initialization admits give a well-formed record whose
/// books are exact. Where an explicit schedule was given, the record stores it
/// and its amounts add up to the total; where none was given, the record
/// stores none, which stands for the equal split.
pub proof fn law_initialization_is_valid(
    client: Seq<u8>,
    gig_id: Seq<char>,
    total: u64,
    count: u8,
    amounts: Option<Seq<u64>>,
    bump: u8,
)
    requires
        schedule_rejection(total, count, amounts) is None,
        encode_utf8(gig_id).len() <= MAX_GIG_ID_LEN,
    ensures
        opened(client, gig_id, total, count, stored_schedule(amounts), bump).wf(),
        opened(client, gig_id, total, count, stored_schedule(amounts), bump).on_schedule(),
        opened(client, gig_id, total, count, stored_schedule(amounts), bump).held() == total,
        amounts is Some ==> stored_schedule(amounts) == amounts->0 && sum_of(amounts->0) == total,
        amounts is None ==> stored_schedule(amounts).len() == 0,
{
}

/// The record of a gig lives at an address that the program and the gig
/// identifier decide between them: two requests that name the same gig under
/// the same program are about the same record.
pub proof fn law_gig_has_one_address(program_id: Seq<u8>, gig_id: Seq<char>, again: Seq<char>)
    requires
        again == gig_id,
    ensures
        escrow_address(program_id, again) == escrow_address(program_id, gig_id),
{
}

/// A record in which an escrow lives is never initialized again: whatever the
/// terms, the request is rejected, and with `InvalidStatus` where the terms
/// themselves are in order.
pub proof fn law_live_record_is_not_reopened(
    ctx: InitializeEscrow,
    total: u64,
    count: u8,
    amounts: Option<Seq<u64>>,
)
    requires
        ctx.escrow@.wf(),
    ensures
        ctx.rejection(total, count, amounts) is Some,
        schedule_rejection(total, count, amounts) is None ==> ctx.rejection(total, count, amounts)
            == Some(EscrowError::InvalidStatus),
{
}

/// Every request leaves a well-formed record well-formed, and exact books
/// exact, whether it is admitted or rejected.
pub proof fn law_request_keeps_the_invariants(record: EscrowView, request: Operation)
    requires
        record.wf(),
    ensures
        record.after(request).wf(),
        record.on_schedule() ==> record.after(request).on_schedule(),
{
}

/// After any run of requests on a well-formed record, no more has been paid
/// than was committed and no more milestones are released than there are;
/// the record is well-formed still, and its books are exact if they were.
pub proof fn law_invariants_hold_after_any_run(record: EscrowView, requests: Seq<Operation>)
    requires
        record.wf(),
    ensures
        record.after_all(requests).wf(),
        record.after_all(requests).paid_amount <= record.after_all(requests).total_amount,
        record.after_all(requests).current_milestone <= record.after_all(
            requests,
        ).milestone_count,
        record.on_schedule() ==> record.after_all(requests).on_schedule(),
    decreases requests.len(),
{
    if requests.len() > 0 {
        law_invariants_hold_after_any_run(record, requests.drop_last());
        law_request_keeps_the_invariants(record.after_all(requests.drop_last()), requests.last());
    }
}

/// No request changes the terms of an escrow: client, gig, total, schedule
/// and bump stay as they were. What has been paid and the current milestone
/// never go back, and a freelancer, once assigned, stays.
pub proof fn law_progress_is_monotone(record: EscrowView, request: Operation)
    ensures
        record.after(request).client == record.client,
        record.after(request).gig_id == record.gig_id,
        record.after(request).total_amount == record.total_amount,
        record.after(request).milestone_count == record.milestone_count,
        record.after(request).milestone_amounts == record.milestone_amounts,
        record.after(request).bump == record.bump,
        record.wf() ==> record.after(request).paid_amount >= record.paid_amount,
        record.wf() ==> record.after(request).current_milestone >= record.current_milestone,
        record.wf() ==> record.after(request).current_milestone <= record.current_milestone + 1,
        record.status != EscrowStatus::Initialized ==> record.after(request).freelancer
            == record.freelancer,
{
}

/// The status moves forward only: from `Initialized` to `InProgress` or
/// `Refunded`, from `InProgress` to `Completed` or `Refunded`, and nowhere
/// else.
pub proof fn law_status_moves_forward(record: EscrowView, request: Operation)
    ensures
        record.after(request).status == record.status || match record.status {
            EscrowStatus::Initialized => record.after(request).status == EscrowStatus::InProgress
                || record.after(request).status == EscrowStatus::Refunded,
            EscrowStatus::InProgress => record.after(request).status == EscrowStatus::Completed
                || record.after(request).status == EscrowStatus::Refunded,
            EscrowStatus::Completed => false,
            EscrowStatus::Refunded => false,
        },
{
}

/// `Completed` and `Refunded` are final: no request changes a record that has
/// reached one of them.
pub proof fn law_terminal_statuses_are_final(record: EscrowView, request: Operation)
    requires
        record.status == EscrowStatus::Completed || record.status == EscrowStatus::Refunded,
    ensures
        record.after(request) == record,
{
}

/// With exact books, everything has been paid exactly when every milestone
/// has been released, and that is exactly when the status is `Completed`.
pub proof fn law_completed_exactly_when_all_released(record: EscrowView)
    requires
        record.wf(),
        record.on_schedule(),
    ensures
        record.paid_amount == record.total_amount <==> record.current_milestone
            == record.milestone_count,
        record.status == EscrowStatus::Completed <==> record.current_milestone
            == record.milestone_count,
{
    if record.current_milestone < record.milestone_count {
        law_schedule_is_short_until_the_end(
            record.total_amount,
            record.milestone_count,
            record.milestone_amounts,
            record.current_milestone as nat,
        );
    } else {
        law_schedule_pays_the_total(
            record.total_amount,
            record.milestone_count,
            record.milestone_amounts,
        );
    }
}

/// The funds that move are the funds that the record gives up: a release
/// lowers what the escrow holds by the amount released, a refund gives back
/// all that is held and leaves nothing, and assigning a freelancer moves
/// nothing.
pub proof fn law_funds_are_conserved(record: EscrowView, request: Operation)
    requires
        record.wf(),
        record.rejection(request) is None,
    ensures
        match request {
            Operation::Assign { caller, freelancer } => record.after(request).held()
                == record.held(),
            Operation::Release { caller, amount } => record.after(request).held() + amount
                == record.held(),
            Operation::Refund { caller } => record.after(request).held() == 0 && 0
                <= record.held() <= record.total_amount,
        },
{
}

/// A refund asked for by the client of an escrow that is neither completed nor
/// refunded yet goes through where the custody accounts fit. It sets the
/// status to `Refunded` and sends the total less what has been paid to the
/// custody of the client: with exact books, the whole total where no
/// milestone has been released yet. After it the escrow holds nothing.
pub proof fn law_refund_returns_what_is_left(ctx: RefundEscrow)
    requires
        ctx.escrow@.wf(),
        ctx.escrow.status == EscrowStatus::Initialized || ctx.escrow.status
            == EscrowStatus::InProgress,
        ctx.client@ == ctx.escrow.client@,
        ctx.custody_rejection() is None,
    ensures
        ctx.rejection() is None,
        ctx.escrow@.refunded().status == EscrowStatus::Refunded,
        ctx.escrow@.refunded().held() == 0,
        ctx.repayment().amount == ctx.escrow.total_amount - ctx.escrow.paid_amount,
        ctx.escrow@.on_schedule() && ctx.escrow.current_milestone == 0 ==> ctx.repayment().amount
            == ctx.escrow.total_amount,
        ctx.repayment().to == ctx.client_token_account.key@,
        ctx.client_token_account.owner@ == ctx.escrow.client@,
{
}

/// Funds leave the escrow by the record's own consent and to two places only.
/// Every transfer that a release or a refund asks for debits a custody account
/// that the record owns, on the authority of the record and its seeds, and
/// credits an account of the same currency that belongs to the freelancer, for
/// a release, or to the client, for a refund.
pub proof fn law_funds_leave_by_the_record_alone(
    release: ReleaseMilestone,
    amount: u64,
    refund: RefundEscrow,
)
    requires
        release.rejection(amount) is None,
        refund.rejection() is None,
    ensures
        release.payout(amount).from == release.escrow_token_account.key@,
        release.escrow_token_account.owner@ == release.payout(amount).authority,
        release.payout(amount).authority == release.escrow_address@,
        release.payout(amount).signer_seeds == signer_seeds(
            release.escrow.gig_id@,
            release.escrow.bump,
        ),
        release.payout(amount).to == release.freelancer_token_account.key@,
        release.freelancer_token_account.owner@ == release.escrow.freelancer@,
        release.freelancer_token_account.mint@ == release.escrow_token_account.mint@,
        !release.escrow.freelancer.is_unset(),
        refund.repayment().from == refund.escrow_token_account.key@,
        refund.escrow_token_account.owner@ == refund.repayment().authority,
        refund.repayment().authority == refund.escrow_address@,
        refund.repayment().signer_seeds == signer_seeds(refund.escrow.gig_id@, refund.escrow.bump),
        refund.repayment().to == refund.client_token_account.key@,
        refund.client_token_account.owner@ == refund.escrow.client@,
        refund.client_token_account.mint@ == refund.escrow_token_account.mint@,
{
}

/// While no freelancer is assigned, no release goes through, whoever asks and
/// for whatever amount: an escrow that is still `Initialized` rejects it with
/// `InvalidStatus`, and one in progress without a freelancer with
/// `FreelancerNotAssigned`. The record stays as it was and no funds move.
pub proof fn law_release_needs_a_freelancer(ctx: ReleaseMilestone, amount: u64)
    requires
        ctx.escrow@.status == EscrowStatus::Initialized || ctx.escrow.freelancer.is_unset(),
    ensures
        ctx.rejection(amount) is Some,
        ctx.escrow@.status == EscrowStatus::Initialized ==> ctx.rejection(amount) == Some(
            EscrowError::InvalidStatus,
        ),
        ctx.rejection(amount) == Some(EscrowError::InvalidStatus) || ctx.rejection(amount) == Some(
            EscrowError::FreelancerNotAssigned,
        ),
        ctx.escrow@.after(Operation::Release { caller: ctx.client@, amount }) == ctx.escrow@,
{
}

/// A record is closed for its client alone, and only once it is completed or
/// refunded and every unit is accounted for. From any other status the
/// closing is rejected with `InvalidStatus`; with exact books it is never
/// rejected for funds that are left.
pub proof fn law_close_needs_a_settled_escrow(record: EscrowView, caller: Seq<u8>)
    ensures
        record.close_rejection(caller) is None <==> {
            &&& record.status == EscrowStatus::Completed || record.status
                == EscrowStatus::Refunded
            &&& caller == record.client
            &&& record.paid_amount == record.total_amount || record.status
                == EscrowStatus::Refunded
        },
        record.status == EscrowStatus::Initialized || record.status == EscrowStatus::InProgress
            ==> record.close_rejection(caller) == Some(EscrowError::InvalidStatus),
        record.wf() ==> record.close_rejection(caller) != Some(EscrowError::FundsNotReleased),
        record.close_rejection(caller) is None ==> record.wf() ==> record.held() == 0,
{
}

} // verus!
