//! The escrow record and the rules by which it changes.
//!
//! The rules are stated on [`EscrowView`], the mathematical value of a record.
//! For each operation there is the first reason for which it is refused, if
//! any, and the record it leaves behind where it is not.

use crate::error::EscrowError;
use crate::identity::{unset_key, Identity};
use crate::schedule::{
    check_explicit_schedule, milestone_amount, paid_through, valid_schedule, MAX_MILESTONES,
};
use vstd::prelude::*;
use vstd::utf8::encode_utf8;

verus! {

/// Largest length of a gig identifier, in bytes.
pub const MAX_GIG_ID_LEN: usize = 50;

/// Where an escrow stands in its life.
#[derive(Clone, Copy, Debug, PartialEq, Eq, Structural)]
pub enum EscrowStatus {
    /// Funded, no freelancer assigned yet.
    Initialized,
    /// A freelancer is assigned and milestones are being released.
    InProgress,
    /// Everything has been paid out. Final.
    Completed,
    /// Cancelled, and what was left has gone back to the client. Final.
    Refunded,
}

/// The record of one escrow.
#[derive(Clone, Debug, PartialEq, Eq)]
pub struct Escrow {
    /// The party that funded the escrow.
    pub client: Identity,
    /// The party that is paid; the unset key until one is assigned.
    pub freelancer: Identity,
    /// The job this escrow belongs to.
    pub gig_id: String,
    /// What the client committed in total.
    pub total_amount: u64,
    /// What has been released so far.
    pub paid_amount: u64,
    /// Into how many milestones the total is cut.
    pub milestone_count: u8,
    /// The milestone that is released next, counted from zero.
    pub current_milestone: u8,
    /// Where the escrow stands.
    pub status: EscrowStatus,
    /// The last seed of the record's address, by which the record signs.
    pub bump: u8,
    /// The explicit schedule, or nothing for the equal split.
    pub milestone_amounts: Vec<u64>,
}

/// The mathematical value of an [`Escrow`].
pub struct EscrowView {
    pub client: Seq<u8>,
    pub freelancer: Seq<u8>,
    pub gig_id: Seq<char>,
    pub total_amount: u64,
    pub paid_amount: u64,
    pub milestone_count: u8,
    pub current_milestone: u8,
    pub status: EscrowStatus,
    pub bump: u8,
    pub milestone_amounts: Seq<u64>,
}

impl View for Escrow {
    type V = EscrowView;

    open spec fn view(&self) -> EscrowView {
        EscrowView {
            client: self.client@,
            freelancer: self.freelancer@,
            gig_id: self.gig_id@,
            total_amount: self.total_amount,
            paid_amount: self.paid_amount,
            milestone_count: self.milestone_count,
            current_milestone: self.current_milestone,
            status: self.status,
            bump: self.bump,
            milestone_amounts: self.milestone_amounts@,
        }
    }
}

/// A request made of an existing escrow, as far as the record decides on it.
pub enum Operation {
    /// `caller` asks to have `freelancer` assigned.
    Assign { caller: Seq<u8>, freelancer: Seq<u8> },
    /// `caller` asks to have `amount` released for the current milestone.
    Release { caller: Seq<u8>, amount: u64 },
    /// `caller` asks for the refund.
    Refund { caller: Seq<u8> },
}

impl EscrowView {
    /// What every record satisfies from its initialization on: a positive
    /// total, a valid schedule, no more paid than committed, no more
    /// milestones released than there are, and everything paid once the
    /// status is `Completed`.
    pub open spec fn wf(self) -> bool {
        &&& valid_schedule(self.total_amount, self.milestone_count, self.milestone_amounts)
        &&& self.paid_amount <= self.total_amount
        &&& self.current_milestone <= self.milestone_count
        &&& (self.status == EscrowStatus::Completed ==> self.paid_amount == self.total_amount)
        &&& encode_utf8(self.gig_id).len() <= MAX_GIG_ID_LEN
    }

    /// Whether the record is the empty one, in which no escrow has been
    /// initialized yet.
    pub open spec fn is_vacant(self) -> bool {
        self == vacant()
    }

    /// The amount scheduled for milestone `index`.
    pub open spec fn scheduled(self, index: int) -> int {
        milestone_amount(self.total_amount, self.milestone_count, self.milestone_amounts, index)
    }

    /// What the first `done` milestones pay out together.
    pub open spec fn scheduled_through(self, done: nat) -> int {
        paid_through(self.total_amount, self.milestone_count, self.milestone_amounts, done)
    }

    /// The books are exact: what has been paid is what the released milestones
    /// were scheduled to pay, the status is `Completed` exactly when everything
    /// has been paid, and nothing is released before a freelancer is assigned.
    pub open spec fn on_schedule(self) -> bool {
        &&& self.paid_amount == self.scheduled_through(self.current_milestone as nat)
        &&& (self.status == EscrowStatus::Completed <==> self.paid_amount == self.total_amount)
        &&& (self.status == EscrowStatus::Initialized ==> self.current_milestone == 0)
    }

    /// The funds that the escrow holds in custody for this record: what has not
    /// been paid out, until the refund, and nothing after it.
    pub open spec fn held(self) -> int {
        if self.status == EscrowStatus::Refunded {
            0
        } else {
            self.total_amount - self.paid_amount
        }
    }

    /// Why `caller` may not assign a freelancer, if so.
    pub open spec fn assign_rejection(self, caller: Seq<u8>) -> Option<EscrowError> {
        if self.status != EscrowStatus::Initialized {
            Some(EscrowError::InvalidStatus)
        } else if caller != self.client {
            Some(EscrowError::Unauthorized)
        } else {
            None
        }
    }

    /// The record after `freelancer` has been assigned.
    pub open spec fn assigned(self, freelancer: Seq<u8>) -> EscrowView {
        EscrowView { freelancer, status: EscrowStatus::InProgress, ..self }
    }

    /// Why `caller` may not release `amount` for the current milestone, if so.
    /// The conditions are tried in this order, and the first that fails decides.
    pub open spec fn release_rejection(self, caller: Seq<u8>, amount: u64) -> Option<EscrowError> {
        if self.status != EscrowStatus::InProgress {
            Some(EscrowError::InvalidStatus)
        } else if self.freelancer == unset_key() {
            Some(EscrowError::FreelancerNotAssigned)
        } else if amount == 0 {
            Some(EscrowError::InvalidAmount)
        } else if self.paid_amount + amount > self.total_amount {
            Some(EscrowError::ExceedsTotalAmount)
        } else if self.current_milestone >= self.milestone_count {
            Some(EscrowError::ExceedsMilestoneCount)
        } else if amount != self.scheduled(self.current_milestone as int) {
            Some(EscrowError::InvalidMilestoneAmount)
        } else if caller != self.client {
            Some(EscrowError::Unauthorized)
        } else {
            None
        }
    }

    /// The record after `amount` has been released for the current milestone.
    pub open spec fn released(self, amount: u64) -> EscrowView {
        EscrowView {
            paid_amount: (self.paid_amount + amount) as u64,
            current_milestone: (self.current_milestone + 1) as u8,
            status: if self.paid_amount + amount == self.total_amount {
                EscrowStatus::Completed
            } else {
                self.status
            },
            ..self
        }
    }

    /// Why `caller` may not have the escrow refunded, if so.
    pub open spec fn refund_rejection(self, caller: Seq<u8>) -> Option<EscrowError> {
        if caller != self.client {
            Some(EscrowError::Unauthorized)
        } else if self.status == EscrowStatus::Completed {
            Some(EscrowError::AlreadyCompleted)
        } else {
            None
        }
    }

    /// The record after the refund.
    pub open spec fn refunded(self) -> EscrowView {
        EscrowView { status: EscrowStatus::Refunded, ..self }
    }

    /// Why the record refuses the request, if it does.
    pub open spec fn rejection(self, request: Operation) -> Option<EscrowError> {
        match request {
            Operation::Assign { caller, freelancer } => self.assign_rejection(caller),
            Operation::Release { caller, amount } => self.release_rejection(caller, amount),
            Operation::Refund { caller } => self.refund_rejection(caller),
        }
    }

    /// The record after the request: changed as the request asks where the
    /// record admits it, and as it was where the request is rejected.
    pub open spec fn after(self, request: Operation) -> EscrowView {
        if self.rejection(request) is Some {
            self
        } else {
            match request {
                Operation::Assign { caller, freelancer } => self.assigned(freelancer),
                Operation::Release { caller, amount } => self.released(amount),
                Operation::Refund { caller } => self.refunded(),
            }
        }
    }

    /// The record after a run of requests, made one after the other.
    pub open spec fn after_all(self, requests: Seq<Operation>) -> EscrowView
        decreases requests.len(),
    {
        if requests.len() == 0 {
            self
        } else {
            self.after_all(requests.drop_last()).after(requests.last())
        }
    }

    /// Why `caller` may not close the record, if so.
    pub open spec fn close_rejection(self, caller: Seq<u8>) -> Option<EscrowError> {
        if self.status != EscrowStatus::Completed && self.status != EscrowStatus::Refunded {
            Some(EscrowError::InvalidStatus)
        } else if caller != self.client {
            Some(EscrowError::Unauthorized)
        } else if self.paid_amount != self.total_amount && self.status != EscrowStatus::Refunded {
            Some(EscrowError::FundsNotReleased)
        } else {
            None
        }
    }
}

/// The record that a new escrow starts with.
pub open spec fn opened(
    client: Seq<u8>,
    gig_id: Seq<char>,
    total_amount: u64,
    milestone_count: u8,
    milestone_amounts: Seq<u64>,
    bump: u8,
) -> EscrowView {
    EscrowView {
        client,
        freelancer: unset_key(),
        gig_id,
        total_amount,
        paid_amount: 0,
        milestone_count,
        current_milestone: 0,
        status: EscrowStatus::Initialized,
        bump,
        milestone_amounts,
    }
}

/// The empty record, as the host allocates it.
pub open spec fn vacant() -> EscrowView {
    opened(unset_key(), Seq::empty(), 0, 0, Seq::empty(), 0)
}

impl Escrow {
    /// Decides whether the record is the empty one.
    pub fn is_vacant(&self) -> (empty: bool)
        ensures
            empty == self@.is_vacant(),
    {
        let unset = Identity::default();
        let empty = self.client == unset && self.freelancer == unset
            && self.gig_id.as_str().is_empty() && self.total_amount == 0 && self.paid_amount == 0
            && self.milestone_count == 0 && self.current_milestone == 0 && self.status
            == EscrowStatus::Initialized && self.bump == 0 && self.milestone_amounts.len() == 0;
        proof {
            if empty {
                assert(self@.client =~= vacant().client);
                assert(self@.freelancer =~= vacant().freelancer);
                assert(self@.gig_id =~= vacant().gig_id);
                assert(self@.milestone_amounts =~= vacant().milestone_amounts);
            }
        }
        empty
    }

    /// Decides whether the record is well-formed.
    pub fn is_well_formed(&self) -> (ok: bool)
        ensures
            ok == self@.wf(),
    {
        if self.total_amount == 0 || self.milestone_count == 0 || self.milestone_count
            > MAX_MILESTONES {
            return false;
        }
        if self.milestone_amounts.len() > 0 && !check_explicit_schedule(
            self.total_amount,
            self.milestone_count,
            &self.milestone_amounts,
        ) {
            return false;
        }
        if self.status == EscrowStatus::Completed && self.paid_amount != self.total_amount {
            return false;
        }
        self.paid_amount <= self.total_amount && self.current_milestone <= self.milestone_count
            && self.gig_id.as_str().as_bytes().len() <= MAX_GIG_ID_LEN
    }
}

impl Default for Escrow {
    /// The empty record, as it is before an escrow is initialized in it.
    fn default() -> (record: Escrow)
        ensures
            record@ == vacant(),
    {
        Escrow {
            client: Identity::default(),
            freelancer: Identity::default(),
            gig_id: String::new(),
            total_amount: 0,
            paid_amount: 0,
            milestone_count: 0,
            current_milestone: 0,
            status: EscrowStatus::Initialized,
            bump: 0,
            milestone_amounts: Vec::new(),
        }
    }
}

} // verus!
