//! The rejections an escrow operation can end in.

use vstd::prelude::*;

verus! {

/// Why an operation was rejected. A rejected operation changes nothing.
#[derive(Clone, Copy, Debug, PartialEq, Eq, Structural)]
pub enum EscrowError {
    /// The record is not in a status that admits the operation.
    InvalidStatus,
    /// The release would pay out more than the escrow holds in total.
    ExceedsTotalAmount,
    /// The caller is not the client recorded in the escrow.
    Unauthorized,
    /// The escrow has already paid out everything.
    AlreadyCompleted,
    /// A custody account is not owned by the party it must belong to.
    InvalidTokenAccount,
    /// Two custody accounts hold different currencies.
    MintMismatch,
    /// An amount is zero where a positive one is needed.
    InvalidAmount,
    /// The number of milestones is outside the admitted range.
    InvalidMilestoneCount,
    /// No freelancer has been assigned yet.
    FreelancerNotAssigned,
    /// Every milestone has already been released.
    ExceedsMilestoneCount,
    /// The amount is not the one scheduled for the current milestone.
    InvalidMilestoneAmount,
    /// The explicit schedule does not fit the total or the milestone count.
    InvalidMilestoneAmounts,
    /// The escrow still holds funds.
    FundsNotReleased,
}

impl EscrowError {
    /// The text that describes each rejection.
    pub open spec fn spec_message(self) -> Seq<char> {
        match self {
            EscrowError::InvalidStatus => "Invalid escrow status for this operation"@,
            EscrowError::ExceedsTotalAmount => "Amount exceeds total escrow amount"@,
            EscrowError::Unauthorized => "Unauthorized access"@,
            EscrowError::AlreadyCompleted => "Escrow already completed"@,
            EscrowError::InvalidTokenAccount => "Invalid token account"@,
            EscrowError::MintMismatch => "Token mint mismatch"@,
            EscrowError::InvalidAmount => "Invalid amount"@,
            EscrowError::InvalidMilestoneCount => "Invalid milestone count"@,
            EscrowError::FreelancerNotAssigned => "Freelancer not assigned"@,
            EscrowError::ExceedsMilestoneCount => "Exceeds milestone count"@,
            EscrowError::InvalidMilestoneAmount => "Invalid milestone amount"@,
            EscrowError::InvalidMilestoneAmounts => "Invalid milestone amounts configuration"@,
            EscrowError::FundsNotReleased => "Funds not fully released"@,
        }
    }

    /// The message reported to the caller for this rejection.
    pub fn message(&self) -> (text: String)
        ensures
            text@ == self.spec_message(),
    {
        let text: &str = match self {
            EscrowError::InvalidStatus => "Invalid escrow status for this operation",
            EscrowError::ExceedsTotalAmount => "Amount exceeds total escrow amount",
            EscrowError::Unauthorized => "Unauthorized access",
            EscrowError::AlreadyCompleted => "Escrow already completed",
            EscrowError::InvalidTokenAccount => "Invalid token account",
            EscrowError::MintMismatch => "Token mint mismatch",
            EscrowError::InvalidAmount => "Invalid amount",
            EscrowError::InvalidMilestoneCount => "Invalid milestone count",
            EscrowError::FreelancerNotAssigned => "Freelancer not assigned",
            EscrowError::ExceedsMilestoneCount => "Exceeds milestone count",
            EscrowError::InvalidMilestoneAmount => "Invalid milestone amount",
            EscrowError::InvalidMilestoneAmounts => "Invalid milestone amounts configuration",
            EscrowError::FundsNotReleased => "Funds not fully released",
        };
        text.to_owned()
    }
}

} // verus!
