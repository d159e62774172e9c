//! What each operation is handed: the record, the caller, and the custody
//! accounts between which funds are to move.
//!
//! The caller of an operation is the party whose signature the host has
//! verified on the request. Custody accounts are found by who owns them, and
//! two of them trade funds only where they hold the same currency.

use crate::address::{escrow_address, find_escrow_address, signer_seeds};
use crate::custody::{CustodyAccount, TransferView};
use crate::error::EscrowError;
use crate::identity::Identity;
use crate::record::Escrow;
use crate::schedule::schedule_rejection;
use vstd::prelude::*;

verus! {

/// The accounts of `initialize_escrow`.
#[derive(Clone, Debug, PartialEq, Eq)]
pub struct InitializeEscrow {
    /// The record at the address of the gig: empty as the host allocates it,
    /// unless an escrow lives there already.
    pub escrow: Escrow,
    /// The address of the record, derived from the gig identifier.
    pub escrow_address: Identity,
    /// The bump of that address.
    pub escrow_bump: u8,
    /// The caller, who funds the escrow.
    pub client: Identity,
    /// The custody account that the funds come from.
    pub client_token_account: CustodyAccount,
    /// The custody account in which the escrow holds the funds.
    pub escrow_token_account: CustodyAccount,
}

/// The accounts of `assign_freelancer`.
#[derive(Clone, Debug, PartialEq, Eq)]
pub struct AssignFreelancer {
    /// The record of the escrow.
    pub escrow: Escrow,
    /// The caller.
    pub client: Identity,
}

/// The accounts of `release_milestone`.
#[derive(Clone, Debug, PartialEq, Eq)]
pub struct ReleaseMilestone {
    /// The record of the escrow.
    pub escrow: Escrow,
    /// The address of the record.
    pub escrow_address: Identity,
    /// The caller.
    pub client: Identity,
    /// The custody account in which the escrow holds the funds.
    pub escrow_token_account: CustodyAccount,
    /// The custody account in which the freelancer is paid.
    pub freelancer_token_account: CustodyAccount,
}

/// The accounts of `refund_escrow`.
#[derive(Clone, Debug, PartialEq, Eq)]
pub struct RefundEscrow {
    /// The record of the escrow.
    pub escrow: Escrow,
    /// The address of the record.
    pub escrow_address: Identity,
    /// The caller.
    pub client: Identity,
    /// The custody account in which the escrow holds the funds.
    pub escrow_token_account: CustodyAccount,
    /// The custody account to which the funds go back.
    pub client_token_account: CustodyAccount,
}

/// The accounts of `close_escrow`.
#[derive(Clone, Debug, PartialEq, Eq)]
pub struct CloseEscrow {
    /// The record of the escrow.
    pub escrow: Escrow,
    /// The caller.
    pub client: Identity,
}

impl InitializeEscrow {
    /// The accounts for opening the escrow of `gig_id` under the program
    /// `program_id`: an empty record at the address derived from the gig
    /// identifier, with the bump of that address. There are none where the gig
    /// identifier admits no address.
    pub fn for_gig(
        program_id: &Identity,
        gig_id: &str,
        client: Identity,
        client_token_account: CustodyAccount,
        escrow_token_account: CustodyAccount,
    ) -> (accounts: Option<InitializeEscrow>)
        ensures
            match accounts {
                Some(ctx) => {
                    &&& escrow_address(program_id@, gig_id@) == Some(
                        (ctx.escrow_address@, ctx.escrow_bump),
                    )
                    &&& ctx.escrow@.is_vacant()
                    &&& ctx.client == client
                    &&& ctx.client_token_account == client_token_account
                    &&& ctx.escrow_token_account == escrow_token_account
                },
                None => escrow_address(program_id@, gig_id@) is None,
            },
    {
        match find_escrow_address(program_id, gig_id) {
            Some((escrow_address, escrow_bump)) => Some(
                InitializeEscrow {
                    escrow: Escrow::default(),
                    escrow_address,
                    escrow_bump,
                    client,
                    client_token_account,
                    escrow_token_account,
                },
            ),
            None => None,
        }
    }

    /// What is wrong with the custody accounts, if anything: the source must
    /// belong to the client, the escrow's account to the record, and both must
    /// hold the same currency.
    pub open spec fn custody_rejection(self) -> Option<EscrowError> {
        if self.client_token_account.owner@ != self.client@ {
            Some(EscrowError::InvalidTokenAccount)
        } else if self.escrow_token_account.owner@ != self.escrow_address@ {
            Some(EscrowError::InvalidTokenAccount)
        } else if self.escrow_token_account.mint@ != self.client_token_account.mint@ {
            Some(EscrowError::MintMismatch)
        } else {
            None
        }
    }

    /// Why the escrow may not be initialized on these terms, if so: first the
    /// terms are checked, then that no escrow lives in the record yet, then the
    /// custody accounts.
    pub open spec fn rejection(self, total: u64, count: u8, amounts: Option<Seq<u64>>) -> Option<
        EscrowError,
    > {
        match schedule_rejection(total, count, amounts) {
            Some(reason) => Some(reason),
            None => if !self.escrow@.is_vacant() {
                Some(EscrowError::InvalidStatus)
            } else {
                self.custody_rejection()
            },
        }
    }

    /// The move that funds the escrow: `total` from the client's custody into
    /// the escrow's, on the client's own signature.
    pub open spec fn deposit(self, total: u64) -> TransferView {
        TransferView {
            from: self.client_token_account.key@,
            to: self.escrow_token_account.key@,
            authority: self.client@,
            signer_seeds: Seq::empty(),
            amount: total,
        }
    }

    /// Checks the custody accounts.
    pub fn check_custody(&self) -> (checked: Result<(), EscrowError>)
        ensures
            checked == match self.custody_rejection() {
                Some(reason) => Err::<(), EscrowError>(reason),
                None => Ok(()),
            },
    {
        if !(self.client_token_account.owner == self.client) {
            Err(EscrowError::InvalidTokenAccount)
        } else if !(self.escrow_token_account.owner == self.escrow_address) {
            Err(EscrowError::InvalidTokenAccount)
        } else if !(self.escrow_token_account.mint == self.client_token_account.mint) {
            Err(EscrowError::MintMismatch)
        } else {
            Ok(())
        }
    }
}

impl ReleaseMilestone {
    /// What is wrong with the custody accounts, if anything: the escrow's
    /// account must belong to the record, the payee's to the freelancer, and
    /// both must hold the same currency.
    pub open spec fn custody_rejection(self) -> Option<EscrowError> {
        if self.escrow_token_account.owner@ != self.escrow_address@ {
            Some(EscrowError::InvalidTokenAccount)
        } else if self.escrow_token_account.mint@ != self.freelancer_token_account.mint@ {
            Some(EscrowError::MintMismatch)
        } else if self.freelancer_token_account.owner@ != self.escrow.freelancer@ {
            Some(EscrowError::InvalidTokenAccount)
        } else {
            None
        }
    }

    /// Why `amount` may not be released, if so: first the record's own
    /// conditions are tried, then the custody accounts.
    pub open spec fn rejection(self, amount: u64) -> Option<EscrowError> {
        match self.escrow@.release_rejection(self.client@, amount) {
            Some(reason) => Some(reason),
            None => self.custody_rejection(),
        }
    }

    /// The move that pays a milestone: `amount` from the escrow's custody to
    /// the freelancer's, signed by the record itself.
    pub open spec fn payout(self, amount: u64) -> TransferView {
        TransferView {
            from: self.escrow_token_account.key@,
            to: self.freelancer_token_account.key@,
            authority: self.escrow_address@,
            signer_seeds: signer_seeds(self.escrow.gig_id@, self.escrow.bump),
            amount,
        }
    }

    /// Checks the custody accounts.
    pub fn check_custody(&self) -> (checked: Result<(), EscrowError>)
        ensures
            checked == match self.custody_rejection() {
                Some(reason) => Err::<(), EscrowError>(reason),
                None => Ok(()),
            },
    {
        if !(self.escrow_token_account.owner == self.escrow_address) {
            Err(EscrowError::InvalidTokenAccount)
        } else if !(self.escrow_token_account.mint == self.freelancer_token_account.mint) {
            Err(EscrowError::MintMismatch)
        } else if !(self.freelancer_token_account.owner == self.escrow.freelancer) {
            Err(EscrowError::InvalidTokenAccount)
        } else {
            Ok(())
        }
    }
}

impl RefundEscrow {
    /// What is wrong with the custody accounts, if anything: the escrow's
    /// account must belong to the record, the other to the client, and both
    /// must hold the same currency.
    pub open spec fn custody_rejection(self) -> Option<EscrowError> {
        if self.escrow_token_account.owner@ != self.escrow_address@ {
            Some(EscrowError::InvalidTokenAccount)
        } else if self.escrow_token_account.mint@ != self.client_token_account.mint@ {
            Some(EscrowError::MintMismatch)
        } else if self.client_token_account.owner@ != self.client@ {
            Some(EscrowError::InvalidTokenAccount)
        } else {
            None
        }
    }

    /// Why the escrow may not be refunded, if so: first the record's own
    /// conditions are tried, then the custody accounts.
    pub open spec fn rejection(self) -> Option<EscrowError> {
        match self.escrow@.refund_rejection(self.client@) {
            Some(reason) => Some(reason),
            None => self.custody_rejection(),
        }
    }

    /// The move that gives back what the escrow still holds: from the escrow's
    /// custody to the client's, signed by the record itself.
    pub open spec fn repayment(self) -> TransferView {
        TransferView {
            from: self.escrow_token_account.key@,
            to: self.client_token_account.key@,
            authority: self.escrow_address@,
            signer_seeds: signer_seeds(self.escrow.gig_id@, self.escrow.bump),
            amount: self.escrow@.held() as u64,
        }
    }

    /// Checks the custody accounts.
    pub fn check_custody(&self) -> (checked: Result<(), EscrowError>)
        ensures
            checked == match self.custody_rejection() {
                Some(reason) => Err::<(), EscrowError>(reason),
                None => Ok(()),
            },
    {
        if !(self.escrow_token_account.owner == self.escrow_address) {
            Err(EscrowError::InvalidTokenAccount)
        } else if !(self.escrow_token_account.mint == self.client_token_account.mint) {
            Err(EscrowError::MintMismatch)
        } else if !(self.client_token_account.owner == self.client) {
            Err(EscrowError::InvalidTokenAccount)
        } else {
            Ok(())
        }
    }
}

} // verus!
