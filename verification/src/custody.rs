//! Custody accounts and the moves of funds between them.
//!
//! The library moves no funds itself. An operation that calls for a move hands
//! back a [`Transfer`], which the host carries out as one atomic step.

use crate::identity::Identity;
use vstd::prelude::*;

verus! {

/// A holding of funds, as far as the escrow reads it.
#[derive(Clone, Copy, Debug, PartialEq, Eq)]
pub struct CustodyAccount {
    /// Where the account lives.
    pub key: Identity,
    /// The party whose consent moves funds out of the account.
    pub owner: Identity,
    /// The currency that the account holds.
    pub mint: Identity,
}

/// A move of `amount` units from one custody account to another.
#[derive(Clone, Debug, PartialEq, Eq)]
pub struct Transfer {
    /// The account that is debited.
    pub from: Identity,
    /// The account that is credited.
    pub to: Identity,
    /// The owner of the debited account, who consents to the move.
    pub authority: Identity,
    /// The seeds by which the escrow record signs for itself. Empty where the
    /// authority has signed the request in person.
    pub signer_seeds: Vec<Vec<u8>>,
    /// How many units move.
    pub amount: u64,
}

/// The mathematical value of a [`Transfer`].
pub struct TransferView {
    pub from: Seq<u8>,
    pub to: Seq<u8>,
    pub authority: Seq<u8>,
    pub signer_seeds: Seq<Seq<u8>>,
    pub amount: u64,
}

impl View for Transfer {
    type V = TransferView;

    open spec fn view(&self) -> TransferView {
        TransferView {
            from: self.from@,
            to: self.to@,
            authority: self.authority@,
            signer_seeds: self.signer_seeds.deep_view(),
            amount: self.amount,
        }
    }
}

} // verus!
