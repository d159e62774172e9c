//! Milestone escrow: a verified state machine that holds a client's funds,
//! releases them to a freelancer milestone by milestone, and refunds what is
//! left on cancellation.
//!
//! The library decides; it moves no funds and keeps no storage. Each operation
//! takes the record and the accounts it is about, checks the request against
//! them, changes the record, and hands back the transfer of funds that goes
//! with the change. The host applies both together or neither.

pub mod accounts;
pub mod address;
pub mod custody;
pub mod error;
pub mod identity;
pub mod instructions;
pub mod laws;
pub mod record;
pub mod schedule;

pub use crate::accounts::{
    AssignFreelancer, CloseEscrow, InitializeEscrow, RefundEscrow, ReleaseMilestone,
};
pub use crate::custody::{CustodyAccount, Transfer};
pub use crate::error::EscrowError;
pub use crate::identity::Identity;
pub use crate::instructions::{
    assign_freelancer, close_escrow, initialize_escrow, refund_escrow, release_milestone,
};
pub use crate::record::{Escrow, EscrowStatus};
