//! The operations on a campaign's treasury.
//!
//! Each operation decides on plain values: it is given what it has to know
//! of the accounts that take part and of the time, checks the request,
//! changes the records, and says what is to be done outside, if anything.
//! A request that is rejected changes nothing.

pub mod close_deposit_escrow;
pub mod close_escrow;
pub mod create_deposit;
pub mod create_deposit_escrow;
pub mod create_escrow;
pub mod pay_out_funds;
pub mod update_escrow;
pub mod veto_payout_phase;
