//! The record of one deposit.

use vstd::prelude::*;
use crate::pubkey::Pubkey;

verus! {

/// The record of the deposit that one supporter made for one item. It is
/// kept apart from the campaign escrow and found by the depositor and the
/// item.
#[derive(Clone, Copy, Debug, PartialEq, Eq)]
pub struct DepositRecord {
    /// The bump of the record's address.
    pub bump: u8,
    /// The mint of the item that the deposit paid for.
    pub mint: Pubkey,
    /// The supporter who made the deposit.
    pub depositor: Pubkey,
    /// The mint of the currency of the deposit.
    pub deposit_escrow_mint: Pubkey,
    /// The amount deposited, in the currency of the deposit.
    pub initial_deposit_amount: u64,
    /// The amount that reached the treasury, in the treasury's currency.
    pub processed_deposit_amount: u64,
    /// Whether the deposit has reached the treasury.
    pub deposit_processed: bool,
}

impl DepositRecord {
    /// The seed prefix of the record's address.
    pub const PREFIX: &'static str = "deposit_record";
}

} // verus!
