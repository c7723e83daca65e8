//! The records that a campaign's treasury consists of.

pub mod campaign_escrow;
pub mod deposit_escrow;
pub mod deposit_record;
pub mod payout_phases;
pub mod treasury_escrow;
