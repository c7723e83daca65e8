//! Treasury management for crowdfunding campaigns.
//!
//! A campaign takes deposits in one or more currencies, gathers them in a
//! treasury, and pays the treasury out to a payout wallet over a schedule of
//! phases. Each phase has its time, and the authority of the campaign may
//! veto it. Deposits in another currency than the treasury's wait in an
//! escrow of their own until they are converted.
//!
//! - [`utils::buffer_times`] holds the policy: the durations that must lie
//!   between the key timestamps of a campaign.
//! - [`state::payout_phases`] holds the payout schedule: its order, its
//!   validity, the phase whose payout comes next, payouts and vetoes.
//! - [`state::campaign_escrow`] holds the record of a campaign, with its
//!   treasury, its deposit escrows and its counters.
//! - [`instructions`] holds the operations: each checks a request against
//!   the records and the time, changes the records, and says what is to be
//!   done outside. A request that is rejected changes nothing.
//! - [`utils::utils`] holds the checks that the operations share.
//!
//! The library decides on plain values. Reading accounts and the clock,
//! moving funds and storing the records is left to the program around it.

pub mod account_info;
pub mod constants;
pub mod errors;
pub mod instructions;
pub mod pubkey;
pub mod state;
pub mod utils;
