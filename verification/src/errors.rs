//! The reasons for which an operation on a campaign's treasury is rejected.

use vstd::prelude::*;

verus! {

/// Why an operation was rejected. A rejected operation leaves every record
/// as it found it.
#[derive(Clone, Copy, Debug, PartialEq, Eq, Structural)]
pub enum CampaignTreasuryManagerError {
    /// Two keys that had to be the same differ.
    PublicKeyMismatch,
    /// An account is owned by another program than the expected one.
    IncorrectOwner,
    /// An account holds no initialised data.
    UninitializedAccount,
    /// Neither the creator nor the authority signed.
    MissingSigner,
    /// The creator given is not the one the campaign escrow records.
    CreatorMismatch,
    /// The authority given is not the one the campaign escrow records.
    AuthorityMismatch,
    /// The payout schedule breaks a rule on its indices, shares or times.
    InvalidPayoutPhases,
    /// The campaign escrow may not be updated in this way, or any more.
    InvalidUpdateEscrow,
    /// The campaign escrow cannot be closed yet.
    InvalidCloseEscrow,
    /// The treasury escrow account given is not the expected one.
    InvalidTreasuryEscrow,
    /// A treasury update lacks the treasury escrow owner or the treasury mint.
    InvalidTreasuryEscrowUpdate,
    /// The campaign end time is too close or too far away.
    InvalidCampaignEndTime,
    /// The native mint cannot be the mint of a deposit escrow.
    InvalidDepositEscrowMint,
    /// The deposit escrow account given is not the expected one.
    InvalidDepositEscrowAccount,
    /// The caller is not one of the programs that may create deposits.
    InvalidCpiInvocation,
    /// A deposit escrow was asked for the treasury's own currency.
    InvalidCreateDepositEscrowIx,
    /// No payout is due, or the one that is due was vetoed.
    InvalidPayoutRequest,
    /// A deposit escrow still holds funds.
    DepositEscrowAccountNotEmpty,
}

/// The number of the first error; the others follow it in the order of
/// their declaration.
pub const FIRST_ERROR_NUMBER: u32 = 3000;

impl CampaignTreasuryManagerError {
    /// The position of the error in the declaration, from zero.
    pub open spec fn ordinal(self) -> int {
        match self {
            CampaignTreasuryManagerError::PublicKeyMismatch => 0,
            CampaignTreasuryManagerError::IncorrectOwner => 1,
            CampaignTreasuryManagerError::UninitializedAccount => 2,
            CampaignTreasuryManagerError::MissingSigner => 3,
            CampaignTreasuryManagerError::CreatorMismatch => 4,
            CampaignTreasuryManagerError::AuthorityMismatch => 5,
            CampaignTreasuryManagerError::InvalidPayoutPhases => 6,
            CampaignTreasuryManagerError::InvalidUpdateEscrow => 7,
            CampaignTreasuryManagerError::InvalidCloseEscrow => 8,
            CampaignTreasuryManagerError::InvalidTreasuryEscrow => 9,
            CampaignTreasuryManagerError::InvalidTreasuryEscrowUpdate => 10,
            CampaignTreasuryManagerError::InvalidCampaignEndTime => 11,
            CampaignTreasuryManagerError::InvalidDepositEscrowMint => 12,
            CampaignTreasuryManagerError::InvalidDepositEscrowAccount => 13,
            CampaignTreasuryManagerError::InvalidCpiInvocation => 14,
            CampaignTreasuryManagerError::InvalidCreateDepositEscrowIx => 15,
            CampaignTreasuryManagerError::InvalidPayoutRequest => 16,
            CampaignTreasuryManagerError::DepositEscrowAccountNotEmpty => 17,
        }
    }

    /// The number under which the error is reported.
    pub fn error_number(self) -> (number: u32)
        ensures
            number == FIRST_ERROR_NUMBER + self.ordinal(),
    {
        let offset: u32 = match self {
            CampaignTreasuryManagerError::PublicKeyMismatch => 0,
            CampaignTreasuryManagerError::IncorrectOwner => 1,
            CampaignTreasuryManagerError::UninitializedAccount => 2,
            CampaignTreasuryManagerError::MissingSigner => 3,
            CampaignTreasuryManagerError::CreatorMismatch => 4,
            CampaignTreasuryManagerError::AuthorityMismatch => 5,
            CampaignTreasuryManagerError::InvalidPayoutPhases => 6,
            CampaignTreasuryManagerError::InvalidUpdateEscrow => 7,
            CampaignTreasuryManagerError::InvalidCloseEscrow => 8,
            CampaignTreasuryManagerError::InvalidTreasuryEscrow => 9,
            CampaignTreasuryManagerError::InvalidTreasuryEscrowUpdate => 10,
            CampaignTreasuryManagerError::InvalidCampaignEndTime => 11,
            CampaignTreasuryManagerError::InvalidDepositEscrowMint => 12,
            CampaignTreasuryManagerError::InvalidDepositEscrowAccount => 13,
            CampaignTreasuryManagerError::InvalidCpiInvocation => 14,
            CampaignTreasuryManagerError::InvalidCreateDepositEscrowIx => 15,
            CampaignTreasuryManagerError::InvalidPayoutRequest => 16,
            CampaignTreasuryManagerError::DepositEscrowAccountNotEmpty => 17,
        };
        FIRST_ERROR_NUMBER + offset
    }

    /// The diagnostic shown with the error.
    pub fn message(self) -> (text: &'static str)
        ensures
            text@ == self.spec_message()@,
    {
        match self {
            CampaignTreasuryManagerError::PublicKeyMismatch => "PublicKey check failed",
            CampaignTreasuryManagerError::IncorrectOwner => "An account owner was incorrect",
            CampaignTreasuryManagerError::UninitializedAccount => "An account was uninitialized",
            CampaignTreasuryManagerError::MissingSigner =>
                "You are missing at least one required signer",
            CampaignTreasuryManagerError::CreatorMismatch =>
                "Provided creator does not match the CampaignEscrow creator",
            CampaignTreasuryManagerError::AuthorityMismatch =>
                "Provided authority does not match the CampaignEscrow authority",
            CampaignTreasuryManagerError::InvalidPayoutPhases =>
                "Payout phase settings are invalid",
            CampaignTreasuryManagerError::InvalidUpdateEscrow =>
                "Cannot update CampaignEscrow after the campaign end time",
            CampaignTreasuryManagerError::InvalidCloseEscrow =>
                "Cannot close CampaignEscrow unless all payouts are complete",
            CampaignTreasuryManagerError::InvalidTreasuryEscrow =>
                "Invalid treasury escrow account provided",
            CampaignTreasuryManagerError::InvalidTreasuryEscrowUpdate =>
                "UpdateEscrow input must include both the treasury_escrow_owner and treasury_mint if updating the escrow treasury",
            CampaignTreasuryManagerError::InvalidCampaignEndTime =>
                "Invalid campaign_end_time provided",
            CampaignTreasuryManagerError::InvalidDepositEscrowMint =>
                "Deposit escrow mint cannot be the native mint",
            CampaignTreasuryManagerError::InvalidDepositEscrowAccount =>
                "Invalid deposit escrow account provided",
            CampaignTreasuryManagerError::InvalidCpiInvocation => "Invalid CPI invocation",
            CampaignTreasuryManagerError::InvalidCreateDepositEscrowIx =>
                "Invalid CreateDepositEscrow instruction",
            CampaignTreasuryManagerError::InvalidPayoutRequest => "Invalid payout request",
            CampaignTreasuryManagerError::DepositEscrowAccountNotEmpty =>
                "Deposit escrow account must be empty before it can be closed",
        }
    }

    /// The diagnostic of each error, for use in contracts.
    pub open spec fn spec_message(self) -> &'static str {
        match self {
            CampaignTreasuryManagerError::PublicKeyMismatch => "PublicKey check failed",
            CampaignTreasuryManagerError::IncorrectOwner => "An account owner was incorrect",
            CampaignTreasuryManagerError::UninitializedAccount => "An account was uninitialized",
            CampaignTreasuryManagerError::MissingSigner =>
                "You are missing at least one required signer",
            CampaignTreasuryManagerError::CreatorMismatch =>
                "Provided creator does not match the CampaignEscrow creator",
            CampaignTreasuryManagerError::AuthorityMismatch =>
                "Provided authority does not match the CampaignEscrow authority",
            CampaignTreasuryManagerError::InvalidPayoutPhases =>
                "Payout phase settings are invalid",
            CampaignTreasuryManagerError::InvalidUpdateEscrow =>
                "Cannot update CampaignEscrow after the campaign end time",
            CampaignTreasuryManagerError::InvalidCloseEscrow =>
                "Cannot close CampaignEscrow unless all payouts are complete",
            CampaignTreasuryManagerError::InvalidTreasuryEscrow =>
                "Invalid treasury escrow account provided",
            CampaignTreasuryManagerError::InvalidTreasuryEscrowUpdate =>
                "UpdateEscrow input must include both the treasury_escrow_owner and treasury_mint if updating the escrow treasury",
            CampaignTreasuryManagerError::InvalidCampaignEndTime =>
                "Invalid campaign_end_time provided",
            CampaignTreasuryManagerError::InvalidDepositEscrowMint =>
                "Deposit escrow mint cannot be the native mint",
            CampaignTreasuryManagerError::InvalidDepositEscrowAccount =>
                "Invalid deposit escrow account provided",
            CampaignTreasuryManagerError::InvalidCpiInvocation => "Invalid CPI invocation",
            CampaignTreasuryManagerError::InvalidCreateDepositEscrowIx =>
                "Invalid CreateDepositEscrow instruction",
            CampaignTreasuryManagerError::InvalidPayoutRequest => "Invalid payout request",
            CampaignTreasuryManagerError::DepositEscrowAccountNotEmpty =>
                "Deposit escrow account must be empty before it can be closed",
        }
    }
}

} // verus!
