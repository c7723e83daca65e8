//! Creating a campaign escrow.

use vstd::prelude::*;
use crate::account_info::AccountInfo;
use crate::errors::CampaignTreasuryManagerError;
use crate::pubkey::Pubkey;
use crate::state::campaign_escrow::{CampaignEscrow, DepositEscrowInfo, Treasury};
use crate::state::payout_phases::{
    NonVotingPayoutPhaseInput, PayoutPhases, PayoutSchedule, VotingPayoutPhaseInput,
};
use crate::utils::buffer_times::BufferTimes;
use crate::utils::utils::{
    assert_campaign_end_time_is_valid, assert_treasury_escrow_is_valid,
    assert_valid_escrow_management_signers, escrow_management_signers_rejection,
    treasury_escrow_is_valid,
};

verus! {

/// What the creation of a campaign escrow sees of the accounts that take
/// part in it, and of the time.
#[derive(Debug)]
pub struct CreateEscrow {
    /// The bump of the address of the campaign escrow.
    pub bump: u8,
    pub authority: AccountInfo,
    pub creator: AccountInfo,
    /// The mint of the currency in which the treasury is held.
    pub treasury_mint: Pubkey,
    /// The account that holds the funds of the treasury.
    pub treasury_escrow: Pubkey,
    pub payout_wallet: Pubkey,
    pub payout_wallet_owner: Pubkey,
    /// Whether the payout wallet was found to be the token account of its
    /// owner for the currency of the treasury. Only a treasury in another
    /// currency than the native one asks for it.
    pub payout_wallet_is_ata: bool,
    /// The time of the request.
    pub now: i64,
}

/// What describes a new campaign.
#[derive(Debug)]
pub struct CreateCampaignEscrowInput {
    pub campaign_end_time: i64,
    pub non_voting_payout_phases: Vec<NonVotingPayoutPhaseInput>,
    pub voting_payout_phases: Vec<VotingPayoutPhaseInput>,
}

impl CreateCampaignEscrowInput {
    /// The schedule described, with no payout made and no veto cast.
    pub open spec fn schedule(&self) -> PayoutSchedule {
        PayoutSchedule::scheduled(self.non_voting_payout_phases@, self.voting_payout_phases@)
    }
}

/// Why the creation of a campaign escrow is rejected, if it is. The
/// reasons are tried in this order: neither the creator nor the authority
/// signed; the treasury is not in order; the campaign end time is not
/// admitted; the schedule is not accepted.
pub open spec fn create_escrow_rejection(
    ctx: &CreateEscrow,
    input: &CreateCampaignEscrowInput,
    policy: BufferTimes,
) -> Option<CampaignTreasuryManagerError> {
    let signers = escrow_management_signers_rejection(&ctx.creator, &ctx.authority, None);
    if signers is Some {
        signers
    } else if !treasury_escrow_is_valid(
        ctx.treasury_mint@,
        ctx.payout_wallet@,
        ctx.payout_wallet_owner@,
        ctx.payout_wallet_is_ata,
    ) {
        Some(CampaignTreasuryManagerError::InvalidTreasuryEscrow)
    } else if !policy.now_to_campaign_end_time.admits(ctx.now as int, input.campaign_end_time as int) {
        Some(CampaignTreasuryManagerError::InvalidCampaignEndTime)
    } else if !(input.schedule().is_within_capacity() && input.schedule().is_valid(
        input.campaign_end_time as int,
        policy,
    )) {
        Some(CampaignTreasuryManagerError::InvalidPayoutPhases)
    } else {
        None
    }
}

/// Creates the escrow of a campaign: with the given governors, payout
/// wallet, campaign end time and schedule, a treasury without funds, no
/// deposit escrow, every counter at zero, and payouts not declared ready.
pub fn handle_create_escrow(
    ctx: &CreateEscrow,
    campaign_uuid: String,
    treasury_bump: u8,
    create_campaign_escrow_input: CreateCampaignEscrowInput,
    policy: &BufferTimes,
) -> (result: Result<CampaignEscrow, CampaignTreasuryManagerError>)
    ensures
        match result {
            Ok(campaign_escrow) => {
                &&& create_escrow_rejection(ctx, &create_campaign_escrow_input, *policy) is None
                &&& campaign_escrow.bump == ctx.bump
                &&& campaign_escrow.campaign_uuid == campaign_uuid
                &&& campaign_escrow.authority == ctx.authority.key
                &&& campaign_escrow.creator == ctx.creator.key
                &&& campaign_escrow.payout_wallet == ctx.payout_wallet
                &&& campaign_escrow.treasury == (Treasury {
                    bump: treasury_bump,
                    treasury_mint: ctx.treasury_mint,
                    treasury_escrow: ctx.treasury_escrow,
                    total_funds: 0,
                })
                &&& campaign_escrow.deposit_escrow_infos@ == Seq::<DepositEscrowInfo>::empty()
                &&& campaign_escrow.campaign_end_time == create_campaign_escrow_input.campaign_end_time
                &&& campaign_escrow.deposit_count == 0
                &&& campaign_escrow.processed_deposit_count == 0
                &&& campaign_escrow.closed_deposit_record_count == 0
                &&& !campaign_escrow.payouts_ready
                &&& campaign_escrow.payout_phases@ == create_campaign_escrow_input.schedule()
                &&& campaign_escrow.well_formed()
            },
            Err(error) => create_escrow_rejection(ctx, &create_campaign_escrow_input, *policy) == Some(
                error,
            ),
        },
{
    assert_valid_escrow_management_signers(&ctx.creator, &ctx.authority, None)?;

    assert_treasury_escrow_is_valid(
        &ctx.treasury_mint,
        &ctx.payout_wallet,
        &ctx.payout_wallet_owner,
        ctx.payout_wallet_is_ata,
    )?;

    assert_campaign_end_time_is_valid(
        ctx.now,
        create_campaign_escrow_input.campaign_end_time,
        policy,
    )?;

    let campaign_end_time = create_campaign_escrow_input.campaign_end_time;
    let payout_phases = PayoutPhases::new(
        create_campaign_escrow_input.non_voting_payout_phases,
        create_campaign_escrow_input.voting_payout_phases,
        campaign_end_time,
        policy,
    )?;

    Ok(
        CampaignEscrow {
            bump: ctx.bump,
            campaign_uuid,
            authority: ctx.authority.key,
            creator: ctx.creator.key,
            payout_wallet: ctx.payout_wallet,
            treasury: Treasury {
                bump: treasury_bump,
                treasury_mint: ctx.treasury_mint,
                treasury_escrow: ctx.treasury_escrow,
                total_funds: 0,
            },
            deposit_escrow_infos: Vec::new(),
            campaign_end_time,
            deposit_count: 0,
            processed_deposit_count: 0,
            closed_deposit_record_count: 0,
            payouts_ready: false,
            payout_phases,
        },
    )
}

} // verus!
