//! Updating a campaign escrow.

use vstd::prelude::*;
use crate::account_info::AccountInfo;
use crate::errors::CampaignTreasuryManagerError;
use crate::pubkey::Pubkey;
use crate::state::campaign_escrow::{CampaignEscrow, Treasury};
use crate::state::payout_phases::{
    NonVotingPayoutPhaseInput, PayoutPhases, PayoutSchedule, VotingPayoutPhaseInput,
};
use crate::utils::buffer_times::BufferTimes;
use crate::utils::utils::{
    assert_campaign_end_time_is_valid, assert_keys_equal, assert_treasury_escrow_is_valid,
    assert_valid_escrow_management_signers, escrow_management_signers_rejection,
    treasury_escrow_is_valid,
};

verus! {

/// What an update sees of the accounts that take part in it, and of the
/// time.
#[derive(Debug)]
pub struct UpdateEscrow {
    pub authority: AccountInfo,
    pub creator: AccountInfo,
    /// The mint of the currency in which the treasury is to be held.
    pub treasury_mint: Pubkey,
    /// The account that holds the funds of the treasury.
    pub treasury_escrow: Pubkey,
    pub payout_wallet: Pubkey,
    pub payout_wallet_owner: Pubkey,
    /// Whether the payout wallet was found to be the token account of its
    /// owner for the currency of the treasury. Only a treasury in another
    /// currency than the native one asks for it.
    pub payout_wallet_is_ata: bool,
    /// The time of the request.
    pub now: i64,
}

/// What an update changes. What is left out stays as it is.
#[derive(Debug)]
pub struct UpdateCampaignEscrowInput {
    pub authority: Option<Pubkey>,
    pub creator: Option<Pubkey>,
    pub campaign_end_time: Option<i64>,
    /// The phases without a vote of a new schedule. The schedule is
    /// replaced exactly when they are given.
    pub non_voting_payout_phases: Option<Vec<NonVotingPayoutPhaseInput>>,
    /// The phases with a vote of a new schedule; none where they are
    /// left out.
    pub voting_payout_phases: Option<Vec<VotingPayoutPhaseInput>>,
}

impl UpdateCampaignEscrowInput {
    /// The schedule that the update asks for, if it asks for one: with no
    /// payout made and no veto cast.
    pub open spec fn schedule(&self) -> Option<PayoutSchedule> {
        match self.non_voting_payout_phases {
            Some(non_voting) => Some(
                PayoutSchedule::scheduled(
                    non_voting@,
                    match self.voting_payout_phases {
                        Some(voting) => voting@,
                        None => Seq::empty(),
                    },
                ),
            ),
            None => None,
        }
    }

    /// The campaign end time once the update was made.
    pub open spec fn end_time(&self, campaign_escrow: &CampaignEscrow) -> i64 {
        match self.campaign_end_time {
            Some(campaign_end_time) => campaign_end_time,
            None => campaign_escrow.campaign_end_time,
        }
    }
}

/// Why an update is rejected, if it is. The reasons are tried in this
/// order: the signers are not in order; the campaign has ended; the
/// treasury is not in order; the currency of the treasury is to change
/// though funds were deposited; the new campaign end time is not admitted;
/// the new schedule is not accepted for the campaign end time that will
/// hold.
pub open spec fn update_escrow_rejection(
    campaign_escrow: &CampaignEscrow,
    ctx: &UpdateEscrow,
    input: &UpdateCampaignEscrowInput,
    policy: BufferTimes,
) -> Option<CampaignTreasuryManagerError> {
    let signers = escrow_management_signers_rejection(
        &ctx.creator,
        &ctx.authority,
        Some(campaign_escrow),
    );
    if signers is Some {
        signers
    } else if ctx.now > campaign_escrow.campaign_end_time {
        Some(CampaignTreasuryManagerError::InvalidUpdateEscrow)
    } else if !treasury_escrow_is_valid(
        ctx.treasury_mint@,
        ctx.payout_wallet@,
        ctx.payout_wallet_owner@,
        ctx.payout_wallet_is_ata,
    ) {
        Some(CampaignTreasuryManagerError::InvalidTreasuryEscrow)
    } else if ctx.treasury_mint@ != campaign_escrow.treasury.treasury_mint@
        && campaign_escrow.treasury.total_funds > 0 {
        Some(CampaignTreasuryManagerError::InvalidUpdateEscrow)
    } else if input.campaign_end_time matches Some(campaign_end_time)
        && !policy.now_to_campaign_end_time.admits(ctx.now as int, campaign_end_time as int) {
        Some(CampaignTreasuryManagerError::InvalidCampaignEndTime)
    } else if input.schedule() matches Some(schedule) && !(schedule.is_within_capacity()
        && schedule.is_valid(input.end_time(campaign_escrow) as int, policy)) {
        Some(CampaignTreasuryManagerError::InvalidPayoutPhases)
    } else {
        None
    }
}

/// The treasury once the update was made: a new one without funds where
/// the currency changes, the old one where it does not.
pub open spec fn updated_treasury(
    campaign_escrow: &CampaignEscrow,
    ctx: &UpdateEscrow,
    treasury_bump: u8,
) -> Treasury {
    if ctx.treasury_mint@ != campaign_escrow.treasury.treasury_mint@ {
        Treasury {
            bump: treasury_bump,
            treasury_mint: ctx.treasury_mint,
            treasury_escrow: ctx.treasury_escrow,
            total_funds: 0,
        }
    } else {
        campaign_escrow.treasury
    }
}

/// Updates a campaign escrow, or rejects the update and changes nothing.
/// An update is possible up to the campaign end time. The currency of the
/// treasury may change as long as nothing was deposited. A new schedule
/// replaces the old one as a whole, with what that one had recorded of
/// payouts and vetoes.
pub fn handle_update_escrow(
    campaign_escrow: &mut CampaignEscrow,
    ctx: &UpdateEscrow,
    treasury_bump: u8,
    update_campaign_escrow_input: UpdateCampaignEscrowInput,
    policy: &BufferTimes,
) -> (result: Result<(), CampaignTreasuryManagerError>)
    ensures
        match result {
            Ok(()) => {
                &&& update_escrow_rejection(
                    old(campaign_escrow),
                    ctx,
                    &update_campaign_escrow_input,
                    *policy,
                ) is None
                &&& final(campaign_escrow).treasury == updated_treasury(
                    old(campaign_escrow),
                    ctx,
                    treasury_bump,
                )
                &&& final(campaign_escrow).authority == (match update_campaign_escrow_input.authority {
                    Some(authority) => authority,
                    None => old(campaign_escrow).authority,
                })
                &&& final(campaign_escrow).creator == (match update_campaign_escrow_input.creator {
                    Some(creator) => creator,
                    None => old(campaign_escrow).creator,
                })
                &&& final(campaign_escrow).campaign_end_time == update_campaign_escrow_input.end_time(
                    old(campaign_escrow),
                )
                &&& match update_campaign_escrow_input.schedule() {
                    Some(schedule) => final(campaign_escrow).payout_phases@ == schedule,
                    None => final(campaign_escrow).payout_phases == old(campaign_escrow).payout_phases,
                }
                &&& final(campaign_escrow).bump == old(campaign_escrow).bump
                &&& final(campaign_escrow).campaign_uuid == old(campaign_escrow).campaign_uuid
                &&& final(campaign_escrow).payout_wallet == old(campaign_escrow).payout_wallet
                &&& final(campaign_escrow).deposit_escrow_infos == old(
                    campaign_escrow,
                ).deposit_escrow_infos
                &&& final(campaign_escrow).deposit_count == old(campaign_escrow).deposit_count
                &&& final(campaign_escrow).processed_deposit_count == old(
                    campaign_escrow,
                ).processed_deposit_count
                &&& final(campaign_escrow).closed_deposit_record_count == old(
                    campaign_escrow,
                ).closed_deposit_record_count
                &&& final(campaign_escrow).payouts_ready == old(campaign_escrow).payouts_ready
                &&& final(campaign_escrow).treasury.total_funds == old(
                    campaign_escrow,
                ).treasury.total_funds
                &&& old(campaign_escrow).well_formed() ==> final(campaign_escrow).well_formed()
            },
            Err(error) => {
                &&& update_escrow_rejection(
                    old(campaign_escrow),
                    ctx,
                    &update_campaign_escrow_input,
                    *policy,
                ) == Some(error)
                &&& *final(campaign_escrow) == *old(campaign_escrow)
            },
        },
{
    assert_valid_escrow_management_signers(&ctx.creator, &ctx.authority, Some(campaign_escrow))?;

    if ctx.now > campaign_escrow.campaign_end_time {
        return Err(CampaignTreasuryManagerError::InvalidUpdateEscrow);
    }
    let UpdateCampaignEscrowInput {
        authority,
        creator,
        campaign_end_time,
        non_voting_payout_phases,
        voting_payout_phases,
    } = update_campaign_escrow_input;

    assert_treasury_escrow_is_valid(
        &ctx.treasury_mint,
        &ctx.payout_wallet,
        &ctx.payout_wallet_owner,
        ctx.payout_wallet_is_ata,
    )?;

    let current_deposits = campaign_escrow.treasury.total_funds;
    let treasury_mint_changed = assert_keys_equal(
        &ctx.treasury_mint,
        &campaign_escrow.treasury.treasury_mint,
        None,
    ).is_err();
    if treasury_mint_changed && current_deposits > 0 {
        return Err(CampaignTreasuryManagerError::InvalidUpdateEscrow);
    }
    let new_campaign_end_time = match campaign_end_time {
        Some(campaign_end_time) => {
            assert_campaign_end_time_is_valid(ctx.now, campaign_end_time, policy)?;
            campaign_end_time
        },
        None => campaign_escrow.campaign_end_time,
    };

    let new_payout_phases = match non_voting_payout_phases {
        Some(non_voting_payout_phases) => {
            let voting_payout_phases = match voting_payout_phases {
                Some(voting_payout_phases) => voting_payout_phases,
                None => Vec::new(),
            };
            Some(
                PayoutPhases::new(
                    non_voting_payout_phases,
                    voting_payout_phases,
                    new_campaign_end_time,
                    policy,
                )?,
            )
        },
        None => None,
    };

    if treasury_mint_changed {
        campaign_escrow.treasury =
        Treasury {
            bump: treasury_bump,
            treasury_mint: ctx.treasury_mint,
            treasury_escrow: ctx.treasury_escrow,
            total_funds: 0,
        };
    }
    if let Some(authority) = authority {
        campaign_escrow.authority = authority;
    }
    if let Some(creator) = creator {
        campaign_escrow.creator = creator;
    }
    campaign_escrow.campaign_end_time = new_campaign_end_time;
    if let Some(payout_phases) = new_payout_phases {
        campaign_escrow.payout_phases = payout_phases;
    }
    Ok(())
}

} // verus!
