//! Vetoing a phase of the schedule.

use vstd::prelude::*;
use crate::account_info::AccountInfo;
use crate::errors::CampaignTreasuryManagerError;
use crate::state::campaign_escrow::CampaignEscrow;
use crate::utils::utils::assert_keys_equal;

verus! {

/// What a veto sees of the accounts that take part in it.
#[derive(Debug)]
pub struct VetoPayoutPhase {
    /// Who casts the veto.
    pub authority: AccountInfo,
}

/// Why a veto is rejected, if it is: the authority did not sign, or it is
/// not the authority of the campaign.
pub open spec fn veto_payout_phase_rejection(
    campaign_escrow: &CampaignEscrow,
    ctx: &VetoPayoutPhase,
) -> Option<CampaignTreasuryManagerError> {
    if !ctx.authority.is_signer {
        Some(CampaignTreasuryManagerError::MissingSigner)
    } else if ctx.authority.key@ != campaign_escrow.authority@ {
        Some(CampaignTreasuryManagerError::AuthorityMismatch)
    } else {
        None
    }
}

/// Records the veto of the authority of the campaign against the phase at
/// the place `payout_phase_index` of the ordered list of its schedule. A
/// place that the list does not have changes nothing, and neither does a
/// veto against a phase whose payout was made. A veto cannot be taken back.
pub fn handle_veto_payout_phase(
    campaign_escrow: &mut CampaignEscrow,
    ctx: &VetoPayoutPhase,
    payout_phase_index: u8,
) -> (result: Result<(), CampaignTreasuryManagerError>)
    ensures
        match result {
            Ok(()) => {
                &&& veto_payout_phase_rejection(old(campaign_escrow), ctx) is None
                &&& final(campaign_escrow).payout_phases@ == old(
                    campaign_escrow,
                ).payout_phases@.veto_payout_phase_by_authority(payout_phase_index as int)
                &&& *final(campaign_escrow) == (CampaignEscrow {
                    payout_phases: final(campaign_escrow).payout_phases,
                    ..*old(campaign_escrow)
                })
                &&& old(campaign_escrow).well_formed() ==> final(campaign_escrow).well_formed()
            },
            Err(error) => {
                &&& veto_payout_phase_rejection(old(campaign_escrow), ctx) == Some(error)
                &&& *final(campaign_escrow) == *old(campaign_escrow)
            },
        },
{
    if !ctx.authority.is_signer {
        return Err(CampaignTreasuryManagerError::MissingSigner);
    }
    assert_keys_equal(
        &ctx.authority.key,
        &campaign_escrow.authority,
        Some(CampaignTreasuryManagerError::AuthorityMismatch),
    )?;
    proof {
        campaign_escrow.payout_phases@.lemma_records_keep_the_plan(payout_phase_index as int);
    }
    campaign_escrow.payout_phases.veto_payout_phase_by_authority(payout_phase_index);
    Ok(())
}

} // verus!
