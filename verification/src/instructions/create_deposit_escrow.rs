//! Creating the escrow of a deposit currency.

use vstd::prelude::*;
use crate::errors::CampaignTreasuryManagerError;
use crate::pubkey::{is_native_mint, native_mint, Pubkey};
use crate::state::campaign_escrow::{CampaignEscrow, DepositEscrowInfo};
use crate::state::payout_phases::lemma_first_true_from;
use crate::utils::utils::assert_keys_equal;

verus! {

/// What the creation of a deposit escrow sees of the accounts that take
/// part in it.
#[derive(Clone, Copy, Debug)]
pub struct CreateDepositEscrow {
    /// The mint of the deposit currency.
    pub deposit_escrow_mint: Pubkey,
}

/// What a request for the escrow of a deposit currency led to.
#[derive(Clone, Copy, Debug, PartialEq, Eq, Structural)]
pub enum DepositEscrowCreation {
    /// The campaign lists an escrow for the currency already: nothing
    /// was done.
    AlreadyListed,
    /// The escrow was listed. `create_account` tells whether an account
    /// has to be created for it, as it has for every currency but the
    /// native one.
    Listed { create_account: bool },
}

/// Lists the escrow of a deposit currency for the campaign. The currency
/// of the treasury needs no deposit escrow and is rejected. A currency that
/// has an escrow already is left alone. A new escrow is rejected once the
/// list is full.
pub fn handle_create_deposit_escrow(
    campaign_escrow: &mut CampaignEscrow,
    ctx: &CreateDepositEscrow,
    deposit_escrow_bump: u8,
) -> (result: Result<DepositEscrowCreation, CampaignTreasuryManagerError>)
    ensures
        match result {
            Ok(DepositEscrowCreation::AlreadyListed) => {
                &&& ctx.deposit_escrow_mint@ != old(campaign_escrow).treasury.treasury_mint@
                &&& old(campaign_escrow).has_deposit_escrow(ctx.deposit_escrow_mint@)
                &&& *final(campaign_escrow) == *old(campaign_escrow)
            },
            Ok(DepositEscrowCreation::Listed { create_account }) => {
                &&& ctx.deposit_escrow_mint@ != old(campaign_escrow).treasury.treasury_mint@
                &&& !old(campaign_escrow).has_deposit_escrow(ctx.deposit_escrow_mint@)
                &&& old(campaign_escrow).deposit_escrow_infos@.len()
                    < CampaignEscrow::DEPOSIT_ESCROW_INFOS_MAX_LEN
                &&& create_account == (ctx.deposit_escrow_mint@ != native_mint())
                &&& final(campaign_escrow).deposit_escrow_infos@ == old(
                    campaign_escrow,
                ).deposit_escrow_infos@.push(
                    DepositEscrowInfo {
                        deposit_escrow_bump,
                        mint: ctx.deposit_escrow_mint,
                        closed: false,
                    },
                )
                &&& *final(campaign_escrow) == (CampaignEscrow {
                    deposit_escrow_infos: final(campaign_escrow).deposit_escrow_infos,
                    ..*old(campaign_escrow)
                })
                &&& old(campaign_escrow).well_formed() ==> final(campaign_escrow).well_formed()
            },
            Err(error) => {
                &&& error == CampaignTreasuryManagerError::InvalidCreateDepositEscrowIx
                &&& ctx.deposit_escrow_mint@ == old(campaign_escrow).treasury.treasury_mint@ || (!old(
                    campaign_escrow,
                ).has_deposit_escrow(ctx.deposit_escrow_mint@) && old(
                    campaign_escrow,
                ).deposit_escrow_infos@.len() >= CampaignEscrow::DEPOSIT_ESCROW_INFOS_MAX_LEN)
                &&& *final(campaign_escrow) == *old(campaign_escrow)
            },
        },
{
    let deposit_matches_treasury_mint = assert_keys_equal(
        &campaign_escrow.treasury.treasury_mint,
        &ctx.deposit_escrow_mint,
        None,
    ).is_ok();
    if deposit_matches_treasury_mint {
        return Err(CampaignTreasuryManagerError::InvalidCreateDepositEscrowIx);
    }
    if campaign_escrow.get_deposit_escrow_info(&ctx.deposit_escrow_mint).is_some() {
        return Ok(DepositEscrowCreation::AlreadyListed);
    }
    if campaign_escrow.deposit_escrow_infos.len() >= CampaignEscrow::DEPOSIT_ESCROW_INFOS_MAX_LEN {
        return Err(CampaignTreasuryManagerError::InvalidCreateDepositEscrowIx);
    }
    let create_account = !is_native_mint(&ctx.deposit_escrow_mint);
    proof {
        lemma_first_true_from(campaign_escrow.escrow_matches(ctx.deposit_escrow_mint@), 0);
        assert forall|j: int| 0 <= j < campaign_escrow.deposit_escrow_infos@.len() implies (
        #[trigger] campaign_escrow.deposit_escrow_infos@[j]).mint@ != ctx.deposit_escrow_mint@ by {
            assert(!campaign_escrow.escrow_matches(ctx.deposit_escrow_mint@)[j]);
        }
    }
    campaign_escrow.add_deposit_escrow_info(ctx.deposit_escrow_mint, deposit_escrow_bump);

    Ok(DepositEscrowCreation::Listed { create_account })
}

} // verus!
