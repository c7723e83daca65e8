//! Closing a campaign escrow.

use vstd::prelude::*;
use crate::account_info::AccountInfo;
use crate::errors::CampaignTreasuryManagerError;
use crate::pubkey::{is_native_mint, native_mint};
use crate::state::campaign_escrow::CampaignEscrow;
use crate::utils::buffer_times::BufferTimes;
use crate::utils::utils::{
    assert_valid_escrow_management_signers, escrow_management_signers_rejection,
};

verus! {

/// What the closing of a campaign escrow sees of the accounts that take
/// part in it, and of the time.
#[derive(Debug)]
pub struct CloseEscrow {
    pub authority: AccountInfo,
    pub creator: AccountInfo,
    /// The tokens that the treasury escrow holds. It is read only for a
    /// treasury in another currency than the native one.
    pub treasury_escrow_tokens: u64,
    /// The time of the request.
    pub now: i64,
}

/// How the treasury escrow of a campaign that may be closed is to be
/// closed.
#[derive(Clone, Copy, Debug, PartialEq, Eq, Structural)]
pub enum TreasuryClosing {
    /// The treasury escrow is a plain account of the native currency,
    /// which signs for itself.
    System,
    /// The treasury escrow is a token account, closed on the authority of
    /// the campaign escrow.
    Token,
}

/// Why the closing of a campaign escrow is rejected, if it is: the signers
/// are not in order; or, that apart, a payout is not complete or a deposit
/// escrow is not closed.
pub open spec fn close_escrow_rejection(
    campaign_escrow: &CampaignEscrow,
    ctx: &CloseEscrow,
    policy: BufferTimes,
) -> Option<CampaignTreasuryManagerError> {
    let signers = escrow_management_signers_rejection(
        &ctx.creator,
        &ctx.authority,
        Some(campaign_escrow),
    );
    if signers is Some {
        signers
    } else if !campaign_escrow.can_close(ctx.now as int, policy) {
        Some(CampaignTreasuryManagerError::InvalidCloseEscrow)
    } else {
        None
    }
}

/// Closes a campaign escrow: once the signers are in order, every payout
/// is complete and every deposit escrow is closed, the way to close the
/// treasury escrow is handed back; the record itself is then given up by
/// the caller. A treasury of tokens that may be closed must be empty.
pub fn handle_close_escrow(
    campaign_escrow: &CampaignEscrow,
    ctx: &CloseEscrow,
    policy: &BufferTimes,
) -> (result: Result<TreasuryClosing, CampaignTreasuryManagerError>)
    requires
        (close_escrow_rejection(campaign_escrow, ctx, *policy) is None
            && campaign_escrow.treasury.treasury_mint@ != native_mint())
            ==> ctx.treasury_escrow_tokens == 0,
    ensures
        match result {
            Ok(closing) => {
                &&& close_escrow_rejection(campaign_escrow, ctx, *policy) is None
                &&& closing == (if campaign_escrow.treasury.treasury_mint@ == native_mint() {
                    TreasuryClosing::System
                } else {
                    TreasuryClosing::Token
                })
            },
            Err(error) => close_escrow_rejection(campaign_escrow, ctx, *policy) == Some(error),
        },
{
    assert_valid_escrow_management_signers(&ctx.creator, &ctx.authority, Some(campaign_escrow))?;

    campaign_escrow.assert_can_close_campaign_escrow(ctx.now, policy)?;

    if is_native_mint(&campaign_escrow.treasury.treasury_mint) {
        Ok(TreasuryClosing::System)
    } else {
        assert(ctx.treasury_escrow_tokens == 0);
        Ok(TreasuryClosing::Token)
    }
}

/// A campaign escrow is not closed while one of its deposit escrows is
/// open, whatever the state of the payouts and whoever signs.
pub proof fn lemma_open_deposit_escrow_blocks_closing(
    campaign_escrow: &CampaignEscrow,
    ctx: &CloseEscrow,
    policy: BufferTimes,
    open_escrow: int,
)
    requires
        0 <= open_escrow < campaign_escrow.deposit_escrow_infos@.len(),
        !campaign_escrow.deposit_escrow_infos@[open_escrow].closed,
    ensures
        !campaign_escrow.can_close(ctx.now as int, policy),
        close_escrow_rejection(campaign_escrow, ctx, policy) is Some,
{
}

} // verus!
