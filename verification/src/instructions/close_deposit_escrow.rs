//! Closing the escrow of a deposit currency.

use vstd::prelude::*;
use crate::errors::CampaignTreasuryManagerError;
use crate::pubkey::{is_native_mint, native_mint, Pubkey};
use crate::state::campaign_escrow::{with_closed, CampaignEscrow};
use crate::utils::buffer_times::BufferTimes;

verus! {

/// What the closing of a deposit escrow sees of the escrow, and of the
/// time.
#[derive(Clone, Copy, Debug)]
pub struct CloseDepositEscrow {
    /// The mint of the currency of the escrow.
    pub deposit_escrow_mint: Pubkey,
    /// The balance of the escrow in the native currency.
    pub deposit_escrow_lamports: u64,
    /// The tokens that the escrow holds. It is read only for a currency
    /// other than the native one.
    pub deposit_escrow_tokens: u64,
    /// The time of the request.
    pub now: i64,
}

impl CloseDepositEscrow {
    /// What the escrow holds in its currency.
    pub open spec fn balance(&self) -> u64 {
        if self.deposit_escrow_mint@ == native_mint() {
            self.deposit_escrow_lamports
        } else {
            self.deposit_escrow_tokens
        }
    }
}

/// How an escrow that may be closed is to be closed.
#[derive(Clone, Copy, Debug, PartialEq, Eq, Structural)]
pub enum EscrowClosing {
    /// The escrow is a plain account of the native currency, which signs
    /// for itself with the bump of its address.
    System { bump: u8 },
    /// The escrow is a token account, closed on the authority of the
    /// campaign escrow.
    Token,
}

/// Why the closing of a deposit escrow is rejected, if it is: payouts are
/// not complete; or, that apart, the escrow still holds funds.
pub open spec fn close_deposit_escrow_rejection(
    campaign_escrow: &CampaignEscrow,
    ctx: &CloseDepositEscrow,
    policy: BufferTimes,
) -> Option<CampaignTreasuryManagerError> {
    if !campaign_escrow.all_payouts_are_complete(ctx.now as int, policy) {
        Some(CampaignTreasuryManagerError::InvalidCloseEscrow)
    } else if ctx.balance() > 0 {
        Some(CampaignTreasuryManagerError::DepositEscrowAccountNotEmpty)
    } else {
        None
    }
}

/// Closes the escrow of a deposit currency: once every payout is
/// complete and the escrow is empty, the escrow is recorded as closed, and
/// the way to close its account is handed back. The campaign escrow must
/// list the escrow.
pub fn handle_close_deposit_escrow(
    campaign_escrow: &mut CampaignEscrow,
    ctx: &CloseDepositEscrow,
    policy: &BufferTimes,
) -> (result: Result<EscrowClosing, CampaignTreasuryManagerError>)
    requires
        old(campaign_escrow).has_deposit_escrow(ctx.deposit_escrow_mint@),
    ensures
        match result {
            Ok(closing) => {
                &&& close_deposit_escrow_rejection(old(campaign_escrow), ctx, *policy) is None
                &&& closing == (if ctx.deposit_escrow_mint@ == native_mint() {
                    EscrowClosing::System {
                        bump: old(campaign_escrow).deposit_escrow_infos@[old(
                            campaign_escrow,
                        ).deposit_escrow_position(ctx.deposit_escrow_mint@).unwrap()].deposit_escrow_bump,
                    }
                } else {
                    EscrowClosing::Token
                })
                &&& final(campaign_escrow).deposit_escrow_infos@ == with_closed(
                    old(campaign_escrow).deposit_escrow_infos@,
                    ctx.deposit_escrow_mint@,
                )
                &&& *final(campaign_escrow) == (CampaignEscrow {
                    deposit_escrow_infos: final(campaign_escrow).deposit_escrow_infos,
                    ..*old(campaign_escrow)
                })
                &&& old(campaign_escrow).well_formed() ==> final(campaign_escrow).well_formed()
            },
            Err(error) => {
                &&& close_deposit_escrow_rejection(old(campaign_escrow), ctx, *policy) == Some(error)
                &&& *final(campaign_escrow) == *old(campaign_escrow)
            },
        },
{
    campaign_escrow.assert_all_payouts_are_complete(ctx.now, policy)?;

    let closing = if is_native_mint(&ctx.deposit_escrow_mint) {
        let lamports = ctx.deposit_escrow_lamports;
        if lamports > 0 {
            return Err(CampaignTreasuryManagerError::DepositEscrowAccountNotEmpty);
        }
        let deposit_escrow_bump = campaign_escrow.get_deposit_escrow_info(
            &ctx.deposit_escrow_mint,
        ).unwrap().deposit_escrow_bump;
        EscrowClosing::System { bump: deposit_escrow_bump }
    } else {
        let tokens = ctx.deposit_escrow_tokens;
        if tokens > 0 {
            return Err(CampaignTreasuryManagerError::DepositEscrowAccountNotEmpty);
        }
        EscrowClosing::Token
    };
    campaign_escrow.mark_deposit_escrow_as_closed(&ctx.deposit_escrow_mint);

    Ok(closing)
}

} // verus!
