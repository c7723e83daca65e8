//! Who may ask for a deposit to be created.

use vstd::prelude::*;
use crate::constants::{
    FORMFN_AUCTION_HOUSE_DEVNET_PROGRAM_ID, FORMFN_AUCTION_HOUSE_PROGRAM_ID,
    FORMFN_AUCTION_HOUSE_TESTNET_PROGRAM_ID, FORMFN_CANDY_MACHINE_PROGRAM_ID,
};
use crate::errors::CampaignTreasuryManagerError;
use crate::pubkey::{cmp_pubkeys, Pubkey};

verus! {

/// Whether `program_id` is one of the programs that may ask for a deposit
/// to be created: the auction houses and the candy machine.
pub open spec fn is_allowed_caller(program_id: Seq<u8>) -> bool {
    ||| program_id == FORMFN_AUCTION_HOUSE_DEVNET_PROGRAM_ID@
    ||| program_id == FORMFN_AUCTION_HOUSE_TESTNET_PROGRAM_ID@
    ||| program_id == FORMFN_AUCTION_HOUSE_PROGRAM_ID@
    ||| program_id == FORMFN_CANDY_MACHINE_PROGRAM_ID@
}

/// Accepts a request that follows directly on an instruction of one of
/// the programs that may ask for a deposit. `previous_ix_program_id` is the
/// program of the instruction just before the request, or none where no
/// such instruction can be read.
pub fn validate_cpi_invocation(previous_ix_program_id: Option<&Pubkey>) -> (result: Result<
    (),
    CampaignTreasuryManagerError,
>)
    ensures
        result is Ok <==> (previous_ix_program_id matches Some(program_id) && is_allowed_caller(
            program_id@,
        )),
        result is Err ==> result == Err::<(), _>(CampaignTreasuryManagerError::InvalidCpiInvocation),
{
    let previous_ix_program_id = match previous_ix_program_id {
        Some(program_id) => program_id,
        None => {
            return Err(CampaignTreasuryManagerError::InvalidCpiInvocation);
        },
    };
    if cmp_pubkeys(&Pubkey { bytes: FORMFN_AUCTION_HOUSE_DEVNET_PROGRAM_ID }, previous_ix_program_id)
        || cmp_pubkeys(
        &Pubkey { bytes: FORMFN_AUCTION_HOUSE_TESTNET_PROGRAM_ID },
        previous_ix_program_id,
    ) || cmp_pubkeys(&Pubkey { bytes: FORMFN_AUCTION_HOUSE_PROGRAM_ID }, previous_ix_program_id)
        || cmp_pubkeys(&Pubkey { bytes: FORMFN_CANDY_MACHINE_PROGRAM_ID }, previous_ix_program_id) {
        return Ok(());
    }
    Err(CampaignTreasuryManagerError::InvalidCpiInvocation)
}

} // verus!
