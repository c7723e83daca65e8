//! The escrow that holds the treasury of a campaign.

use vstd::prelude::*;
use vstd::string::StringSliceAdditionalSpecFns;
use crate::constants::PROGRAM_PREFIX;
use crate::pubkey::bump_bytes;

verus! {

/// The escrow that holds the funds of the treasury.
pub struct TreasuryEscrow {}

impl TreasuryEscrow {
    /// The seed of the escrow's address that tells it from other addresses
    /// of the campaign.
    pub const PREFIX: &'static str = "treasury_escrow";

    /// The seeds from which the address of the escrow is derived: the
    /// prefix of the program, the campaign's identifier, the prefix of the
    /// escrow and the bump, each as bytes.
    pub fn get_seeds<'a>(campaign_uuid: &'a String, bump: &'a u8) -> (seeds: [&'a [u8]; 4])
        ensures
            seeds[0]@ == PROGRAM_PREFIX.spec_bytes(),
            seeds[1]@ == vstd::utf8::encode_utf8(campaign_uuid@),
            seeds[2]@ == TreasuryEscrow::PREFIX.spec_bytes(),
            seeds[3]@ == seq![*bump],
    {
        let seeds = [
            PROGRAM_PREFIX.as_bytes(),
            campaign_uuid.as_str().as_bytes(),
            TreasuryEscrow::PREFIX.as_bytes(),
            bump_bytes(bump),
        ];
        seeds
    }
}

} // verus!
