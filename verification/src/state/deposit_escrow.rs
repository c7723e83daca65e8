//! The escrow that holds the deposits made in one currency other than
//! the treasury's, until they are converted.

use vstd::prelude::*;
use vstd::string::StringSliceAdditionalSpecFns;
use crate::pubkey::{bump_bytes, Pubkey};

verus! {

/// The escrow of one deposit currency. A campaign has one for each
/// currency, other than the treasury's, in which deposits are made.
pub struct DepositEscrow {}

impl DepositEscrow {
    /// The seed prefix of the escrow's address.
    pub const PREFIX: &'static str = "deposit_escrow";

    /// The seeds from which the address of the escrow is derived: the
    /// prefix, the campaign's identifier, the mint of the currency and the
    /// bump, each as bytes.
    pub fn get_seeds<'a>(
        campaign_uuid: &'a String,
        deposit_escrow_mint: &'a Pubkey,
        bump: &'a u8,
    ) -> (seeds: [&'a [u8]; 4])
        ensures
            seeds[0]@ == DepositEscrow::PREFIX.spec_bytes(),
            seeds[1]@ == vstd::utf8::encode_utf8(campaign_uuid@),
            seeds[2]@ == deposit_escrow_mint@,
            seeds[3]@ == seq![*bump],
    {
        let seeds = [
            DepositEscrow::PREFIX.as_bytes(),
            campaign_uuid.as_str().as_bytes(),
            deposit_escrow_mint.bytes.as_slice(),
            bump_bytes(bump),
        ];
        seeds
    }
}

} // verus!
