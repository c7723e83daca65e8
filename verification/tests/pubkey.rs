use std::str::FromStr;

use campaign_treasury_manager::constants::{
    FORMFN_AUCTION_HOUSE_DEVNET_PROGRAM_ID, FORMFN_AUCTION_HOUSE_PROGRAM_ID,
    FORMFN_AUCTION_HOUSE_TESTNET_PROGRAM_ID, FORMFN_CANDY_MACHINE_PROGRAM_ID, ID, NATIVE_MINT,
    ONE_HUNDRED_PERCENT_BASIS_POINTS, PROGRAM_PREFIX, TOKEN_PROGRAM_ID,
};
use campaign_treasury_manager::errors::{CampaignTreasuryManagerError, FIRST_ERROR_NUMBER};
use campaign_treasury_manager::pubkey::{cmp_pubkeys, is_native_mint, Pubkey, PUBKEY_BYTES};
use campaign_treasury_manager::state::deposit_escrow::DepositEscrow;
use campaign_treasury_manager::state::treasury_escrow::TreasuryEscrow;
use campaign_treasury_manager::utils::validate_cpi_invocation::validate_cpi_invocation;

fn key(byte: u8) -> Pubkey {
    Pubkey { bytes: [byte; 32] }
}

fn decode(address: &str) -> [u8; 32] {
    solana_program::pubkey::Pubkey::from_str(address)
        .unwrap()
        .to_bytes()
}

#[test]
fn equal_keys_compare_equal() {
    assert_eq!(PUBKEY_BYTES, 32);
    assert!(cmp_pubkeys(&key(7), &key(7)));
    assert!(cmp_pubkeys(&key(0), &key(0)));
}

#[test]
fn keys_that_differ_in_one_byte_compare_unequal() {
    assert!(!cmp_pubkeys(&key(7), &key(8)));
    let mut first = key(1);
    first.bytes[0] = 2;
    assert!(!cmp_pubkeys(&first, &key(1)));
    let mut last = key(1);
    last.bytes[31] = 0;
    assert!(!cmp_pubkeys(&last, &key(1)));
    assert!(!cmp_pubkeys(&key(1), &last));
}

#[test]
fn native_mint_is_recognised() {
    let native = Pubkey {
        bytes: spl_token::native_mint::id().to_bytes(),
    };
    assert!(is_native_mint(&native));
    assert_eq!(
        native.bytes,
        decode("So11111111111111111111111111111111111111112")
    );
    assert_eq!(
        native.bytes,
        [
            6, 155, 136, 87, 254, 171, 129, 132, 251, 104, 127, 99, 70, 24, 192, 53, 218, 196, 57,
            220, 26, 235, 59, 85, 152, 160, 240, 0, 0, 0, 0, 1
        ]
    );
}

#[test]
fn other_mints_are_not_native() {
    assert!(!is_native_mint(&key(0)));
    assert!(!is_native_mint(&key(6)));
    let mut almost = Pubkey {
        bytes: spl_token::native_mint::id().to_bytes(),
    };
    almost.bytes[31] = 2;
    assert!(!is_native_mint(&almost));
    assert!(is_native_mint(&Pubkey { bytes: NATIVE_MINT }));
    assert!(!is_native_mint(&Pubkey {
        bytes: TOKEN_PROGRAM_ID
    }));
}

#[test]
fn addresses_of_the_programs() {
    assert_eq!(ID, decode("Fg6PaFpoGXkYsidMpWTK6W2BeZ7FEfcYkg476zPFsLnS"));
    assert_eq!(
        FORMFN_AUCTION_HOUSE_PROGRAM_ID,
        decode("formn3hJtt8gvVKxpCfzCJGuoz6CNUFcULFZW18iTpC")
    );
    assert_eq!(
        FORMFN_AUCTION_HOUSE_DEVNET_PROGRAM_ID,
        decode("devmBQyHHBPiLcuCqbWWRYxCG33ntAfPD5nXZeLd4eX")
    );
    assert_eq!(
        FORMFN_AUCTION_HOUSE_TESTNET_PROGRAM_ID,
        decode("jzmdMPJhm7Txb2RzYPte6Aj1QWqFarmjsJuWjk9m2wv")
    );
    assert_eq!(
        FORMFN_CANDY_MACHINE_PROGRAM_ID,
        decode("gachaC2NGh63y4ogLK8xHLeB5ZFZ8ypDLXEQyKNm8sy")
    );
    assert_eq!(NATIVE_MINT, spl_token::native_mint::id().to_bytes());
    assert_eq!(TOKEN_PROGRAM_ID, spl_token::id().to_bytes());
    assert_eq!(
        TOKEN_PROGRAM_ID,
        decode("TokenkegQfeZyiNwAJbNbGKPFXCWuBvf9Ss623VQ5DA")
    );
    assert_eq!(PROGRAM_PREFIX, "campaign_treasury_manager");
    assert_eq!(ONE_HUNDRED_PERCENT_BASIS_POINTS, 10_000);
}

#[test]
fn allowed_callers_are_accepted() {
    for bytes in [
        FORMFN_AUCTION_HOUSE_PROGRAM_ID,
        FORMFN_AUCTION_HOUSE_DEVNET_PROGRAM_ID,
        FORMFN_AUCTION_HOUSE_TESTNET_PROGRAM_ID,
        FORMFN_CANDY_MACHINE_PROGRAM_ID,
    ] {
        assert_eq!(validate_cpi_invocation(Some(&Pubkey { bytes })), Ok(()));
    }
}

#[test]
fn other_callers_are_rejected() {
    let rejected = Err(CampaignTreasuryManagerError::InvalidCpiInvocation);
    assert_eq!(validate_cpi_invocation(None), rejected);
    assert_eq!(validate_cpi_invocation(Some(&key(0))), rejected);
    assert_eq!(validate_cpi_invocation(Some(&Pubkey { bytes: ID })), rejected);
    let mut almost = Pubkey {
        bytes: FORMFN_CANDY_MACHINE_PROGRAM_ID,
    };
    almost.bytes[31] ^= 1;
    assert_eq!(validate_cpi_invocation(Some(&almost)), rejected);
}

#[test]
fn deposit_escrow_seeds() {
    let campaign_uuid = String::from("campaign-1");
    let mint = key(9);
    let bump = 254u8;
    let seeds = DepositEscrow::get_seeds(&campaign_uuid, &mint, &bump);
    assert_eq!(seeds[0], b"deposit_escrow");
    assert_eq!(seeds[1], b"campaign-1");
    assert_eq!(seeds[2], &[9u8; 32]);
    assert_eq!(seeds[3], &[254u8]);
    assert_eq!(DepositEscrow::PREFIX, "deposit_escrow");
}

#[test]
fn treasury_escrow_seeds() {
    let campaign_uuid = String::from("campaign-1");
    let bump = 3u8;
    let seeds = TreasuryEscrow::get_seeds(&campaign_uuid, &bump);
    assert_eq!(seeds[0], b"campaign_treasury_manager");
    assert_eq!(seeds[1], b"campaign-1");
    assert_eq!(seeds[2], b"treasury_escrow");
    assert_eq!(seeds[3], &[3u8]);
    assert_eq!(TreasuryEscrow::PREFIX, "treasury_escrow");
}

#[test]
fn seeds_derive_the_address_that_the_search_found() {
    let campaign_uuid = String::from("campaign-1");
    let mint = key(9);
    let program_id = solana_program::pubkey::Pubkey::new_from_array(ID);
    let (address, bump) = solana_program::pubkey::Pubkey::find_program_address(
        &[b"deposit_escrow", campaign_uuid.as_bytes(), &mint.bytes],
        &program_id,
    );
    let seeds = DepositEscrow::get_seeds(&campaign_uuid, &mint, &bump);
    let derived =
        solana_program::pubkey::Pubkey::create_program_address(&seeds, &program_id).unwrap();
    assert_eq!(derived, address);
}

#[test]
fn errors_are_numbered_in_order() {
    assert_eq!(FIRST_ERROR_NUMBER, 3000);
    assert_eq!(CampaignTreasuryManagerError::PublicKeyMismatch.error_number(), 3000);
    assert_eq!(CampaignTreasuryManagerError::IncorrectOwner.error_number(), 3001);
    assert_eq!(CampaignTreasuryManagerError::MissingSigner.error_number(), 3003);
    assert_eq!(CampaignTreasuryManagerError::InvalidPayoutPhases.error_number(), 3006);
    assert_eq!(CampaignTreasuryManagerError::InvalidPayoutRequest.error_number(), 3016);
    assert_eq!(
        CampaignTreasuryManagerError::DepositEscrowAccountNotEmpty.error_number(),
        3017
    );
}

#[test]
fn errors_have_a_message() {
    assert_eq!(
        CampaignTreasuryManagerError::PublicKeyMismatch.message(),
        "PublicKey check failed"
    );
    assert_eq!(
        CampaignTreasuryManagerError::InvalidPayoutPhases.message(),
        "Payout phase settings are invalid"
    );
    assert_eq!(
        CampaignTreasuryManagerError::InvalidCloseEscrow.message(),
        "Cannot close CampaignEscrow unless all payouts are complete"
    );
    assert_eq!(
        CampaignTreasuryManagerError::DepositEscrowAccountNotEmpty.message(),
        "Deposit escrow account must be empty before it can be closed"
    );
}
