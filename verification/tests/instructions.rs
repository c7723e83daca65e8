use campaign_treasury_manager::account_info::AccountInfo;
use campaign_treasury_manager::constants::{FORMFN_AUCTION_HOUSE_PROGRAM_ID, ID};
use campaign_treasury_manager::errors::CampaignTreasuryManagerError;
use campaign_treasury_manager::instructions::close_deposit_escrow::{
    handle_close_deposit_escrow, CloseDepositEscrow, EscrowClosing,
};
use campaign_treasury_manager::instructions::close_escrow::{
    handle_close_escrow, CloseEscrow, TreasuryClosing,
};
use campaign_treasury_manager::instructions::create_deposit::{
    assert_deposit_is_valid, handle_create_deposit, handle_create_deposit_with_escrow,
    has_room_for_deposit, record_deposit, CreateDeposit,
};
use campaign_treasury_manager::instructions::create_deposit_escrow::{
    handle_create_deposit_escrow, CreateDepositEscrow, DepositEscrowCreation,
};
use campaign_treasury_manager::instructions::create_escrow::{
    handle_create_escrow, CreateCampaignEscrowInput, CreateEscrow,
};
use campaign_treasury_manager::instructions::pay_out_funds::{handle_pay_out_funds, PayOutFunds};
use campaign_treasury_manager::instructions::update_escrow::{
    handle_update_escrow, UpdateCampaignEscrowInput, UpdateEscrow,
};
use campaign_treasury_manager::instructions::veto_payout_phase::{
    handle_veto_payout_phase, VetoPayoutPhase,
};
use campaign_treasury_manager::pubkey::Pubkey;
use campaign_treasury_manager::state::campaign_escrow::{CampaignEscrow, Treasury};
use campaign_treasury_manager::state::payout_phases::{
    NonVotingPayoutPhaseInput, SharedPayoutPhaseFields, VotingPayoutPhaseInput,
};
use campaign_treasury_manager::utils::buffer_times::BufferTimes;
use campaign_treasury_manager::utils::utils::Transfer;

const DAY: i64 = 86_400;
const NOW: i64 = 1_700_000_000;
const END: i64 = NOW + 20 * DAY;

fn key(byte: u8) -> Pubkey {
    Pubkey { bytes: [byte; 32] }
}

fn native_mint() -> Pubkey {
    Pubkey {
        bytes: spl_token::native_mint::id().to_bytes(),
    }
}

fn mint(deposit_escrow_mint: Pubkey) -> CreateDepositEscrow {
    CreateDepositEscrow {
        deposit_escrow_mint,
    }
}

fn at(now: i64) -> PayOutFunds {
    PayOutFunds { now }
}

fn by(authority: AccountInfo) -> VetoPayoutPhase {
    VetoPayoutPhase { authority }
}

fn account(key_byte: u8, is_signer: bool) -> AccountInfo {
    AccountInfo {
        key: key(key_byte),
        owner: key(0),
        is_signer,
        lamports: 0,
        data: vec![],
    }
}

fn shared(index: u8, basis_points: u16, payout_time: i64) -> SharedPayoutPhaseFields {
    SharedPayoutPhaseFields {
        index,
        payout_basis_points: basis_points,
        payout_time,
        refund_deadline: payout_time + 31 * DAY,
        description: String::from("phase"),
    }
}

fn plain(index: u8, basis_points: u16, payout_time: i64) -> NonVotingPayoutPhaseInput {
    NonVotingPayoutPhaseInput {
        shared_fields: shared(index, basis_points, payout_time),
    }
}

fn voting(index: u8, basis_points: u16, payout_time: i64) -> VotingPayoutPhaseInput {
    VotingPayoutPhaseInput {
        shared_fields: shared(index, basis_points, payout_time),
        voting_start_time: 0,
        veto_votes: 0,
        vote_basis_points_veto_threshold: 80,
    }
}

fn create_ctx() -> CreateEscrow {
    CreateEscrow {
        bump: 255,
        authority: account(1, true),
        creator: account(2, false),
        treasury_mint: key(4),
        treasury_escrow: key(5),
        payout_wallet: key(3),
        payout_wallet_owner: key(6),
        payout_wallet_is_ata: true,
        now: NOW,
    }
}

fn create_input() -> CreateCampaignEscrowInput {
    CreateCampaignEscrowInput {
        campaign_end_time: END,
        non_voting_payout_phases: vec![plain(0, 5000, END + 10 * DAY)],
        voting_payout_phases: vec![voting(1, 5000, END + 100 * DAY)],
    }
}

fn new_escrow() -> CampaignEscrow {
    handle_create_escrow(
        &create_ctx(),
        String::from("campaign-1"),
        254,
        create_input(),
        &BufferTimes::production(),
    )
    .unwrap()
}

#[test]
fn create_escrow_initialises_the_record() {
    let escrow = new_escrow();
    assert_eq!(escrow.bump, 255);
    assert_eq!(escrow.campaign_uuid, "campaign-1");
    assert_eq!(escrow.authority, key(1));
    assert_eq!(escrow.creator, key(2));
    assert_eq!(escrow.payout_wallet, key(3));
    assert_eq!(
        escrow.treasury,
        Treasury {
            bump: 254,
            treasury_mint: key(4),
            treasury_escrow: key(5),
            total_funds: 0
        }
    );
    assert!(escrow.deposit_escrow_infos.is_empty());
    assert_eq!(escrow.campaign_end_time, END);
    assert_eq!(escrow.deposit_count, 0);
    assert_eq!(escrow.processed_deposit_count, 0);
    assert_eq!(escrow.closed_deposit_record_count, 0);
    assert!(!escrow.payouts_ready);
    assert_eq!(escrow.payout_phases.len(), 2);
    let active = escrow
        .payout_phases
        .get_current_active_payout_phase_for_payout()
        .unwrap();
    assert_eq!(active.get_index(), 0);
}

#[test]
fn create_escrow_rejections_in_order() {
    let policy = BufferTimes::production();
    let uuid = || String::from("campaign-1");

    let mut ctx = create_ctx();
    ctx.authority.is_signer = false;
    ctx.payout_wallet_is_ata = false;
    assert_eq!(
        handle_create_escrow(&ctx, uuid(), 254, create_input(), &policy).err(),
        Some(CampaignTreasuryManagerError::MissingSigner)
    );

    let mut ctx = create_ctx();
    ctx.payout_wallet_is_ata = false;
    let mut input = create_input();
    input.campaign_end_time = NOW;
    assert_eq!(
        handle_create_escrow(&ctx, uuid(), 254, input, &policy).err(),
        Some(CampaignTreasuryManagerError::InvalidTreasuryEscrow)
    );

    let mut ctx = create_ctx();
    ctx.treasury_mint = native_mint();
    assert_eq!(
        handle_create_escrow(&ctx, uuid(), 254, create_input(), &policy).err(),
        Some(CampaignTreasuryManagerError::InvalidTreasuryEscrow)
    );
    ctx.payout_wallet_owner = key(3);
    ctx.payout_wallet_is_ata = false;
    assert!(handle_create_escrow(&ctx, uuid(), 254, create_input(), &policy).is_ok());

    let mut input = create_input();
    input.campaign_end_time = NOW + 13 * DAY;
    input.voting_payout_phases.clear();
    assert_eq!(
        handle_create_escrow(&create_ctx(), uuid(), 254, input, &policy).err(),
        Some(CampaignTreasuryManagerError::InvalidCampaignEndTime)
    );

    let mut input = create_input();
    input.voting_payout_phases.clear();
    assert_eq!(
        handle_create_escrow(&create_ctx(), uuid(), 254, input, &policy).err(),
        Some(CampaignTreasuryManagerError::InvalidPayoutPhases)
    );
}

fn update_ctx(now: i64) -> UpdateEscrow {
    UpdateEscrow {
        authority: account(1, true),
        creator: account(2, false),
        treasury_mint: key(4),
        treasury_escrow: key(5),
        payout_wallet: key(3),
        payout_wallet_owner: key(6),
        payout_wallet_is_ata: true,
        now,
    }
}

fn no_update() -> UpdateCampaignEscrowInput {
    UpdateCampaignEscrowInput {
        authority: None,
        creator: None,
        campaign_end_time: None,
        non_voting_payout_phases: None,
        voting_payout_phases: None,
    }
}

#[test]
fn update_without_changes_keeps_everything() {
    let mut escrow = new_escrow();
    escrow.payout_phases.veto_payout_phase_by_authority(0);
    escrow.treasury.total_funds = 10;
    let result = handle_update_escrow(
        &mut escrow,
        &update_ctx(END),
        1,
        no_update(),
        &BufferTimes::production(),
    );
    assert_eq!(result, Ok(()));
    assert_eq!(escrow.authority, key(1));
    assert_eq!(escrow.creator, key(2));
    assert_eq!(escrow.campaign_end_time, END);
    assert_eq!(escrow.treasury.total_funds, 10);
    assert_eq!(escrow.treasury.bump, 254);
    assert!(escrow.payout_phases.non_voting_payout_phases[0].is_vetoed_by_authority);
}

#[test]
fn update_overwrites_what_is_given() {
    let mut escrow = new_escrow();
    escrow.payout_phases.veto_payout_phase_by_authority(0);
    let new_end = NOW + 30 * DAY;
    let input = UpdateCampaignEscrowInput {
        authority: Some(key(11)),
        creator: Some(key(12)),
        campaign_end_time: Some(new_end),
        non_voting_payout_phases: Some(vec![plain(0, 10_000, new_end + 5 * DAY)]),
        voting_payout_phases: None,
    };
    let mut ctx = update_ctx(NOW);
    ctx.treasury_mint = key(14);
    ctx.treasury_escrow = key(15);
    let result = handle_update_escrow(&mut escrow, &ctx, 9, input, &BufferTimes::production());
    assert_eq!(result, Ok(()));
    assert_eq!(escrow.authority, key(11));
    assert_eq!(escrow.creator, key(12));
    assert_eq!(escrow.campaign_end_time, new_end);
    assert_eq!(
        escrow.treasury,
        Treasury {
            bump: 9,
            treasury_mint: key(14),
            treasury_escrow: key(15),
            total_funds: 0
        }
    );
    assert_eq!(escrow.payout_phases.len(), 1);
    assert!(escrow.payout_phases.voting_payout_phases.is_empty());
    assert!(!escrow.payout_phases.non_voting_payout_phases[0].is_vetoed_by_authority);
    assert_eq!(escrow.payout_wallet, key(3));
    assert_eq!(escrow.bump, 255);
}

#[test]
fn update_ignores_phases_with_a_vote_given_alone() {
    let mut escrow = new_escrow();
    let input = UpdateCampaignEscrowInput {
        voting_payout_phases: Some(vec![]),
        ..no_update()
    };
    assert_eq!(
        handle_update_escrow(
            &mut escrow,
            &update_ctx(NOW),
            1,
            input,
            &BufferTimes::production()
        ),
        Ok(())
    );
    assert_eq!(escrow.payout_phases.len(), 2);
}

#[test]
fn update_is_possible_up_to_the_campaign_end_time() {
    let policy = BufferTimes::production();
    let mut escrow = new_escrow();
    let input = UpdateCampaignEscrowInput {
        authority: Some(key(11)),
        ..no_update()
    };
    assert_eq!(
        handle_update_escrow(&mut escrow, &update_ctx(END + 1), 1, input, &policy),
        Err(CampaignTreasuryManagerError::InvalidUpdateEscrow)
    );
    assert_eq!(escrow.authority, key(1));
    let input = UpdateCampaignEscrowInput {
        authority: Some(key(11)),
        ..no_update()
    };
    assert_eq!(
        handle_update_escrow(&mut escrow, &update_ctx(END), 1, input, &policy),
        Ok(())
    );
    assert_eq!(escrow.authority, key(11));
}

#[test]
fn update_rejects_signers_that_do_not_match() {
    let policy = BufferTimes::production();
    let mut escrow = new_escrow();
    let mut ctx = update_ctx(NOW);
    ctx.authority = account(9, true);
    assert_eq!(
        handle_update_escrow(&mut escrow, &ctx, 1, no_update(), &policy),
        Err(CampaignTreasuryManagerError::AuthorityMismatch)
    );
    let mut ctx = update_ctx(NOW);
    ctx.creator = account(9, false);
    assert_eq!(
        handle_update_escrow(&mut escrow, &ctx, 1, no_update(), &policy),
        Err(CampaignTreasuryManagerError::CreatorMismatch)
    );
    let mut ctx = update_ctx(NOW);
    ctx.authority.is_signer = false;
    assert_eq!(
        handle_update_escrow(&mut escrow, &ctx, 1, no_update(), &policy),
        Err(CampaignTreasuryManagerError::MissingSigner)
    );
}

#[test]
fn update_cannot_change_the_currency_once_funds_were_deposited() {
    let policy = BufferTimes::production();
    let mut escrow = new_escrow();
    escrow.treasury.total_funds = 1;
    let mut ctx = update_ctx(NOW);
    ctx.treasury_mint = key(14);
    let input = UpdateCampaignEscrowInput {
        authority: Some(key(11)),
        ..no_update()
    };
    assert_eq!(
        handle_update_escrow(&mut escrow, &ctx, 1, input, &policy),
        Err(CampaignTreasuryManagerError::InvalidUpdateEscrow)
    );
    assert_eq!(escrow.treasury.treasury_mint, key(4));
    assert_eq!(escrow.treasury.total_funds, 1);
    assert_eq!(escrow.authority, key(1));
}

#[test]
fn update_that_is_rejected_late_changes_nothing() {
    let policy = BufferTimes::production();
    let mut escrow = new_escrow();
    let mut ctx = update_ctx(NOW);
    ctx.treasury_mint = key(14);
    let input = UpdateCampaignEscrowInput {
        authority: Some(key(11)),
        creator: Some(key(12)),
        campaign_end_time: Some(NOW + 30 * DAY),
        non_voting_payout_phases: Some(vec![plain(0, 9_999, NOW + 35 * DAY)]),
        voting_payout_phases: Some(vec![]),
    };
    assert_eq!(
        handle_update_escrow(&mut escrow, &ctx, 9, input, &policy),
        Err(CampaignTreasuryManagerError::InvalidPayoutPhases)
    );
    assert_eq!(escrow.authority, key(1));
    assert_eq!(escrow.creator, key(2));
    assert_eq!(escrow.campaign_end_time, END);
    assert_eq!(escrow.treasury.treasury_mint, key(4));
    assert_eq!(escrow.payout_phases.len(), 2);

    let input = UpdateCampaignEscrowInput {
        authority: Some(key(11)),
        campaign_end_time: Some(NOW + DAY),
        ..no_update()
    };
    assert_eq!(
        handle_update_escrow(&mut escrow, &update_ctx(NOW), 9, input, &policy),
        Err(CampaignTreasuryManagerError::InvalidCampaignEndTime)
    );
    assert_eq!(escrow.authority, key(1));

    let mut ctx = update_ctx(NOW);
    ctx.payout_wallet_is_ata = false;
    assert_eq!(
        handle_update_escrow(&mut escrow, &ctx, 9, no_update(), &policy),
        Err(CampaignTreasuryManagerError::InvalidTreasuryEscrow)
    );
}

#[test]
fn new_schedule_is_held_against_the_new_campaign_end_time() {
    let policy = BufferTimes::production();
    let mut escrow = new_escrow();
    let new_end = NOW + 60 * DAY;
    let input = UpdateCampaignEscrowInput {
        campaign_end_time: Some(new_end),
        non_voting_payout_phases: Some(vec![plain(0, 10_000, END + 10 * DAY)]),
        ..no_update()
    };
    assert_eq!(
        handle_update_escrow(&mut escrow, &update_ctx(NOW), 1, input, &policy),
        Err(CampaignTreasuryManagerError::InvalidPayoutPhases)
    );
    let input = UpdateCampaignEscrowInput {
        campaign_end_time: Some(new_end),
        non_voting_payout_phases: Some(vec![plain(0, 10_000, new_end + 10 * DAY)]),
        ..no_update()
    };
    assert_eq!(
        handle_update_escrow(&mut escrow, &update_ctx(NOW), 1, input, &policy),
        Ok(())
    );
    assert_eq!(escrow.campaign_end_time, new_end);
}

#[test]
fn deposit_escrow_is_listed_once() {
    let mut escrow = new_escrow();
    assert_eq!(
        handle_create_deposit_escrow(&mut escrow, &mint(key(7)), 250),
        Ok(DepositEscrowCreation::Listed {
            create_account: true
        })
    );
    assert_eq!(escrow.deposit_escrow_infos.len(), 1);
    assert_eq!(escrow.deposit_escrow_infos[0].mint, key(7));
    assert_eq!(escrow.deposit_escrow_infos[0].deposit_escrow_bump, 250);
    assert!(!escrow.deposit_escrow_infos[0].closed);
    assert_eq!(
        handle_create_deposit_escrow(&mut escrow, &mint(key(7)), 1),
        Ok(DepositEscrowCreation::AlreadyListed)
    );
    assert_eq!(escrow.deposit_escrow_infos.len(), 1);
    assert_eq!(escrow.deposit_escrow_infos[0].deposit_escrow_bump, 250);
}

#[test]
fn deposit_escrow_of_the_native_currency_needs_no_account() {
    let mut escrow = new_escrow();
    assert_eq!(
        handle_create_deposit_escrow(&mut escrow, &mint(native_mint()), 250),
        Ok(DepositEscrowCreation::Listed {
            create_account: false
        })
    );
    assert_eq!(escrow.deposit_escrow_infos.len(), 1);
}

#[test]
fn deposit_escrow_for_the_currency_of_the_treasury_is_rejected() {
    let mut escrow = new_escrow();
    assert_eq!(
        handle_create_deposit_escrow(&mut escrow, &mint(key(4)), 250),
        Err(CampaignTreasuryManagerError::InvalidCreateDepositEscrowIx)
    );
    assert!(escrow.deposit_escrow_infos.is_empty());
}

#[test]
fn deposit_escrow_list_holds_four() {
    let mut escrow = new_escrow();
    for byte in 20..24u8 {
        assert!(handle_create_deposit_escrow(&mut escrow, &mint(key(byte)), byte).is_ok());
    }
    assert_eq!(escrow.deposit_escrow_infos.len(), 4);
    assert_eq!(
        handle_create_deposit_escrow(&mut escrow, &mint(key(24)), 24),
        Err(CampaignTreasuryManagerError::InvalidCreateDepositEscrowIx)
    );
    assert_eq!(escrow.deposit_escrow_infos.len(), 4);
    assert_eq!(
        handle_create_deposit_escrow(&mut escrow, &mint(key(21)), 0),
        Ok(DepositEscrowCreation::AlreadyListed)
    );
}

fn deposit_ctx(mint: Pubkey, deposit_escrow: Pubkey) -> CreateDeposit {
    CreateDeposit {
        previous_ix_program_id: Some(Pubkey {
            bytes: FORMFN_AUCTION_HOUSE_PROGRAM_ID,
        }),
        deposit_record_bump: 253,
        deposit_escrow,
        deposit_escrow_mint: mint,
        depositor: key(30),
        depositor_payment_account: key(31),
        mint: key(32),
    }
}

#[test]
fn deposit_in_the_currency_of_the_treasury_is_processed_at_once() {
    let mut escrow = new_escrow();
    escrow.treasury.total_funds = 5;
    let deposit = handle_create_deposit(&mut escrow, &deposit_ctx(key(4), key(5)), 1000)
        .unwrap()
        .unwrap();
    assert!(deposit.deposit_record.deposit_processed);
    assert_eq!(deposit.deposit_record.processed_deposit_amount, 1000);
    assert_eq!(deposit.deposit_record.initial_deposit_amount, 1000);
    assert_eq!(deposit.deposit_record.bump, 253);
    assert_eq!(deposit.deposit_record.mint, key(32));
    assert_eq!(deposit.deposit_record.depositor, key(30));
    assert_eq!(deposit.deposit_record.deposit_escrow_mint, key(4));
    assert_eq!(
        deposit.transfer,
        Transfer::Token {
            from: key(31),
            to: key(5),
            authority: key(30),
            amount: 1000
        }
    );
    assert_eq!(escrow.treasury.total_funds, 1005);
    assert_eq!(escrow.deposit_count, 1);
    assert_eq!(escrow.processed_deposit_count, 1);
}

fn deposit_escrow_address(campaign_uuid: &str, mint: &Pubkey) -> (Pubkey, u8) {
    let program_id = solana_program::pubkey::Pubkey::new_from_array(ID);
    let (address, bump) = solana_program::pubkey::Pubkey::find_program_address(
        &[b"deposit_escrow", campaign_uuid.as_bytes(), &mint.bytes],
        &program_id,
    );
    (
        Pubkey {
            bytes: address.to_bytes(),
        },
        bump,
    )
}

#[test]
fn deposit_in_another_currency_waits_for_its_conversion() {
    let mut escrow = new_escrow();
    escrow.treasury.total_funds = 5;
    let (address, bump) = deposit_escrow_address("campaign-1", &key(7));
    assert!(handle_create_deposit_escrow(&mut escrow, &mint(key(7)), bump).is_ok());
    let deposit = handle_create_deposit(&mut escrow, &deposit_ctx(key(7), address), 1000)
        .unwrap()
        .unwrap();
    assert!(!deposit.deposit_record.deposit_processed);
    assert_eq!(deposit.deposit_record.processed_deposit_amount, 0);
    assert_eq!(deposit.deposit_record.initial_deposit_amount, 1000);
    assert_eq!(deposit.deposit_record.deposit_escrow_mint, key(7));
    assert_eq!(
        deposit.transfer,
        Transfer::Token {
            from: key(31),
            to: address,
            authority: key(30),
            amount: 1000
        }
    );
    assert_eq!(escrow.treasury.total_funds, 5);
    assert_eq!(escrow.deposit_count, 1);
    assert_eq!(escrow.processed_deposit_count, 0);
}

#[test]
fn deposit_into_another_account_than_the_escrow_is_rejected() {
    let mut escrow = new_escrow();
    let (address, bump) = deposit_escrow_address("campaign-1", &key(7));
    assert!(handle_create_deposit_escrow(&mut escrow, &mint(key(7)), bump).is_ok());
    let rejected = Some(Err(CampaignTreasuryManagerError::PublicKeyMismatch));
    assert_eq!(
        handle_create_deposit(&mut escrow, &deposit_ctx(key(7), key(5)), 1000),
        rejected
    );
    assert_eq!(
        handle_create_deposit(&mut escrow, &deposit_ctx(key(7), key(7)), 1000),
        rejected
    );
    assert_eq!(
        handle_create_deposit(&mut escrow, &deposit_ctx(key(4), address), 1000),
        rejected
    );
    assert_eq!(escrow.deposit_count, 0);
    assert_eq!(escrow.treasury.total_funds, 0);

    let (other_address, _) = deposit_escrow_address("campaign-2", &key(7));
    assert_ne!(other_address, address);
    assert_eq!(
        handle_create_deposit(&mut escrow, &deposit_ctx(key(7), other_address), 1000),
        rejected
    );
}

#[test]
fn deposit_is_accepted_from_the_allowed_programs_only() {
    let mut escrow = new_escrow();
    let rejected = Some(Err(CampaignTreasuryManagerError::InvalidCpiInvocation));
    let mut ctx = deposit_ctx(key(4), key(5));
    ctx.previous_ix_program_id = None;
    assert_eq!(handle_create_deposit(&mut escrow, &ctx, 1000), rejected);
    ctx.previous_ix_program_id = Some(key(9));
    assert_eq!(handle_create_deposit(&mut escrow, &ctx, 1000), rejected);
    ctx.deposit_escrow_mint = key(7);
    assert_eq!(handle_create_deposit(&mut escrow, &ctx, 1000), rejected);
    assert_eq!(escrow.deposit_count, 0);
}

#[test]
fn native_deposit_is_paid_by_the_depositor() {
    let mut escrow = new_escrow();
    escrow.treasury.treasury_mint = native_mint();
    let mut ctx = deposit_ctx(native_mint(), key(5));
    assert_eq!(
        handle_create_deposit(&mut escrow, &ctx, 10),
        Some(Err(CampaignTreasuryManagerError::PublicKeyMismatch))
    );
    ctx.depositor_payment_account = key(30);
    let deposit = handle_create_deposit(&mut escrow, &ctx, 10).unwrap().unwrap();
    assert_eq!(
        deposit.transfer,
        Transfer::Native {
            from: key(30),
            to: key(5),
            amount: 10
        }
    );
    assert_eq!(escrow.treasury.total_funds, 10);
}

#[test]
fn deposit_that_cannot_be_carried_out() {
    let mut escrow = new_escrow();
    assert_eq!(
        handle_create_deposit(&mut escrow, &deposit_ctx(key(7), key(40)), 1),
        None
    );
    escrow.deposit_count = u64::MAX;
    assert_eq!(
        handle_create_deposit(&mut escrow, &deposit_ctx(key(4), key(5)), 1),
        None
    );
    assert_eq!(
        handle_create_deposit(&mut escrow, &deposit_ctx(key(4), key(6)), 1),
        Some(Err(CampaignTreasuryManagerError::PublicKeyMismatch))
    );
    escrow.deposit_count = 3;
    escrow.processed_deposit_count = 3;
    escrow.treasury.total_funds = u64::MAX - 1;
    assert_eq!(
        handle_create_deposit(&mut escrow, &deposit_ctx(key(4), key(5)), 2),
        None
    );
    assert_eq!(escrow.deposit_count, 3);
    assert_eq!(escrow.treasury.total_funds, u64::MAX - 1);
    assert!(matches!(
        handle_create_deposit(&mut escrow, &deposit_ctx(key(4), key(5)), 1),
        Some(Ok(_))
    ));
    assert_eq!(escrow.treasury.total_funds, u64::MAX);
    assert_eq!(escrow.deposit_count, 4);
    assert_eq!(escrow.processed_deposit_count, 4);
}

#[test]
fn deposit_with_the_address_handed_in() {
    let mut escrow = new_escrow();
    assert!(handle_create_deposit_escrow(&mut escrow, &mint(key(7)), 250).is_ok());
    let ctx = deposit_ctx(key(7), key(40));
    let deposit =
        handle_create_deposit_with_escrow(&mut escrow, &ctx, 9, Some(key(40))).unwrap();
    assert!(!deposit.deposit_record.deposit_processed);
    assert_eq!(escrow.deposit_count, 1);
    assert_eq!(
        handle_create_deposit_with_escrow(&mut escrow, &ctx, 9, Some(key(41))).err(),
        Some(CampaignTreasuryManagerError::PublicKeyMismatch)
    );
    assert_eq!(escrow.deposit_count, 1);
}

#[test]
fn payout_of_half_of_a_thousand_is_five_hundred() {
    let mut escrow = new_escrow();
    escrow.treasury.total_funds = 1000;
    let payout = handle_pay_out_funds(&mut escrow, &at(END + 10 * DAY)).unwrap();
    assert_eq!(payout.payout_amount, 500);
    assert_eq!(payout.payout_index, 0);
    assert_eq!(payout.treasury_escrow, key(5));
    assert_eq!(payout.payout_wallet, key(3));
    assert!(!payout.native);
    assert!(escrow.payout_phases.non_voting_payout_phases[0].is_paid_out);
    assert!(!escrow.payout_phases.voting_payout_phases[0].is_paid_out);
    assert_eq!(escrow.treasury.total_funds, 1000);
}

#[test]
fn payouts_follow_the_schedule_in_order() {
    let mut escrow = new_escrow();
    escrow.treasury.total_funds = 1001;
    let rejected = Some(CampaignTreasuryManagerError::InvalidPayoutRequest);
    assert_eq!(
        handle_pay_out_funds(&mut escrow, &at(END + 10 * DAY - 1)).err(),
        rejected
    );
    let first = handle_pay_out_funds(&mut escrow, &at(END + 10 * DAY)).unwrap();
    assert_eq!((first.payout_index, first.payout_amount), (0, 500));
    assert_eq!(
        handle_pay_out_funds(&mut escrow, &at(END + 100 * DAY - 1)).err(),
        rejected
    );
    let second = handle_pay_out_funds(&mut escrow, &at(END + 100 * DAY)).unwrap();
    assert_eq!((second.payout_index, second.payout_amount), (1, 500));
    assert_eq!(handle_pay_out_funds(&mut escrow, &at(i64::MAX)).err(), rejected);
}

#[test]
fn payout_of_a_native_treasury() {
    let mut escrow = new_escrow();
    escrow.treasury.treasury_mint = native_mint();
    escrow.treasury.total_funds = 7;
    let payout = handle_pay_out_funds(&mut escrow, &at(i64::MAX)).unwrap();
    assert!(payout.native);
    assert_eq!(payout.payout_amount, 3);
}

#[test]
fn vetoed_phase_is_not_paid_out() {
    let mut escrow = new_escrow();
    escrow.treasury.total_funds = 1000;
    assert_eq!(
        handle_veto_payout_phase(&mut escrow, &by(account(1, true)), 0),
        Ok(())
    );
    assert!(escrow.payout_phases.non_voting_payout_phases[0].is_vetoed_by_authority);
    assert_eq!(
        handle_pay_out_funds(&mut escrow, &at(i64::MAX)).err(),
        Some(CampaignTreasuryManagerError::InvalidPayoutRequest)
    );
    assert!(!escrow.payout_phases.non_voting_payout_phases[0].is_paid_out);
    assert!(!escrow.payout_phases.voting_payout_phases[0].is_paid_out);
    let active = escrow
        .payout_phases
        .get_current_active_payout_phase_for_payout()
        .unwrap();
    assert_eq!(active.get_index(), 0);
}

#[test]
fn veto_of_a_later_phase_stops_the_payouts_there() {
    let mut escrow = new_escrow();
    escrow.treasury.total_funds = 1000;
    assert_eq!(
        handle_veto_payout_phase(&mut escrow, &by(account(1, true)), 1),
        Ok(())
    );
    assert!(handle_pay_out_funds(&mut escrow, &at(i64::MAX)).is_ok());
    assert_eq!(
        handle_pay_out_funds(&mut escrow, &at(i64::MAX)).err(),
        Some(CampaignTreasuryManagerError::InvalidPayoutRequest)
    );
}

#[test]
fn veto_needs_the_authority() {
    let mut escrow = new_escrow();
    assert_eq!(
        handle_veto_payout_phase(&mut escrow, &by(account(1, false)), 0),
        Err(CampaignTreasuryManagerError::MissingSigner)
    );
    assert_eq!(
        handle_veto_payout_phase(&mut escrow, &by(account(2, true)), 0),
        Err(CampaignTreasuryManagerError::AuthorityMismatch)
    );
    assert!(!escrow.payout_phases.non_voting_payout_phases[0].is_vetoed_by_authority);
    assert_eq!(
        handle_veto_payout_phase(&mut escrow, &by(account(1, true)), 9),
        Ok(())
    );
    assert!(!escrow.payout_phases.non_voting_payout_phases[0].is_vetoed_by_authority);
    assert!(!escrow.payout_phases.voting_payout_phases[0].is_vetoed_by_authority);
}

fn paid_out_escrow() -> CampaignEscrow {
    let mut escrow = new_escrow();
    assert!(handle_pay_out_funds(&mut escrow, &at(i64::MAX)).is_ok());
    assert!(handle_pay_out_funds(&mut escrow, &at(i64::MAX)).is_ok());
    escrow
}

const LAST_REFUND_DEADLINE: i64 = END + 131 * DAY;

fn close_deposit_ctx(mint: Pubkey, now: i64) -> CloseDepositEscrow {
    CloseDepositEscrow {
        deposit_escrow_mint: mint,
        deposit_escrow_lamports: 0,
        deposit_escrow_tokens: 0,
        now,
    }
}

#[test]
fn deposit_escrow_is_closed_once_payouts_are_complete() {
    let policy = BufferTimes::production();
    let mut escrow = new_escrow();
    assert!(handle_create_deposit_escrow(&mut escrow, &mint(key(7)), 250).is_ok());
    assert!(handle_create_deposit_escrow(&mut escrow, &mint(native_mint()), 251).is_ok());
    let late = LAST_REFUND_DEADLINE + 3 * DAY;
    assert_eq!(
        handle_close_deposit_escrow(&mut escrow, &close_deposit_ctx(key(7), late), &policy),
        Err(CampaignTreasuryManagerError::InvalidCloseEscrow)
    );
    assert!(handle_pay_out_funds(&mut escrow, &at(i64::MAX)).is_ok());
    assert!(handle_pay_out_funds(&mut escrow, &at(i64::MAX)).is_ok());
    assert_eq!(
        handle_close_deposit_escrow(&mut escrow, &close_deposit_ctx(key(7), late - 1), &policy),
        Err(CampaignTreasuryManagerError::InvalidCloseEscrow)
    );
    assert!(!escrow.deposit_escrow_infos[0].closed);
    assert_eq!(
        handle_close_deposit_escrow(&mut escrow, &close_deposit_ctx(key(7), late), &policy),
        Ok(EscrowClosing::Token)
    );
    assert!(escrow.deposit_escrow_infos[0].closed);
    assert!(!escrow.deposit_escrow_infos[1].closed);
    assert_eq!(
        handle_close_deposit_escrow(
            &mut escrow,
            &close_deposit_ctx(native_mint(), late),
            &policy
        ),
        Ok(EscrowClosing::System { bump: 251 })
    );
    assert!(escrow.deposit_escrow_infos[1].closed);
}

#[test]
fn deposit_escrow_must_be_empty_to_be_closed() {
    let policy = BufferTimes::production();
    let mut escrow = paid_out_escrow();
    assert!(handle_create_deposit_escrow(&mut escrow, &mint(key(7)), 250).is_ok());
    assert!(handle_create_deposit_escrow(&mut escrow, &mint(native_mint()), 251).is_ok());
    let late = LAST_REFUND_DEADLINE + 3 * DAY;
    let not_empty = Err(CampaignTreasuryManagerError::DepositEscrowAccountNotEmpty);

    let mut ctx = close_deposit_ctx(key(7), late);
    ctx.deposit_escrow_tokens = 1;
    assert_eq!(handle_close_deposit_escrow(&mut escrow, &ctx, &policy), not_empty);
    ctx.deposit_escrow_tokens = 0;
    ctx.deposit_escrow_lamports = 2_039_280;
    assert_eq!(
        handle_close_deposit_escrow(&mut escrow, &ctx, &policy),
        Ok(EscrowClosing::Token)
    );

    let mut ctx = close_deposit_ctx(native_mint(), late);
    ctx.deposit_escrow_lamports = 1;
    assert_eq!(handle_close_deposit_escrow(&mut escrow, &ctx, &policy), not_empty);
    assert!(!escrow.deposit_escrow_infos[1].closed);
    ctx.deposit_escrow_lamports = 0;
    ctx.deposit_escrow_tokens = 5;
    assert_eq!(
        handle_close_deposit_escrow(&mut escrow, &ctx, &policy),
        Ok(EscrowClosing::System { bump: 251 })
    );
}

fn close_ctx(now: i64) -> CloseEscrow {
    CloseEscrow {
        authority: account(1, true),
        creator: account(2, false),
        treasury_escrow_tokens: 0,
        now,
    }
}

#[test]
fn escrow_is_closed_once_everything_is_settled() {
    let policy = BufferTimes::production();
    let late = LAST_REFUND_DEADLINE + 3 * DAY;
    let mut escrow = new_escrow();
    let rejected = Err(CampaignTreasuryManagerError::InvalidCloseEscrow);
    assert_eq!(handle_close_escrow(&escrow, &close_ctx(late), &policy), rejected);
    assert!(handle_pay_out_funds(&mut escrow, &at(i64::MAX)).is_ok());
    assert!(handle_pay_out_funds(&mut escrow, &at(i64::MAX)).is_ok());
    assert_eq!(
        handle_close_escrow(&escrow, &close_ctx(late - 1), &policy),
        rejected
    );
    assert_eq!(
        handle_close_escrow(&escrow, &close_ctx(late), &policy),
        Ok(TreasuryClosing::Token)
    );
    escrow.treasury.treasury_mint = native_mint();
    assert_eq!(
        handle_close_escrow(&escrow, &close_ctx(late), &policy),
        Ok(TreasuryClosing::System)
    );
}

#[test]
fn escrow_is_not_closed_while_a_deposit_escrow_is_open() {
    let policy = BufferTimes::production();
    let late = LAST_REFUND_DEADLINE + 3 * DAY;
    let mut escrow = paid_out_escrow();
    assert!(handle_create_deposit_escrow(&mut escrow, &mint(key(7)), 250).is_ok());
    assert!(handle_create_deposit_escrow(&mut escrow, &mint(key(8)), 251).is_ok());
    let rejected = Err(CampaignTreasuryManagerError::InvalidCloseEscrow);
    assert_eq!(handle_close_escrow(&escrow, &close_ctx(late), &policy), rejected);
    assert!(
        handle_close_deposit_escrow(&mut escrow, &close_deposit_ctx(key(7), late), &policy).is_ok()
    );
    assert_eq!(handle_close_escrow(&escrow, &close_ctx(late), &policy), rejected);
    assert!(
        handle_close_deposit_escrow(&mut escrow, &close_deposit_ctx(key(8), late), &policy).is_ok()
    );
    assert_eq!(
        handle_close_escrow(&escrow, &close_ctx(late), &policy),
        Ok(TreasuryClosing::Token)
    );
}

#[test]
fn escrow_is_closed_by_its_governors_only() {
    let policy = BufferTimes::production();
    let late = LAST_REFUND_DEADLINE + 3 * DAY;
    let escrow = paid_out_escrow();
    let mut ctx = close_ctx(late);
    ctx.authority.is_signer = false;
    assert_eq!(
        handle_close_escrow(&escrow, &ctx, &policy),
        Err(CampaignTreasuryManagerError::MissingSigner)
    );
    ctx.creator.is_signer = true;
    assert_eq!(
        handle_close_escrow(&escrow, &ctx, &policy),
        Ok(TreasuryClosing::Token)
    );
    ctx.authority = account(9, true);
    assert_eq!(
        handle_close_escrow(&escrow, &ctx, &policy),
        Err(CampaignTreasuryManagerError::AuthorityMismatch)
    );
    let mut ctx = close_ctx(0);
    ctx.creator = account(9, true);
    assert_eq!(
        handle_close_escrow(&escrow, &ctx, &policy),
        Err(CampaignTreasuryManagerError::CreatorMismatch)
    );
}

#[test]
fn relaxed_policy_runs_a_whole_campaign() {
    let policy = BufferTimes::relaxed();
    let ctx = CreateEscrow {
        now: 100,
        treasury_mint: native_mint(),
        payout_wallet_owner: key(3),
        payout_wallet_is_ata: false,
        ..create_ctx()
    };
    let input = CreateCampaignEscrowInput {
        campaign_end_time: 105,
        non_voting_payout_phases: vec![NonVotingPayoutPhaseInput {
            shared_fields: SharedPayoutPhaseFields {
                index: 0,
                payout_basis_points: 10_000,
                payout_time: 110,
                refund_deadline: 115,
                description: String::new(),
            },
        }],
        voting_payout_phases: vec![],
    };
    let mut escrow =
        handle_create_escrow(&ctx, String::from("relaxed"), 1, input, &policy).unwrap();
    let mut deposit = deposit_ctx(native_mint(), key(5));
    deposit.depositor_payment_account = key(30);
    assert!(matches!(
        handle_create_deposit(&mut escrow, &deposit, 900),
        Some(Ok(_))
    ));
    assert!(handle_pay_out_funds(&mut escrow, &at(109)).is_err());
    let payout = handle_pay_out_funds(&mut escrow, &at(110)).unwrap();
    assert_eq!(payout.payout_amount, 900);
    assert!(payout.native);
    assert!(handle_close_escrow(&escrow, &close_ctx(116), &policy).is_err());
    assert_eq!(
        handle_close_escrow(&escrow, &close_ctx(117), &policy),
        Ok(TreasuryClosing::System)
    );
}

#[test]
fn deposit_is_checked_counted_and_recorded_step_by_step() {
    let mut escrow = new_escrow();
    let ctx = deposit_ctx(key(4), key(5));
    assert_eq!(
        assert_deposit_is_valid(&escrow, &ctx, 8, None),
        Ok(Transfer::Token {
            from: key(31),
            to: key(5),
            authority: key(30),
            amount: 8
        })
    );
    assert_eq!(
        assert_deposit_is_valid(&escrow, &deposit_ctx(key(4), key(6)), 8, None),
        Err(CampaignTreasuryManagerError::PublicKeyMismatch)
    );
    assert_eq!(
        assert_deposit_is_valid(&escrow, &deposit_ctx(key(7), key(6)), 8, Some(key(6))),
        Ok(Transfer::Token {
            from: key(31),
            to: key(6),
            authority: key(30),
            amount: 8
        })
    );
    assert!(has_room_for_deposit(&escrow, &ctx, u64::MAX));
    escrow.treasury.total_funds = 1;
    assert!(!has_room_for_deposit(&escrow, &ctx, u64::MAX));
    assert!(has_room_for_deposit(&escrow, &deposit_ctx(key(7), key(6)), u64::MAX));
    escrow.processed_deposit_count = u64::MAX;
    assert!(!has_room_for_deposit(&escrow, &ctx, 1));
    assert!(has_room_for_deposit(&escrow, &deposit_ctx(key(7), key(6)), 1));
    escrow.processed_deposit_count = 0;

    let record = record_deposit(&mut escrow, &ctx, 8);
    assert!(record.deposit_processed);
    assert_eq!(record.processed_deposit_amount, 8);
    assert_eq!(escrow.treasury.total_funds, 9);
    assert_eq!(escrow.deposit_count, 1);
    assert_eq!(escrow.processed_deposit_count, 1);
    let record = record_deposit(&mut escrow, &deposit_ctx(key(7), key(6)), 8);
    assert!(!record.deposit_processed);
    assert_eq!(record.processed_deposit_amount, 0);
    assert_eq!(record.initial_deposit_amount, 8);
    assert_eq!(escrow.treasury.total_funds, 9);
    assert_eq!(escrow.deposit_count, 2);
    assert_eq!(escrow.processed_deposit_count, 1);
}
