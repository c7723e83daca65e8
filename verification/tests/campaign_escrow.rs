use campaign_treasury_manager::account_info::{AccountInfo, TokenAccount};
use campaign_treasury_manager::errors::CampaignTreasuryManagerError;
use campaign_treasury_manager::pubkey::Pubkey;
use campaign_treasury_manager::state::campaign_escrow::{
    CampaignEscrow, DepositEscrowInfo, Treasury,
};
use campaign_treasury_manager::state::deposit_record::DepositRecord;
use campaign_treasury_manager::state::payout_phases::{
    NonVotingPayoutPhase, PayoutPhases, SharedPayoutPhaseFields, VotingPayoutPhase,
};
use campaign_treasury_manager::utils::buffer_times::BufferTimes;
use campaign_treasury_manager::utils::utils::{
    assert_initialized, assert_is_ata, assert_keys_equal, assert_owned_by,
    assert_treasury_escrow_is_valid, assert_valid_escrow_management_signers,
    create_deposit_escrow_account, create_or_allocate_account_raw,
    create_program_token_account_if_not_present, create_treasury_escrow_and_assert_is_valid,
    transfer_funds, Transfer, TreasuryEscrowSetup,
};

const DAY: i64 = 86_400;

fn key(byte: u8) -> Pubkey {
    Pubkey { bytes: [byte; 32] }
}

fn native_mint() -> Pubkey {
    Pubkey {
        bytes: spl_token::native_mint::id().to_bytes(),
    }
}

fn token_program() -> Pubkey {
    Pubkey {
        bytes: spl_token::id().to_bytes(),
    }
}

fn account(key_byte: u8, is_signer: bool) -> AccountInfo {
    AccountInfo {
        key: key(key_byte),
        owner: key(0),
        is_signer,
        lamports: 0,
        data: vec![],
    }
}

fn phase(index: u8, basis_points: u16, payout_day: i64) -> SharedPayoutPhaseFields {
    SharedPayoutPhaseFields {
        index,
        payout_basis_points: basis_points,
        payout_time: payout_day * DAY,
        refund_deadline: (payout_day + 31) * DAY,
        description: String::from("phase"),
    }
}

fn two_phases() -> PayoutPhases {
    PayoutPhases {
        non_voting_payout_phases: vec![NonVotingPayoutPhase {
            shared_fields: phase(0, 5000, 10),
            is_paid_out: false,
            is_vetoed_by_authority: false,
        }],
        voting_payout_phases: vec![VotingPayoutPhase {
            shared_fields: phase(1, 5000, 100),
            is_paid_out: false,
            is_vetoed_by_authority: false,
            voting_start_time: 0,
            veto_votes: 0,
            vote_basis_points_veto_threshold: 80,
        }],
    }
}

fn escrow_with(payout_phases: PayoutPhases) -> CampaignEscrow {
    CampaignEscrow {
        bump: 255,
        campaign_uuid: String::from("campaign-1"),
        authority: key(1),
        creator: key(2),
        payout_wallet: key(3),
        treasury: Treasury {
            bump: 254,
            treasury_mint: key(4),
            treasury_escrow: key(5),
            total_funds: 0,
        },
        deposit_escrow_infos: vec![],
        campaign_end_time: 0,
        deposit_count: 0,
        processed_deposit_count: 0,
        closed_deposit_record_count: 0,
        payouts_ready: false,
        payout_phases,
    }
}

#[test]
fn counters_count_up() {
    let mut escrow = escrow_with(PayoutPhases::default());
    escrow.increment_deposit_count();
    escrow.increment_deposit_count();
    escrow.increment_processed_deposit_count();
    escrow.increment_total_funds(40);
    escrow.increment_total_funds(2);
    assert_eq!(escrow.deposit_count, 2);
    assert_eq!(escrow.processed_deposit_count, 1);
    assert_eq!(escrow.treasury.total_funds, 42);
    assert_eq!(escrow.closed_deposit_record_count, 0);
    escrow.treasury.total_funds = u64::MAX - 1;
    escrow.increment_total_funds(1);
    assert_eq!(escrow.treasury.total_funds, u64::MAX);
}

#[test]
fn payout_amount_of_half_of_a_thousand() {
    let mut escrow = escrow_with(PayoutPhases::default());
    escrow.treasury.total_funds = 1000;
    assert_eq!(escrow.calculate_payout_amount_from_payout_basis_points(5000), 500);
}

#[test]
fn payout_amount_rounds_down_and_takes_the_product_in_full() {
    let mut escrow = escrow_with(PayoutPhases::default());
    escrow.treasury.total_funds = 1000;
    assert_eq!(escrow.calculate_payout_amount_from_payout_basis_points(0), 0);
    assert_eq!(escrow.calculate_payout_amount_from_payout_basis_points(1), 0);
    assert_eq!(escrow.calculate_payout_amount_from_payout_basis_points(10), 1);
    assert_eq!(escrow.calculate_payout_amount_from_payout_basis_points(3333), 333);
    assert_eq!(escrow.calculate_payout_amount_from_payout_basis_points(10_000), 1000);
    escrow.treasury.total_funds = 3;
    assert_eq!(escrow.calculate_payout_amount_from_payout_basis_points(5000), 1);
    assert_eq!(escrow.calculate_payout_amount_from_payout_basis_points(9999), 2);
    escrow.treasury.total_funds = u64::MAX;
    assert_eq!(
        escrow.calculate_payout_amount_from_payout_basis_points(10_000),
        u64::MAX
    );
    assert_eq!(
        escrow.calculate_payout_amount_from_payout_basis_points(5000),
        u64::MAX / 2
    );
}

#[test]
fn deposit_escrows_are_listed_found_and_closed() {
    let mut escrow = escrow_with(PayoutPhases::default());
    assert!(escrow.get_deposit_escrow_info(&key(7)).is_none());
    escrow.add_deposit_escrow_info(key(7), 250);
    escrow.add_deposit_escrow_info(key(8), 251);
    assert_eq!(CampaignEscrow::DEPOSIT_ESCROW_INFOS_MAX_LEN, 4);
    assert_eq!(CampaignEscrow::PREFIX, "campaign_escrow");
    assert_eq!(DepositRecord::PREFIX, "deposit_record");
    assert_eq!(
        escrow.get_deposit_escrow_info(&key(8)),
        Some(&DepositEscrowInfo {
            deposit_escrow_bump: 251,
            mint: key(8),
            closed: false
        })
    );
    assert!(escrow.get_deposit_escrow_info(&key(9)).is_none());
    escrow.mark_deposit_escrow_as_closed(&key(9));
    assert!(escrow.deposit_escrow_infos.iter().all(|info| !info.closed));
    escrow.mark_deposit_escrow_as_closed(&key(7));
    assert!(escrow.deposit_escrow_infos[0].closed);
    assert!(!escrow.deposit_escrow_infos[1].closed);
    assert_eq!(escrow.deposit_escrow_infos.len(), 2);
    assert_eq!(escrow.deposit_escrow_infos[0].deposit_escrow_bump, 250);
}

#[test]
fn payouts_are_complete_once_all_are_made_and_the_refund_time_is_over() {
    let policy = BufferTimes::production();
    let rejected = Err(CampaignTreasuryManagerError::InvalidCloseEscrow);
    let mut escrow = escrow_with(two_phases());
    let last_refund_deadline = 131 * DAY;
    let late = last_refund_deadline + 3 * DAY;
    assert_eq!(escrow.assert_all_payouts_are_complete(late, &policy), rejected);
    escrow.payout_phases.mark_current_active_payout_phase_as_disbursed();
    assert_eq!(escrow.assert_all_payouts_are_complete(late, &policy), rejected);
    escrow.payout_phases.mark_current_active_payout_phase_as_disbursed();
    assert_eq!(escrow.assert_all_payouts_are_complete(late, &policy), Ok(()));
    assert_eq!(escrow.assert_all_payouts_are_complete(late - 1, &policy), rejected);
    assert_eq!(
        escrow.assert_all_payouts_are_complete(i64::MAX, &policy),
        Ok(())
    );
}

#[test]
fn campaign_without_phases_has_its_payouts_complete() {
    let escrow = escrow_with(PayoutPhases::default());
    assert_eq!(
        escrow.assert_all_payouts_are_complete(0, &BufferTimes::production()),
        Ok(())
    );
    assert_eq!(
        escrow.assert_can_close_campaign_escrow(i64::MIN, &BufferTimes::production()),
        Ok(())
    );
}

#[test]
fn open_deposit_escrow_blocks_the_closing() {
    let policy = BufferTimes::production();
    let mut escrow = escrow_with(two_phases());
    escrow.payout_phases.mark_current_active_payout_phase_as_disbursed();
    escrow.payout_phases.mark_current_active_payout_phase_as_disbursed();
    escrow.add_deposit_escrow_info(key(7), 250);
    escrow.add_deposit_escrow_info(key(8), 251);
    let late = 200 * DAY;
    assert_eq!(escrow.assert_all_payouts_are_complete(late, &policy), Ok(()));
    assert_eq!(
        escrow.assert_can_close_campaign_escrow(late, &policy),
        Err(CampaignTreasuryManagerError::InvalidCloseEscrow)
    );
    escrow.mark_deposit_escrow_as_closed(&key(7));
    assert_eq!(
        escrow.assert_can_close_campaign_escrow(late, &policy),
        Err(CampaignTreasuryManagerError::InvalidCloseEscrow)
    );
    escrow.mark_deposit_escrow_as_closed(&key(8));
    assert_eq!(escrow.assert_can_close_campaign_escrow(late, &policy), Ok(()));
}

#[test]
fn keys_are_held_equal_or_rejected_with_the_error_given() {
    assert_eq!(assert_keys_equal(&key(1), &key(1), None), Ok(()));
    assert_eq!(
        assert_keys_equal(&key(1), &key(2), None),
        Err(CampaignTreasuryManagerError::PublicKeyMismatch)
    );
    assert_eq!(
        assert_keys_equal(
            &key(1),
            &key(2),
            Some(CampaignTreasuryManagerError::InvalidTreasuryEscrow)
        ),
        Err(CampaignTreasuryManagerError::InvalidTreasuryEscrow)
    );
    assert_eq!(
        assert_keys_equal(
            &key(1),
            &key(1),
            Some(CampaignTreasuryManagerError::InvalidTreasuryEscrow)
        ),
        Ok(())
    );
}

#[test]
fn owner_of_an_account_is_checked() {
    let mut held = account(1, false);
    held.owner = key(9);
    assert_eq!(assert_owned_by(&held, &key(9)), Ok(()));
    assert_eq!(
        assert_owned_by(&held, &key(8)),
        Err(CampaignTreasuryManagerError::IncorrectOwner)
    );
    assert!(held.data_is_empty());
    held.data = vec![0];
    assert!(!held.data_is_empty());
}

#[test]
fn signers_of_a_new_escrow() {
    assert_eq!(
        assert_valid_escrow_management_signers(&account(2, false), &account(1, false), None),
        Err(CampaignTreasuryManagerError::MissingSigner)
    );
    assert_eq!(
        assert_valid_escrow_management_signers(&account(2, true), &account(1, false), None),
        Ok(())
    );
    assert_eq!(
        assert_valid_escrow_management_signers(&account(2, false), &account(1, true), None),
        Ok(())
    );
}

#[test]
fn signers_of_an_escrow_that_exists() {
    let escrow = escrow_with(PayoutPhases::default());
    assert_eq!(
        assert_valid_escrow_management_signers(
            &account(2, false),
            &account(1, true),
            Some(&escrow)
        ),
        Ok(())
    );
    assert_eq!(
        assert_valid_escrow_management_signers(
            &account(2, true),
            &account(9, true),
            Some(&escrow)
        ),
        Err(CampaignTreasuryManagerError::AuthorityMismatch)
    );
    assert_eq!(
        assert_valid_escrow_management_signers(
            &account(9, true),
            &account(1, true),
            Some(&escrow)
        ),
        Err(CampaignTreasuryManagerError::CreatorMismatch)
    );
    assert_eq!(
        assert_valid_escrow_management_signers(
            &account(9, true),
            &account(8, true),
            Some(&escrow)
        ),
        Err(CampaignTreasuryManagerError::AuthorityMismatch)
    );
    assert_eq!(
        assert_valid_escrow_management_signers(
            &account(9, false),
            &account(8, false),
            Some(&escrow)
        ),
        Err(CampaignTreasuryManagerError::MissingSigner)
    );
}

#[test]
fn native_treasury_needs_a_payout_wallet_that_is_its_own_owner() {
    let nothing = TreasuryEscrowSetup {
        create_treasury_escrow: false,
        create_payout_wallet: false,
        verify_payout_wallet: false,
    };
    assert_eq!(
        create_treasury_escrow_and_assert_is_valid(
            &account(5, false),
            &native_mint(),
            &account(3, false),
            &key(3)
        ),
        Ok(nothing)
    );
    assert_eq!(
        create_treasury_escrow_and_assert_is_valid(
            &account(5, false),
            &native_mint(),
            &account(3, false),
            &key(6)
        ),
        Err(CampaignTreasuryManagerError::InvalidTreasuryEscrow)
    );
    assert_eq!(
        assert_treasury_escrow_is_valid(&native_mint(), &key(3), &key(3), false),
        Ok(())
    );
    assert_eq!(
        assert_treasury_escrow_is_valid(&native_mint(), &key(3), &key(6), true),
        Err(CampaignTreasuryManagerError::InvalidTreasuryEscrow)
    );
}

#[test]
fn token_treasury_needs_token_accounts() {
    let mut payout_wallet = account(3, false);
    assert_eq!(
        create_treasury_escrow_and_assert_is_valid(
            &account(5, false),
            &key(4),
            &payout_wallet,
            &key(6)
        ),
        Ok(TreasuryEscrowSetup {
            create_treasury_escrow: true,
            create_payout_wallet: true,
            verify_payout_wallet: true,
        })
    );
    payout_wallet.data = vec![1; 165];
    let mut treasury_escrow = account(5, false);
    treasury_escrow.data = vec![1; 165];
    assert_eq!(
        create_treasury_escrow_and_assert_is_valid(
            &treasury_escrow,
            &key(4),
            &payout_wallet,
            &key(6)
        ),
        Ok(TreasuryEscrowSetup {
            create_treasury_escrow: false,
            create_payout_wallet: false,
            verify_payout_wallet: true,
        })
    );
    assert_eq!(
        assert_treasury_escrow_is_valid(&key(4), &key(3), &key(6), true),
        Ok(())
    );
    assert_eq!(
        assert_treasury_escrow_is_valid(&key(4), &key(3), &key(3), false),
        Err(CampaignTreasuryManagerError::InvalidTreasuryEscrow)
    );
}

#[test]
fn accounts_are_created_for_tokens_only_and_only_once() {
    let empty = account(5, false);
    let mut used = account(5, false);
    used.data = vec![0; 165];
    assert!(create_program_token_account_if_not_present(&empty, &key(4)));
    assert!(!create_program_token_account_if_not_present(&used, &key(4)));
    assert!(!create_program_token_account_if_not_present(&empty, &native_mint()));
    assert!(create_deposit_escrow_account(&empty, &key(4)));
    assert!(!create_deposit_escrow_account(&used, &key(4)));
    assert!(!create_deposit_escrow_account(&empty, &native_mint()));
}

#[test]
fn new_account_is_paid_what_it_lacks() {
    assert_eq!(create_or_allocate_account_raw(2_039_280, 0), 2_039_280);
    assert_eq!(create_or_allocate_account_raw(2_039_280, 39_280), 2_000_000);
    assert_eq!(create_or_allocate_account_raw(2_039_280, 2_039_280), 0);
    assert_eq!(create_or_allocate_account_raw(2_039_280, u64::MAX), 0);
    assert_eq!(create_or_allocate_account_raw(0, 0), 1);
    assert_eq!(create_or_allocate_account_raw(0, 1), 0);
    assert_eq!(create_or_allocate_account_raw(u64::MAX, 0), u64::MAX);
}

#[test]
fn native_currency_is_paid_by_the_source_itself() {
    assert_eq!(
        transfer_funds(&key(1), &key(2), &key(1), &native_mint(), 77),
        Ok(Transfer::Native {
            from: key(1),
            to: key(2),
            amount: 77
        })
    );
    assert_eq!(
        transfer_funds(&key(1), &key(2), &key(3), &native_mint(), 77),
        Err(CampaignTreasuryManagerError::PublicKeyMismatch)
    );
}

#[test]
fn tokens_are_paid_from_the_payment_account() {
    assert_eq!(
        transfer_funds(&key(1), &key(2), &key(3), &key(4), 77),
        Ok(Transfer::Token {
            from: key(3),
            to: key(2),
            authority: key(1),
            amount: 77
        })
    );
}

fn token_account(owner: u8, is_initialized: bool) -> TokenAccount {
    TokenAccount {
        mint: key(4),
        owner: key(owner),
        amount: 12,
        is_initialized,
    }
}

#[test]
fn token_account_must_be_initialised() {
    assert_eq!(
        assert_initialized(token_account(1, true)),
        Ok(token_account(1, true))
    );
    assert_eq!(
        assert_initialized(token_account(1, false)),
        Err(CampaignTreasuryManagerError::UninitializedAccount)
    );
}

#[test]
fn associated_token_account_is_checked_step_by_step() {
    let mut ata = account(20, false);
    ata.owner = token_program();
    assert_eq!(
        assert_is_ata(&ata, token_account(1, true), &key(1), &key(20)),
        Ok(token_account(1, true))
    );
    let mut foreign = account(20, false);
    foreign.owner = key(0);
    assert_eq!(
        assert_is_ata(&foreign, token_account(1, false), &key(2), &key(21)),
        Err(CampaignTreasuryManagerError::IncorrectOwner)
    );
    assert_eq!(
        assert_is_ata(&ata, token_account(1, false), &key(2), &key(21)),
        Err(CampaignTreasuryManagerError::UninitializedAccount)
    );
    assert_eq!(
        assert_is_ata(&ata, token_account(1, true), &key(2), &key(20)),
        Err(CampaignTreasuryManagerError::PublicKeyMismatch)
    );
    assert_eq!(
        assert_is_ata(&ata, token_account(1, true), &key(1), &key(21)),
        Err(CampaignTreasuryManagerError::PublicKeyMismatch)
    );
}
