//! The checks that the operations on a campaign's treasury share.

use vstd::prelude::*;
use crate::account_info::{AccountInfo, TokenAccount};
use crate::errors::CampaignTreasuryManagerError;
use crate::pubkey::{
    cmp_pubkeys, is_native_mint, native_mint, token_program, token_program_id, Pubkey,
};
use crate::state::campaign_escrow::CampaignEscrow;
use crate::state::payout_phases::PayoutPhaseEnum;
use crate::utils::buffer_times::{
    max_time_buffer_holds, min_time_buffer_holds, Buffer, BufferTimes,
};

verus! {

/// Accepts an account that the program `owner` owns.
pub fn assert_owned_by(account: &AccountInfo, owner: &Pubkey) -> (result: Result<
    (),
    CampaignTreasuryManagerError,
>)
    ensures
        result is Ok <==> account.owner@ == owner@,
        result is Err ==> result == Err::<(), _>(CampaignTreasuryManagerError::IncorrectOwner),
{
    if !cmp_pubkeys(&account.owner, owner) {
        Err(CampaignTreasuryManagerError::IncorrectOwner)
    } else {
        Ok(())
    }
}

/// Accepts a token account that was initialised, and hands it back.
pub fn assert_initialized(account: TokenAccount) -> (result: Result<
    TokenAccount,
    CampaignTreasuryManagerError,
>)
    ensures
        result == (if account.is_initialized {
            Ok::<_, CampaignTreasuryManagerError>(account)
        } else {
            Err(CampaignTreasuryManagerError::UninitializedAccount)
        }),
{
    if !account.is_initialized {
        Err(CampaignTreasuryManagerError::UninitializedAccount)
    } else {
        Ok(account)
    }
}

/// Why an account is not taken for the token account of `wallet` that
/// belongs to it for one currency, if it is not. `ata_account` is what the
/// account holds, read as a token account, and `associated_token_address`
/// the address that belongs to the wallet for that currency. The reasons are
/// tried in this order: the token program does not own the account; it was
/// not initialised; its tokens belong to another owner; its address is
/// another.
pub open spec fn ata_rejection(
    ata: &AccountInfo,
    ata_account: TokenAccount,
    wallet: Seq<u8>,
    associated_token_address: Seq<u8>,
) -> Option<CampaignTreasuryManagerError> {
    if ata.owner@ != token_program() {
        Some(CampaignTreasuryManagerError::IncorrectOwner)
    } else if !ata_account.is_initialized {
        Some(CampaignTreasuryManagerError::UninitializedAccount)
    } else if ata_account.owner@ != wallet {
        Some(CampaignTreasuryManagerError::PublicKeyMismatch)
    } else if associated_token_address != ata.key@ {
        Some(CampaignTreasuryManagerError::PublicKeyMismatch)
    } else {
        None
    }
}

/// Accepts the token account of `wallet` that belongs to it for one
/// currency, and hands back what it holds. `ata_account` is what the
/// account holds, read as a token account, and `associated_token_address`
/// the address that belongs to the wallet for that currency.
pub fn assert_is_ata(
    ata: &AccountInfo,
    ata_account: TokenAccount,
    wallet: &Pubkey,
    associated_token_address: &Pubkey,
) -> (result: Result<TokenAccount, CampaignTreasuryManagerError>)
    ensures
        result == (match ata_rejection(ata, ata_account, wallet@, associated_token_address@) {
            Some(error) => Err::<TokenAccount, _>(error),
            None => Ok(ata_account),
        }),
{
    let token_program = token_program_id();
    assert_owned_by(ata, &token_program)?;
    let ata_account = assert_initialized(ata_account)?;
    assert_keys_equal(&ata_account.owner, wallet, None)?;
    assert_keys_equal(associated_token_address, &ata.key, None)?;
    Ok(ata_account)
}

/// The error with which two keys that differ are rejected: the one
/// given, or that of a key mismatch where none is given.
pub open spec fn key_mismatch_error(
    error_code: Option<CampaignTreasuryManagerError>,
) -> CampaignTreasuryManagerError {
    match error_code {
        Some(error_code) => error_code,
        None => CampaignTreasuryManagerError::PublicKeyMismatch,
    }
}

/// Accepts two keys that are the same.
pub fn assert_keys_equal(
    key1: &Pubkey,
    key2: &Pubkey,
    error_code: Option<CampaignTreasuryManagerError>,
) -> (result: Result<(), CampaignTreasuryManagerError>)
    ensures
        result is Ok <==> key1@ == key2@,
        result is Err ==> result == Err::<(), _>(key_mismatch_error(error_code)),
{
    if !cmp_pubkeys(key1, key2) {
        match error_code {
            Some(error_code) => Err(error_code),
            None => Err(CampaignTreasuryManagerError::PublicKeyMismatch),
        }
    } else {
        Ok(())
    }
}

/// Why the signers of a request to manage a campaign escrow are turned
/// down, if they are: neither the creator nor the authority signed; or the
/// escrow exists and records another authority, or another creator.
pub open spec fn escrow_management_signers_rejection(
    creator: &AccountInfo,
    authority: &AccountInfo,
    campaign_escrow: Option<&CampaignEscrow>,
) -> Option<CampaignTreasuryManagerError> {
    if !creator.is_signer && !authority.is_signer {
        Some(CampaignTreasuryManagerError::MissingSigner)
    } else {
        match campaign_escrow {
            Some(campaign_escrow) => if authority.key@ != campaign_escrow.authority@ {
                Some(CampaignTreasuryManagerError::AuthorityMismatch)
            } else if creator.key@ != campaign_escrow.creator@ {
                Some(CampaignTreasuryManagerError::CreatorMismatch)
            } else {
                None
            },
            None => None,
        }
    }
}

/// Accepts the signers of a request to manage a campaign escrow: one of
/// the creator and the authority signed, and both are those that the
/// escrow records, where it exists already.
pub fn assert_valid_escrow_management_signers(
    creator: &AccountInfo,
    authority: &AccountInfo,
    campaign_escrow: Option<&CampaignEscrow>,
) -> (result: Result<(), CampaignTreasuryManagerError>)
    ensures
        result == (match escrow_management_signers_rejection(creator, authority, campaign_escrow) {
            Some(error) => Err::<(), _>(error),
            None => Ok(()),
        }),
{
    if !creator.is_signer && !authority.is_signer {
        return Err(CampaignTreasuryManagerError::MissingSigner);
    }
    if let Some(campaign_escrow) = campaign_escrow {
        if !cmp_pubkeys(&authority.key, &campaign_escrow.authority) {
            return Err(CampaignTreasuryManagerError::AuthorityMismatch);
        }
        if !cmp_pubkeys(&creator.key, &campaign_escrow.creator) {
            return Err(CampaignTreasuryManagerError::CreatorMismatch);
        }
    }
    Ok(())
}

/// What has to be done outside before a treasury can be used.
#[derive(Clone, Copy, Debug, PartialEq, Eq, Structural)]
pub struct TreasuryEscrowSetup {
    /// Whether the token account of the treasury escrow has to be created.
    pub create_treasury_escrow: bool,
    /// Whether the token account of the payout wallet has to be created.
    pub create_payout_wallet: bool,
    /// Whether the payout wallet has to be shown to be the token account
    /// of its owner for the currency of the treasury.
    pub verify_payout_wallet: bool,
}

/// Decides what a treasury in the currency `treasury_mint` needs. A
/// treasury in the native currency needs nothing but a payout wallet that
/// is its own owner. Any other needs a token account for the escrow and
/// one for the payout wallet: each is created where the account holds no
/// data yet, and the payout wallet is verified afterwards.
pub fn create_treasury_escrow_and_assert_is_valid(
    treasury_escrow: &AccountInfo,
    treasury_mint: &Pubkey,
    payout_wallet: &AccountInfo,
    payout_wallet_owner: &Pubkey,
) -> (result: Result<TreasuryEscrowSetup, CampaignTreasuryManagerError>)
    ensures
        result == (if treasury_mint@ == native_mint() {
            if payout_wallet.key@ == payout_wallet_owner@ {
                Ok::<_, CampaignTreasuryManagerError>(
                    TreasuryEscrowSetup {
                        create_treasury_escrow: false,
                        create_payout_wallet: false,
                        verify_payout_wallet: false,
                    },
                )
            } else {
                Err(CampaignTreasuryManagerError::InvalidTreasuryEscrow)
            }
        } else {
            Ok(
                TreasuryEscrowSetup {
                    create_treasury_escrow: treasury_escrow.data@.len() == 0,
                    create_payout_wallet: payout_wallet.data@.len() == 0,
                    verify_payout_wallet: true,
                },
            )
        }),
{
    if is_native_mint(treasury_mint) {
        assert_keys_equal(
            &payout_wallet.key,
            payout_wallet_owner,
            Some(CampaignTreasuryManagerError::InvalidTreasuryEscrow),
        )?;
        return Ok(
            TreasuryEscrowSetup {
                create_treasury_escrow: false,
                create_payout_wallet: false,
                verify_payout_wallet: false,
            },
        );
    }
    Ok(
        TreasuryEscrowSetup {
            create_treasury_escrow: create_program_token_account_if_not_present(
                treasury_escrow,
                treasury_mint,
            ),
            create_payout_wallet: payout_wallet.data_is_empty(),
            verify_payout_wallet: true,
        },
    )
}

/// Whether the treasury in the currency `treasury_mint` is in order once
/// it was set up: in the native currency the payout wallet is its own
/// owner; in any other the payout wallet was found to be the token account
/// of its owner for that currency.
pub open spec fn treasury_escrow_is_valid(
    treasury_mint: Seq<u8>,
    payout_wallet: Seq<u8>,
    payout_wallet_owner: Seq<u8>,
    payout_wallet_is_ata: bool,
) -> bool {
    if treasury_mint == native_mint() {
        payout_wallet == payout_wallet_owner
    } else {
        payout_wallet_is_ata
    }
}

/// Accepts a treasury that is in order once it was set up.
/// `payout_wallet_is_ata` tells whether the payout wallet was found to be
/// the token account of its owner for the currency of the treasury.
pub fn assert_treasury_escrow_is_valid(
    treasury_mint: &Pubkey,
    payout_wallet: &Pubkey,
    payout_wallet_owner: &Pubkey,
    payout_wallet_is_ata: bool,
) -> (result: Result<(), CampaignTreasuryManagerError>)
    ensures
        result is Ok <==> treasury_escrow_is_valid(
            treasury_mint@,
            payout_wallet@,
            payout_wallet_owner@,
            payout_wallet_is_ata,
        ),
        result is Err ==> result == Err::<(), _>(CampaignTreasuryManagerError::InvalidTreasuryEscrow),
{
    if is_native_mint(treasury_mint) {
        return assert_keys_equal(
            payout_wallet,
            payout_wallet_owner,
            Some(CampaignTreasuryManagerError::InvalidTreasuryEscrow),
        );
    }
    if !payout_wallet_is_ata {
        return Err(CampaignTreasuryManagerError::InvalidTreasuryEscrow);
    }
    Ok(())
}

/// Whether an account has to be created for the escrow of the deposit
/// currency `deposit_escrow_mint`: the native currency needs none, and any
/// other needs one where the account holds no data yet.
pub fn create_deposit_escrow_account(
    deposit_escrow_account: &AccountInfo,
    deposit_escrow_mint: &Pubkey,
) -> (create: bool)
    ensures
        create == (deposit_escrow_mint@ != native_mint() && deposit_escrow_account.data@.len() == 0),
{
    if is_native_mint(deposit_escrow_mint) {
        return false;
    }
    create_program_token_account_if_not_present(deposit_escrow_account, deposit_escrow_mint)
}

/// Whether a token account for the currency `token_mint` has to be
/// created at `new_account`: not for the native currency, and not where
/// the account holds data already.
pub fn create_program_token_account_if_not_present(
    new_account: &AccountInfo,
    token_mint: &Pubkey,
) -> (create: bool)
    ensures
        create == (token_mint@ != native_mint() && new_account.data@.len() == 0),
{
    if is_native_mint(token_mint) {
        return false;
    }
    new_account.data_is_empty()
}

/// What a new account has to receive before it is allocated, so that it
/// holds `minimum_balance`, and one unit at the least.
pub open spec fn required_lamports(minimum_balance: int, lamports: int) -> int {
    let target = if minimum_balance >= 1 {
        minimum_balance
    } else {
        1
    };
    if target >= lamports {
        target - lamports
    } else {
        0
    }
}

/// How much has to be paid into a new account that holds `lamports`
/// before it is allocated and assigned to its program: what it lacks of
/// `minimum_balance`, the balance that exempts an account of its size from
/// rent, and of one unit at the least.
pub fn create_or_allocate_account_raw(minimum_balance: u64, lamports: u64) -> (required: u64)
    ensures
        required == required_lamports(minimum_balance as int, lamports as int),
{
    let target = if minimum_balance >= 1 {
        minimum_balance
    } else {
        1
    };
    if target >= lamports {
        target - lamports
    } else {
        0
    }
}

/// A transfer of funds that is to be carried out.
#[derive(Clone, Copy, Debug, PartialEq, Eq)]
pub enum Transfer {
    /// A transfer of the native currency from one account to another.
    Native { from: Pubkey, to: Pubkey, amount: u64 },
    /// A transfer of tokens from one token account to another, on the
    /// authority of the owner of the first.
    Token { from: Pubkey, to: Pubkey, authority: Pubkey, amount: u64 },
}

/// Decides how `amount` of the currency `token_mint` goes from
/// `source_account` to `destination_account`. The native currency is paid
/// by the source itself, which must be the payment account. Tokens are paid
/// from the payment account on the authority of the source; that the payment
/// account is the token account of the source is for the caller to verify.
pub fn transfer_funds(
    source_account: &Pubkey,
    destination_account: &Pubkey,
    payment_account: &Pubkey,
    token_mint: &Pubkey,
    amount: u64,
) -> (result: Result<Transfer, CampaignTreasuryManagerError>)
    ensures
        match result {
            Ok(Transfer::Native { from, to, amount: paid }) => {
                &&& token_mint@ == native_mint()
                &&& source_account@ == payment_account@
                &&& from == *source_account
                &&& to == *destination_account
                &&& paid == amount
            },
            Ok(Transfer::Token { from, to, authority, amount: paid }) => {
                &&& token_mint@ != native_mint()
                &&& from == *payment_account
                &&& to == *destination_account
                &&& authority == *source_account
                &&& paid == amount
            },
            Err(error) => {
                &&& token_mint@ == native_mint()
                &&& source_account@ != payment_account@
                &&& error == CampaignTreasuryManagerError::PublicKeyMismatch
            },
        },
{
    if is_native_mint(token_mint) {
        assert_keys_equal(source_account, payment_account, None)?;
        Ok(Transfer::Native { from: *source_account, to: *destination_account, amount })
    } else {
        Ok(
            Transfer::Token {
                from: *payment_account,
                to: *destination_account,
                authority: *source_account,
                amount,
            },
        )
    }
}

/// Whether the refund period of a phase is in order: the refund deadline
/// lies after the payout time, by a duration that the policy admits.
pub open spec fn payout_time_and_refund_deadline_are_valid(
    payout_time: int,
    refund_deadline: int,
    policy: BufferTimes,
) -> bool {
    &&& refund_deadline > payout_time
    &&& policy.payout_time_to_refund_deadline.admits(payout_time, refund_deadline)
}

/// Whether a phase may be the first of a schedule: its payout lies after
/// the campaign end time, by a duration that the policy admits, and its
/// refund period is in order.
pub open spec fn initial_payout_phase_is_valid(
    initial_payout_phase: PayoutPhaseEnum,
    campaign_end_time: int,
    policy: BufferTimes,
) -> bool {
    let payout_time = initial_payout_phase.shared_fields().payout_time as int;
    let refund_deadline = initial_payout_phase.shared_fields().refund_deadline as int;
    &&& payout_time > campaign_end_time
    &&& policy.campaign_end_time_to_initial_payout.admits(campaign_end_time, payout_time)
    &&& payout_time_and_refund_deadline_are_valid(payout_time, refund_deadline, policy)
}

/// Whether a phase may follow `previous_payout_phase`: its payout lies
/// after that of the phase before, by a duration that the policy admits,
/// and its refund period is in order.
pub open spec fn following_payout_phase_is_valid(
    payout_phase: PayoutPhaseEnum,
    previous_payout_phase: PayoutPhaseEnum,
    policy: BufferTimes,
) -> bool {
    let previous_payout_time = previous_payout_phase.shared_fields().payout_time as int;
    let payout_time = payout_phase.shared_fields().payout_time as int;
    let refund_deadline = payout_phase.shared_fields().refund_deadline as int;
    &&& payout_time > previous_payout_time
    &&& policy.payout_time_to_next_payout_time.admits(previous_payout_time, payout_time)
    &&& payout_time_and_refund_deadline_are_valid(payout_time, refund_deadline, policy)
}

/// Whether a phase is in order at the place `index` of a schedule: the
/// first phase is held against the campaign end time, every other phase
/// against the one before it.
pub open spec fn payout_phase_is_valid(
    index: int,
    payout_phase: PayoutPhaseEnum,
    previous_payout_phase: Option<PayoutPhaseEnum>,
    campaign_end_time: int,
    policy: BufferTimes,
) -> bool {
    if index == 0 {
        initial_payout_phase_is_valid(payout_phase, campaign_end_time, policy)
    } else {
        following_payout_phase_is_valid(payout_phase, previous_payout_phase.unwrap(), policy)
    }
}

/// Rejects with `error_code` a time that comes less than `min_time_buffer`
/// seconds after `time_start`.
pub fn assert_min_time_buffer(
    time_start: i64,
    time_end: i64,
    min_time_buffer: i64,
    error_code: CampaignTreasuryManagerError,
) -> (result: Result<(), CampaignTreasuryManagerError>)
    ensures
        result is Ok <==> min_time_buffer_holds(
            time_start as int,
            time_end as int,
            min_time_buffer as int,
        ),
        result is Err ==> result == Err::<(), _>(error_code),
{
    let min_future_time: i128 = time_start as i128 + min_time_buffer as i128;
    if (time_end as i128) < min_future_time {
        return Err(error_code);
    }
    Ok(())
}

/// Rejects with `error_code` a time that comes more than `max_time_buffer`
/// seconds after `time_start`.
pub fn assert_max_time_buffer(
    time_start: i64,
    time_end: i64,
    max_time_buffer: i64,
    error_code: CampaignTreasuryManagerError,
) -> (result: Result<(), CampaignTreasuryManagerError>)
    ensures
        result is Ok <==> max_time_buffer_holds(
            time_start as int,
            time_end as int,
            max_time_buffer as int,
        ),
        result is Err ==> result == Err::<(), _>(error_code),
{
    let max_future_time: i128 = time_start as i128 + max_time_buffer as i128;
    if (time_end as i128) > max_future_time {
        return Err(error_code);
    }
    Ok(())
}

/// Rejects with `error_code` a time whose distance from `time_start` the
/// buffer does not admit.
pub fn assert_within_buffer(
    time_start: i64,
    time_end: i64,
    buffer: &Buffer,
    error_code: CampaignTreasuryManagerError,
) -> (result: Result<(), CampaignTreasuryManagerError>)
    ensures
        result is Ok <==> buffer.admits(time_start as int, time_end as int),
        result is Err ==> result == Err::<(), _>(error_code),
{
    assert_min_time_buffer(time_start, time_end, buffer.min, error_code)?;
    assert_max_time_buffer(time_start, time_end, buffer.max, error_code)
}

/// Accepts a campaign end time that the policy admits, seen from `now`.
pub fn assert_campaign_end_time_is_valid(
    now: i64,
    campaign_end_time: i64,
    policy: &BufferTimes,
) -> (result: Result<(), CampaignTreasuryManagerError>)
    ensures
        result is Ok <==> policy.now_to_campaign_end_time.admits(
            now as int,
            campaign_end_time as int,
        ),
        result is Err ==> result == Err::<(), _>(
            CampaignTreasuryManagerError::InvalidCampaignEndTime,
        ),
{
    assert_within_buffer(
        now,
        campaign_end_time,
        &policy.now_to_campaign_end_time,
        CampaignTreasuryManagerError::InvalidCampaignEndTime,
    )
}

/// Accepts a payout time and a refund deadline that are in order.
pub fn assert_payout_time_and_refund_deadline_are_valid(
    payout_time: i64,
    refund_deadline: i64,
    policy: &BufferTimes,
) -> (result: Result<(), CampaignTreasuryManagerError>)
    ensures
        result is Ok <==> payout_time_and_refund_deadline_are_valid(
            payout_time as int,
            refund_deadline as int,
            *policy,
        ),
        result is Err ==> result == Err::<(), _>(CampaignTreasuryManagerError::InvalidPayoutPhases),
{
    if refund_deadline <= payout_time {
        return Err(CampaignTreasuryManagerError::InvalidPayoutPhases);
    }
    assert_within_buffer(
        payout_time,
        refund_deadline,
        &policy.payout_time_to_refund_deadline,
        CampaignTreasuryManagerError::InvalidPayoutPhases,
    )
}

/// Accepts a phase that may be the first of a schedule.
pub fn assert_initial_payout_phase_is_valid(
    initial_payout_phase: PayoutPhaseEnum,
    campaign_end_time: i64,
    policy: &BufferTimes,
) -> (result: Result<(), CampaignTreasuryManagerError>)
    ensures
        result is Ok <==> initial_payout_phase_is_valid(
            initial_payout_phase,
            campaign_end_time as int,
            *policy,
        ),
        result is Err ==> result == Err::<(), _>(CampaignTreasuryManagerError::InvalidPayoutPhases),
{
    let payout_time = initial_payout_phase.get_payout_time();
    let refund_deadline = initial_payout_phase.get_refund_deadline();

    if payout_time <= campaign_end_time {
        return Err(CampaignTreasuryManagerError::InvalidPayoutPhases);
    }
    assert_within_buffer(
        campaign_end_time,
        payout_time,
        &policy.campaign_end_time_to_initial_payout,
        CampaignTreasuryManagerError::InvalidPayoutPhases,
    )?;
    assert_payout_time_and_refund_deadline_are_valid(payout_time, refund_deadline, policy)
}

/// Accepts a phase that is in order at the place `index` of a schedule.
/// A phase other than the first comes with the phase before it.
pub fn assert_payout_phase_is_valid(
    index: usize,
    payout_phase: PayoutPhaseEnum,
    previous_payout_phase: Option<PayoutPhaseEnum>,
    campaign_end_time: i64,
    policy: &BufferTimes,
) -> (result: Result<(), CampaignTreasuryManagerError>)
    requires
        index != 0 ==> previous_payout_phase is Some,
    ensures
        result is Ok <==> payout_phase_is_valid(
            index as int,
            payout_phase,
            previous_payout_phase,
            campaign_end_time as int,
            *policy,
        ),
        result is Err ==> result == Err::<(), _>(CampaignTreasuryManagerError::InvalidPayoutPhases),
{
    if index == 0 {
        return assert_initial_payout_phase_is_valid(payout_phase, campaign_end_time, policy);
    }
    let previous_payout_time = previous_payout_phase.unwrap().get_payout_time();
    let payout_time = payout_phase.get_payout_time();
    let refund_deadline = payout_phase.get_refund_deadline();

    if payout_time <= previous_payout_time {
        return Err(CampaignTreasuryManagerError::InvalidPayoutPhases);
    }
    assert_within_buffer(
        previous_payout_time,
        payout_time,
        &policy.payout_time_to_next_payout_time,
        CampaignTreasuryManagerError::InvalidPayoutPhases,
    )?;
    assert_payout_time_and_refund_deadline_are_valid(payout_time, refund_deadline, policy)
}

} // verus!
