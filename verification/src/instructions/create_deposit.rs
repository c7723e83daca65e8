//! Creating a deposit.

use vstd::prelude::*;
use vstd::string::StringSliceAdditionalSpecFns;
use crate::constants::ID;
use crate::errors::CampaignTreasuryManagerError;
use crate::pubkey::{create_program_address, native_mint, program_address, Pubkey};
use crate::state::campaign_escrow::{CampaignEscrow, Treasury};
use crate::state::deposit_escrow::DepositEscrow;
use crate::state::deposit_record::DepositRecord;
use crate::utils::utils::{assert_keys_equal, transfer_funds, Transfer};
use crate::utils::validate_cpi_invocation::{is_allowed_caller, validate_cpi_invocation};

verus! {

/// What the creation of a deposit sees of the accounts that take part.
#[derive(Clone, Copy, Debug)]
pub struct CreateDeposit {
    /// The program of the instruction just before the request, or none
    /// where no such instruction can be read.
    pub previous_ix_program_id: Option<Pubkey>,
    /// The bump of the address of the deposit record.
    pub deposit_record_bump: u8,
    /// The account that is to receive the deposit.
    pub deposit_escrow: Pubkey,
    /// The mint of the currency of the deposit.
    pub deposit_escrow_mint: Pubkey,
    /// Who makes the deposit.
    pub depositor: Pubkey,
    /// The account from which the depositor pays.
    pub depositor_payment_account: Pubkey,
    /// The mint of the item that the deposit pays for.
    pub mint: Pubkey,
}

/// A deposit that was accepted and recorded.
#[derive(Clone, Copy, Debug, PartialEq, Eq)]
pub struct Deposit {
    /// The record of the deposit.
    pub deposit_record: DepositRecord,
    /// The transfer of the deposit from the depositor to the escrow, which
    /// is to be carried out.
    pub transfer: Transfer,
}

/// The seeds of the address of the deposit escrow of a campaign for the
/// currency `mint`, as bytes.
pub open spec fn deposit_escrow_seeds(campaign_uuid: Seq<char>, mint: Seq<u8>, bump: u8) -> Seq<Seq<u8>> {
    seq![
        DepositEscrow::PREFIX.spec_bytes(),
        vstd::utf8::encode_utf8(campaign_uuid),
        mint,
        seq![bump],
    ]
}

/// The address derived for the deposit escrow of the campaign for the
/// currency `mint`, from the bump that the campaign escrow lists for that
/// currency. There is none where no escrow is listed or no address can be
/// derived.
pub open spec fn expected_deposit_escrow(campaign_escrow: &CampaignEscrow, mint: Seq<u8>) -> Option<
    Seq<u8>,
> {
    match campaign_escrow.deposit_escrow_position(mint) {
        Some(position) => program_address(
            deposit_escrow_seeds(
                campaign_escrow.campaign_uuid@,
                mint,
                campaign_escrow.deposit_escrow_infos@[position].deposit_escrow_bump,
            ),
            ID@,
        ),
        None => None,
    }
}

/// Why a deposit is rejected, if it is, where `expected` is the address
/// derived for the escrow of the currency of the deposit. The reasons are
/// tried in this order: the request does not come from a program that may
/// ask for deposits; the account that is to receive the deposit is not the
/// treasury escrow, for a deposit in the currency of the treasury, or not
/// the address derived, for any other; a deposit in the native currency is
/// not paid by the depositor's own account.
pub open spec fn create_deposit_rejection(
    campaign_escrow: &CampaignEscrow,
    ctx: &CreateDeposit,
    expected: Option<Seq<u8>>,
) -> Option<CampaignTreasuryManagerError> {
    if !(ctx.previous_ix_program_id matches Some(program_id) && is_allowed_caller(program_id@)) {
        Some(CampaignTreasuryManagerError::InvalidCpiInvocation)
    } else if ctx.deposit_escrow_mint@ == campaign_escrow.treasury.treasury_mint@
        && ctx.deposit_escrow@ != campaign_escrow.treasury.treasury_escrow@ {
        Some(CampaignTreasuryManagerError::PublicKeyMismatch)
    } else if ctx.deposit_escrow_mint@ != campaign_escrow.treasury.treasury_mint@ && expected
        != Some(ctx.deposit_escrow@) {
        Some(CampaignTreasuryManagerError::PublicKeyMismatch)
    } else if ctx.deposit_escrow_mint@ == native_mint() && ctx.depositor@
        != ctx.depositor_payment_account@ {
        Some(CampaignTreasuryManagerError::PublicKeyMismatch)
    } else {
        None
    }
}

/// Whether the counters of the campaign escrow have room for a deposit of
/// `deposit_amount` in the currency `mint`.
pub open spec fn deposit_has_room(
    campaign_escrow: &CampaignEscrow,
    mint: Seq<u8>,
    deposit_amount: u64,
) -> bool {
    &&& campaign_escrow.deposit_count < u64::MAX
    &&& mint == campaign_escrow.treasury.treasury_mint@ ==> {
        &&& campaign_escrow.processed_deposit_count < u64::MAX
        &&& campaign_escrow.treasury.total_funds + deposit_amount <= u64::MAX
    }
}

/// The record of a deposit of `deposit_amount`. A deposit in the currency
/// of the treasury has reached the treasury at once and in full; any other
/// waits for its conversion.
pub open spec fn recorded_deposit(
    campaign_escrow: &CampaignEscrow,
    ctx: &CreateDeposit,
    deposit_amount: u64,
) -> DepositRecord {
    let processed = ctx.deposit_escrow_mint@ == campaign_escrow.treasury.treasury_mint@;
    DepositRecord {
        bump: ctx.deposit_record_bump,
        mint: ctx.mint,
        depositor: ctx.depositor,
        deposit_escrow_mint: ctx.deposit_escrow_mint,
        initial_deposit_amount: deposit_amount,
        processed_deposit_amount: if processed {
            deposit_amount
        } else {
            0
        },
        deposit_processed: processed,
    }
}

/// The campaign escrow after a deposit of `deposit_amount` in the
/// currency `mint`: one more deposit is counted; and where the currency is
/// that of the treasury, one more deposit that reached the treasury is
/// counted and the funds of the treasury grow by the amount.
pub open spec fn with_deposit(
    campaign_escrow: CampaignEscrow,
    mint: Seq<u8>,
    deposit_amount: u64,
) -> CampaignEscrow {
    if mint == campaign_escrow.treasury.treasury_mint@ {
        CampaignEscrow {
            deposit_count: (campaign_escrow.deposit_count + 1) as u64,
            processed_deposit_count: (campaign_escrow.processed_deposit_count + 1) as u64,
            treasury: Treasury {
                total_funds: (campaign_escrow.treasury.total_funds + deposit_amount) as u64,
                ..campaign_escrow.treasury
            },
            ..campaign_escrow
        }
    } else {
        CampaignEscrow {
            deposit_count: (campaign_escrow.deposit_count + 1) as u64,
            ..campaign_escrow
        }
    }
}

/// The transfer that carries a deposit of `deposit_amount` from the
/// depositor to the escrow: in the native currency from the depositor's own
/// account, in any other from the payment account on the depositor's
/// authority.
pub open spec fn deposit_transfer(ctx: &CreateDeposit, deposit_amount: u64) -> Transfer {
    if ctx.deposit_escrow_mint@ == native_mint() {
        Transfer::Native { from: ctx.depositor, to: ctx.deposit_escrow, amount: deposit_amount }
    } else {
        Transfer::Token {
            from: ctx.depositor_payment_account,
            to: ctx.deposit_escrow,
            authority: ctx.depositor,
            amount: deposit_amount,
        }
    }
}

/// The address handed in, as bytes.
pub open spec fn address_view(address: Option<Pubkey>) -> Option<Seq<u8>> {
    match address {
        Some(address) => Some(address@),
        None => None,
    }
}

/// Accepts a request for a deposit of `deposit_amount`, where
/// `expected_deposit_escrow` is the address derived for the escrow of the
/// currency of the deposit, and hands back the transfer of the deposit to
/// the escrow. A deposit in the currency of the treasury needs no address. A
/// request for a deposit in another currency, from a program that may ask
/// for deposits, must come with one.
pub fn assert_deposit_is_valid(
    campaign_escrow: &CampaignEscrow,
    ctx: &CreateDeposit,
    deposit_amount: u64,
    expected_deposit_escrow: Option<Pubkey>,
) -> (result: Result<Transfer, CampaignTreasuryManagerError>)
    requires
        (ctx.previous_ix_program_id matches Some(program_id) && is_allowed_caller(program_id@)
            && ctx.deposit_escrow_mint@ != campaign_escrow.treasury.treasury_mint@)
            ==> expected_deposit_escrow is Some,
    ensures
        result == (match create_deposit_rejection(
            campaign_escrow,
            ctx,
            address_view(expected_deposit_escrow),
        ) {
            Some(error) => Err::<Transfer, _>(error),
            None => Ok(deposit_transfer(ctx, deposit_amount)),
        }),
{
    validate_cpi_invocation(ctx.previous_ix_program_id.as_ref())?;

    let deposit_matches_treasury_mint = assert_keys_equal(
        &campaign_escrow.treasury.treasury_mint,
        &ctx.deposit_escrow_mint,
        None,
    ).is_ok();

    if deposit_matches_treasury_mint {
        assert_keys_equal(&ctx.deposit_escrow, &campaign_escrow.treasury.treasury_escrow, None)?;
    } else {
        let expected_deposit_escrow_pda = expected_deposit_escrow.unwrap();
        assert_keys_equal(&expected_deposit_escrow_pda, &ctx.deposit_escrow, None)?;
    }
    transfer_funds(
        &ctx.depositor,
        &ctx.deposit_escrow,
        &ctx.depositor_payment_account,
        &ctx.deposit_escrow_mint,
        deposit_amount,
    )
}

/// Whether the counters of the campaign escrow have room for a deposit of
/// `deposit_amount` in the currency of the request.
pub fn has_room_for_deposit(
    campaign_escrow: &CampaignEscrow,
    ctx: &CreateDeposit,
    deposit_amount: u64,
) -> (room: bool)
    ensures
        room == deposit_has_room(campaign_escrow, ctx.deposit_escrow_mint@, deposit_amount),
{
    if campaign_escrow.deposit_count == u64::MAX {
        return false;
    }
    let deposit_matches_treasury_mint = assert_keys_equal(
        &campaign_escrow.treasury.treasury_mint,
        &ctx.deposit_escrow_mint,
        None,
    ).is_ok();
    if deposit_matches_treasury_mint {
        campaign_escrow.processed_deposit_count < u64::MAX && deposit_amount <= u64::MAX
            - campaign_escrow.treasury.total_funds
    } else {
        true
    }
}

/// Records and counts a deposit of `deposit_amount` that was accepted.
/// The counters must have room for it.
pub fn record_deposit(
    campaign_escrow: &mut CampaignEscrow,
    ctx: &CreateDeposit,
    deposit_amount: u64,
) -> (deposit_record: DepositRecord)
    requires
        deposit_has_room(old(campaign_escrow), ctx.deposit_escrow_mint@, deposit_amount),
    ensures
        deposit_record == recorded_deposit(old(campaign_escrow), ctx, deposit_amount),
        *final(campaign_escrow) == with_deposit(
            *old(campaign_escrow),
            ctx.deposit_escrow_mint@,
            deposit_amount,
        ),
        old(campaign_escrow).well_formed() ==> final(campaign_escrow).well_formed(),
{
    let deposit_matches_treasury_mint = assert_keys_equal(
        &campaign_escrow.treasury.treasury_mint,
        &ctx.deposit_escrow_mint,
        None,
    ).is_ok();
    let mut deposit_record = DepositRecord {
        bump: ctx.deposit_record_bump,
        mint: ctx.mint,
        depositor: ctx.depositor,
        deposit_escrow_mint: ctx.deposit_escrow_mint,
        initial_deposit_amount: deposit_amount,
        processed_deposit_amount: 0,
        deposit_processed: false,
    };

    campaign_escrow.increment_deposit_count();

    if deposit_matches_treasury_mint {
        campaign_escrow.increment_processed_deposit_count();
        campaign_escrow.increment_total_funds(deposit_amount);
        deposit_record.deposit_processed = true;
        deposit_record.processed_deposit_amount = deposit_amount;
    }
    deposit_record
}

/// Creates a deposit of `deposit_amount`, where `expected_deposit_escrow`
/// is the address derived for the escrow of the currency of the deposit;
/// a deposit in the currency of the treasury needs none. An accepted deposit
/// is recorded and counted, and its transfer to the escrow is handed back to
/// be carried out. A rejected one changes nothing.
///
/// For a request that is accepted the counters must have room. A request
/// for a deposit in another currency than the treasury's, from a program
/// that may ask for deposits, must come with an address derived.
pub fn handle_create_deposit_with_escrow(
    campaign_escrow: &mut CampaignEscrow,
    ctx: &CreateDeposit,
    deposit_amount: u64,
    expected_deposit_escrow: Option<Pubkey>,
) -> (result: Result<Deposit, CampaignTreasuryManagerError>)
    requires
        create_deposit_rejection(
            old(campaign_escrow),
            ctx,
            address_view(expected_deposit_escrow),
        ) is None ==> deposit_has_room(
            old(campaign_escrow),
            ctx.deposit_escrow_mint@,
            deposit_amount,
        ),
        (ctx.previous_ix_program_id matches Some(program_id) && is_allowed_caller(program_id@)
            && ctx.deposit_escrow_mint@ != old(campaign_escrow).treasury.treasury_mint@)
            ==> expected_deposit_escrow is Some,
    ensures
        match result {
            Ok(deposit) => {
                &&& create_deposit_rejection(
                    old(campaign_escrow),
                    ctx,
                    address_view(expected_deposit_escrow),
                ) is None
                &&& deposit.deposit_record == recorded_deposit(
                    old(campaign_escrow),
                    ctx,
                    deposit_amount,
                )
                &&& deposit.transfer == deposit_transfer(ctx, deposit_amount)
                &&& *final(campaign_escrow) == with_deposit(
                    *old(campaign_escrow),
                    ctx.deposit_escrow_mint@,
                    deposit_amount,
                )
                &&& old(campaign_escrow).well_formed() ==> final(campaign_escrow).well_formed()
            },
            Err(error) => {
                &&& create_deposit_rejection(
                    old(campaign_escrow),
                    ctx,
                    address_view(expected_deposit_escrow),
                ) == Some(error)
                &&& *final(campaign_escrow) == *old(campaign_escrow)
            },
        },
{
    let transfer = assert_deposit_is_valid(
        campaign_escrow,
        ctx,
        deposit_amount,
        expected_deposit_escrow,
    )?;
    let deposit_record = record_deposit(campaign_escrow, ctx, deposit_amount);
    Ok(Deposit { deposit_record, transfer })
}

/// The address derived for the escrow that is to receive a deposit in the
/// currency of the request: none for the currency of the treasury, which
/// needs none; for any other the one derived from what the campaign escrow
/// lists for the currency, as far as there is one.
pub open spec fn derived_deposit_escrow(campaign_escrow: &CampaignEscrow, ctx: &CreateDeposit) -> Option<
    Seq<u8>,
> {
    if ctx.deposit_escrow_mint@ == campaign_escrow.treasury.treasury_mint@ {
        None
    } else {
        expected_deposit_escrow(campaign_escrow, ctx.deposit_escrow_mint@)
    }
}

/// Whether a request for a deposit cannot be carried out at all: it comes
/// from a program that may ask for deposits, and either the currency is not
/// that of the treasury and no address can be derived for its escrow, be it
/// that the campaign escrow lists none; or the request would be accepted
/// and the counters have no room for it.
pub open spec fn deposit_cannot_be_created(
    campaign_escrow: &CampaignEscrow,
    ctx: &CreateDeposit,
    deposit_amount: u64,
) -> bool {
    &&& ctx.previous_ix_program_id matches Some(program_id) && is_allowed_caller(program_id@)
    &&& {
        ||| ctx.deposit_escrow_mint@ != campaign_escrow.treasury.treasury_mint@
            && derived_deposit_escrow(campaign_escrow, ctx) is None
        ||| create_deposit_rejection(
            campaign_escrow,
            ctx,
            derived_deposit_escrow(campaign_escrow, ctx),
        ) is None && !deposit_has_room(campaign_escrow, ctx.deposit_escrow_mint@, deposit_amount)
    }
}

/// Creates a deposit of `deposit_amount`. The request is accepted where
/// it comes from one of the programs that may ask for deposits, the account
/// that is to receive the deposit is the right one, and a deposit in the
/// native currency is paid by the depositor's own account. The right
/// account is the treasury escrow for a deposit in the currency of the
/// treasury; for any other it is the address derived for the deposit escrow
/// of that currency. An accepted deposit is recorded and counted, and its
/// transfer to the escrow is handed back to be carried out. A deposit in
/// the currency of the treasury has reached the treasury with that: it
/// counts as processed, and the funds of the treasury grow by its amount. A
/// rejected deposit changes nothing.
///
/// The result is none, and nothing changes, where the request cannot be
/// carried out at all: see [`deposit_cannot_be_created`].
pub fn handle_create_deposit(
    campaign_escrow: &mut CampaignEscrow,
    ctx: &CreateDeposit,
    deposit_amount: u64,
) -> (result: Option<Result<Deposit, CampaignTreasuryManagerError>>)
    ensures
        match result {
            Some(Ok(deposit)) => {
                &&& create_deposit_rejection(
                    old(campaign_escrow),
                    ctx,
                    derived_deposit_escrow(old(campaign_escrow), ctx),
                ) is None
                &&& deposit.deposit_record == recorded_deposit(
                    old(campaign_escrow),
                    ctx,
                    deposit_amount,
                )
                &&& deposit.transfer == deposit_transfer(ctx, deposit_amount)
                &&& *final(campaign_escrow) == with_deposit(
                    *old(campaign_escrow),
                    ctx.deposit_escrow_mint@,
                    deposit_amount,
                )
                &&& old(campaign_escrow).well_formed() ==> final(campaign_escrow).well_formed()
            },
            Some(Err(error)) => {
                &&& create_deposit_rejection(
                    old(campaign_escrow),
                    ctx,
                    derived_deposit_escrow(old(campaign_escrow), ctx),
                ) == Some(error)
                &&& *final(campaign_escrow) == *old(campaign_escrow)
            },
            None => {
                &&& deposit_cannot_be_created(old(campaign_escrow), ctx, deposit_amount)
                &&& *final(campaign_escrow) == *old(campaign_escrow)
            },
        },
        result is None <==> deposit_cannot_be_created(old(campaign_escrow), ctx, deposit_amount),
{
    if let Err(error) = validate_cpi_invocation(ctx.previous_ix_program_id.as_ref()) {
        return Some(Err(error));
    }
    let deposit_matches_treasury_mint = assert_keys_equal(
        &campaign_escrow.treasury.treasury_mint,
        &ctx.deposit_escrow_mint,
        None,
    ).is_ok();
    let expected_deposit_escrow_pda = if deposit_matches_treasury_mint {
        None
    } else {
        let deposit_escrow_bump = match campaign_escrow.get_deposit_escrow_info(
            &ctx.deposit_escrow_mint,
        ) {
            Some(deposit_escrow_currency) => deposit_escrow_currency.deposit_escrow_bump,
            None => {
                return None;
            },
        };
        let seeds = DepositEscrow::get_seeds(
            &campaign_escrow.campaign_uuid,
            &ctx.deposit_escrow_mint,
            &deposit_escrow_bump,
        );
        let program_id = Pubkey { bytes: ID };
        let derived = create_program_address(seeds.as_slice(), &program_id);
        proof {
            assert(crate::pubkey::seeds_view(seeds@) =~= deposit_escrow_seeds(
                campaign_escrow.campaign_uuid@,
                ctx.deposit_escrow_mint@,
                deposit_escrow_bump,
            ));
        }
        if derived.is_none() {
            return None;
        }
        derived
    };
    let transfer = match assert_deposit_is_valid(
        campaign_escrow,
        ctx,
        deposit_amount,
        expected_deposit_escrow_pda,
    ) {
        Ok(transfer) => transfer,
        Err(error) => {
            return Some(Err(error));
        },
    };
    if !has_room_for_deposit(campaign_escrow, ctx, deposit_amount) {
        return None;
    }
    let deposit_record = record_deposit(campaign_escrow, ctx, deposit_amount);
    Some(Ok(Deposit { deposit_record, transfer }))
}

} // verus!
