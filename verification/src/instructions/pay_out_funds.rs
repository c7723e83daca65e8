//! Paying out the phase of the schedule whose payout comes next.

use vstd::prelude::*;
use crate::errors::CampaignTreasuryManagerError;
use crate::pubkey::{is_native_mint, native_mint, Pubkey};
use crate::state::campaign_escrow::{payout_amount, CampaignEscrow};
use crate::state::payout_phases::{sum_basis_points, PayoutPhaseEnum, PayoutSchedule};
use crate::utils::buffer_times::BufferTimes;

verus! {

/// What a payout sees of the time.
#[derive(Clone, Copy, Debug)]
pub struct PayOutFunds {
    /// The time of the request.
    pub now: i64,
}

/// A payout that was decided and recorded, and is to be carried out.
#[derive(Clone, Copy, Debug, PartialEq, Eq)]
pub struct Payout {
    /// The index of the phase paid out.
    pub payout_index: u8,
    /// The amount to pay.
    pub payout_amount: u64,
    /// The account that pays: the treasury escrow.
    pub treasury_escrow: Pubkey,
    /// The account that is paid: the payout wallet.
    pub payout_wallet: Pubkey,
    /// Whether the treasury is held in the native currency, and so is paid
    /// out by the treasury escrow itself. A treasury of tokens is paid out
    /// on the authority of the campaign escrow.
    pub native: bool,
}

/// Whether a payout is due at the time `now`: a phase is left whose payout
/// was not made, the payout time of the first such phase has come, and the
/// authority did not veto it.
pub open spec fn payout_is_due(schedule: PayoutSchedule, now: int) -> bool {
    match schedule.current_active_payout_phase() {
        Some(payout_phase) => {
            &&& payout_phase.shared_fields().payout_time <= now
            &&& !payout_phase.is_vetoed_by_authority()
        },
        None => false,
    }
}

/// The amount of the payout that comes next; zero where none is left.
pub open spec fn next_payout_amount(campaign_escrow: &CampaignEscrow) -> int {
    match campaign_escrow.payout_phases@.current_active_payout_phase() {
        Some(payout_phase) => payout_amount(
            campaign_escrow.treasury.total_funds as int,
            payout_phase.shared_fields().payout_basis_points as int,
        ),
        None => 0,
    }
}

/// Pays out the phase whose payout comes next, where a payout is due at
/// the time of the request: decides the amount, the share of all that was
/// deposited into the treasury that the phase stands for, and records the
/// payout as made. Any other request is rejected and changes nothing. The
/// amount must fit the type, as it does for every share up to the whole.
pub fn handle_pay_out_funds(campaign_escrow: &mut CampaignEscrow, ctx: &PayOutFunds) -> (result: Result<
    Payout,
    CampaignTreasuryManagerError,
>)
    requires
        payout_is_due(old(campaign_escrow).payout_phases@, ctx.now as int) ==> next_payout_amount(
            old(campaign_escrow),
        ) <= u64::MAX,
    ensures
        match result {
            Ok(payout) => {
                &&& payout_is_due(old(campaign_escrow).payout_phases@, ctx.now as int)
                &&& Some(payout.payout_index as int) == old(
                    campaign_escrow,
                ).payout_phases@.current_active_index()
                &&& payout.payout_amount == next_payout_amount(old(campaign_escrow))
                &&& payout.treasury_escrow == old(campaign_escrow).treasury.treasury_escrow
                &&& payout.payout_wallet == old(campaign_escrow).payout_wallet
                &&& payout.native == (old(campaign_escrow).treasury.treasury_mint@ == native_mint())
                &&& final(campaign_escrow).payout_phases@ == old(
                    campaign_escrow,
                ).payout_phases@.mark_current_active_payout_phase_as_disbursed()
                &&& *final(campaign_escrow) == (CampaignEscrow {
                    payout_phases: final(campaign_escrow).payout_phases,
                    ..*old(campaign_escrow)
                })
                &&& old(campaign_escrow).well_formed() ==> final(campaign_escrow).well_formed()
            },
            Err(error) => {
                &&& !payout_is_due(old(campaign_escrow).payout_phases@, ctx.now as int)
                &&& error == CampaignTreasuryManagerError::InvalidPayoutRequest
                &&& *final(campaign_escrow) == *old(campaign_escrow)
            },
        },
{
    let next_payout = campaign_escrow.payout_phases.get_current_active_payout_phase_for_payout();
    let next_payout = match next_payout {
        Some(next_payout) => next_payout,
        None => {
            return Err(CampaignTreasuryManagerError::InvalidPayoutRequest);
        },
    };
    let payout_time = next_payout.get_payout_time();
    if ctx.now < payout_time {
        return Err(CampaignTreasuryManagerError::InvalidPayoutRequest);
    }
    let is_vetoed_by_authority = next_payout.get_is_vetoed_by_authority();
    if is_vetoed_by_authority {
        return Err(CampaignTreasuryManagerError::InvalidPayoutRequest);
    }
    let payout_index = next_payout.get_index();
    let next_payout_basis_points = next_payout.get_payout_basis_points();
    let payout_amount = campaign_escrow.calculate_payout_amount_from_payout_basis_points(
        next_payout_basis_points,
    );
    proof {
        campaign_escrow.payout_phases@.lemma_current_active_is_unpaid();
    }
    let native = is_native_mint(&campaign_escrow.treasury.treasury_mint);
    let treasury_escrow = campaign_escrow.treasury.treasury_escrow;
    let payout_wallet = campaign_escrow.payout_wallet;
    proof {
        campaign_escrow.payout_phases@.lemma_records_keep_the_plan(0);
    }
    campaign_escrow.payout_phases.mark_current_active_payout_phase_as_disbursed();

    Ok(Payout { payout_index, payout_amount, treasury_escrow, payout_wallet, native })
}

/// A payout from a campaign escrow that is well formed is no more than
/// what was deposited into the treasury, and so its amount fits.
pub proof fn lemma_payout_of_well_formed_escrow_fits(campaign_escrow: &CampaignEscrow)
    requires
        campaign_escrow.well_formed(),
    ensures
        0 <= next_payout_amount(campaign_escrow) <= campaign_escrow.treasury.total_funds,
{
    let schedule = campaign_escrow.payout_phases@;
    schedule.lemma_current_active_is_unpaid();
    schedule.lemma_no_share_exceeds_the_whole();
    if let Some(active) = schedule.current_active_index() {
        let total_funds = campaign_escrow.treasury.total_funds as int;
        let share = schedule.ordered_list()[active].shared_fields().payout_basis_points as int;
        assert(0 <= total_funds * share <= total_funds * 10_000) by (nonlinear_arith)
            requires
                0 <= total_funds,
                0 <= share <= 10_000,
        ;
        assert(total_funds * 10_000 / 10_000 == total_funds) by (nonlinear_arith);
    }
}

/// A phase that the authority vetoed is not paid out: where the phase
/// vetoed is the one whose payout comes next, no payout is due at any time.
/// The veto itself leaves untouched what is recorded of payouts, and so the
/// phase whose payout comes next.
pub proof fn lemma_vetoed_phase_is_not_paid_out(schedule: PayoutSchedule, ordinal: int, now: int)
    ensures
        ({
            let vetoed = schedule.veto_payout_phase_by_authority(ordinal);
            &&& vetoed.current_active_index() == schedule.current_active_index()
            &&& vetoed.ordered_count() == schedule.ordered_count()
            &&& forall|index: int|
                0 <= index < schedule.ordered_count() ==> (
                #[trigger] vetoed.ordered_list()[index]).is_paid_out()
                    == schedule.ordered_list()[index].is_paid_out()
            &&& vetoed.current_active_index() == Some(ordinal) ==> !payout_is_due(vetoed, now)
        }),
{
    let vetoed = schedule.veto_payout_phase_by_authority(ordinal);
    if 0 <= ordinal < schedule.ordered_count() && !schedule.ordered_list()[ordinal].is_paid_out() {
        schedule.lemma_ordered_list();
        assert(schedule.ordered_list()[ordinal].shared_fields().index == ordinal);
        schedule.lemma_slot_at(ordinal);
        let slot = schedule.slot_at(ordinal).unwrap();
        schedule.lemma_vetoed(slot);
        schedule.lemma_same_plan(vetoed);
        vetoed.lemma_ordered_list();
        assert(vetoed.unpaid() =~= schedule.unpaid());
        assert forall|index: int| 0 <= index < schedule.ordered_count() implies (
        #[trigger] vetoed.ordered_list()[index]).is_paid_out()
            == schedule.ordered_list()[index].is_paid_out() by {
            assert(schedule.ordered_list()[index].is_paid_out() == !schedule.unpaid()[index]);
        }
        vetoed.lemma_current_active_is_unpaid();
        assert(vetoed.ordered_list()[ordinal].is_vetoed_by_authority());
    } else {
        vetoed.lemma_current_active_is_unpaid();
    }
}

/// The sum of the amounts that the first `count` phases of `phases` pay
/// out of a treasury into which `total_funds` was deposited.
pub open spec fn sum_payout_amounts(phases: Seq<PayoutPhaseEnum>, count: int, total_funds: int) -> int
    decreases count,
{
    if count <= 0 {
        0
    } else {
        sum_payout_amounts(phases, count - 1, total_funds) + payout_amount(
            total_funds,
            phases[count - 1].shared_fields().payout_basis_points as int,
        )
    }
}

/// The phases of a schedule pay out no more than their shares of the
/// funds taken together, whatever is lost to rounding.
pub proof fn lemma_sum_payout_amounts(phases: Seq<PayoutPhaseEnum>, count: int, total_funds: int)
    requires
        0 <= total_funds,
        count <= phases.len(),
    ensures
        0 <= sum_payout_amounts(phases, count, total_funds) <= payout_amount(
            total_funds,
            sum_basis_points(phases, count),
        ),
    decreases count,
{
    if count > 0 {
        lemma_sum_payout_amounts(phases, count - 1, total_funds);
        let before = sum_basis_points(phases, count - 1);
        let share = phases[count - 1].shared_fields().payout_basis_points as int;
        assert(total_funds * (before + share) == total_funds * before + total_funds * share)
            by (nonlinear_arith);
        assert(0 <= total_funds * share) by (nonlinear_arith)
            requires
                0 <= total_funds,
                0 <= share,
        ;
        lemma_division_of_a_sum(total_funds * before, total_funds * share);
    } else {
        assert(total_funds * 0 == 0) by (nonlinear_arith);
    }
}

/// The parts of a sum, each divided and rounded down, add up to no more
/// than the sum divided and rounded down.
proof fn lemma_division_of_a_sum(one: int, other: int)
    requires
        0 <= other,
    ensures
        0 <= other / 10_000,
        one / 10_000 + other / 10_000 <= (one + other) / 10_000,
{
}

/// A schedule that is in order never pays out more than was deposited:
/// with `total_funds` in the treasury, the amounts of all its phases add up
/// to `total_funds` at the most.
pub proof fn lemma_payouts_do_not_exceed_the_funds(
    schedule: PayoutSchedule,
    campaign_end_time: int,
    policy: BufferTimes,
    total_funds: int,
)
    requires
        schedule.is_valid(campaign_end_time, policy),
        0 <= total_funds,
    ensures
        sum_payout_amounts(schedule.ordered_list(), schedule.ordered_count() as int, total_funds)
            <= total_funds,
{
    schedule.lemma_ordered_list();
    let count = schedule.ordered_count() as int;
    lemma_sum_payout_amounts(schedule.ordered_list(), count, total_funds);
    if schedule.len() == 0 {
        assert(sum_basis_points(schedule.ordered_list(), count) == 0);
        assert(total_funds * 0 == 0) by (nonlinear_arith);
    } else {
        assert(total_funds * 10_000 / 10_000 == total_funds) by (nonlinear_arith);
    }
}

} // verus!
