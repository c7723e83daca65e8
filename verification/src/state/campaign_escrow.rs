//! The record of a campaign: who governs it, its treasury, the escrows of
//! its deposit currencies, its counters and its payout schedule.

use vstd::prelude::*;
use crate::constants::ONE_HUNDRED_PERCENT_BASIS_POINTS;
use crate::errors::CampaignTreasuryManagerError;
use crate::pubkey::{cmp_pubkeys, Pubkey};
use crate::state::payout_phases::{first_true_from, PayoutPhases};
use crate::utils::buffer_times::{min_time_buffer_holds, BufferTimes};
use crate::utils::utils::assert_min_time_buffer;

verus! {

/// The escrow of one deposit currency, as the campaign escrow lists it.
#[derive(Clone, Copy, Debug, PartialEq, Eq)]
pub struct DepositEscrowInfo {
    /// The bump of the escrow's address.
    pub deposit_escrow_bump: u8,
    /// The mint of the currency.
    pub mint: Pubkey,
    /// Whether the escrow was closed. Every escrow listed is closed before
    /// the campaign escrow is.
    pub closed: bool,
}

/// The treasury of a campaign.
#[derive(Clone, Copy, Debug, PartialEq, Eq)]
pub struct Treasury {
    /// The bump of the address of the treasury escrow.
    pub bump: u8,
    /// The mint of the currency in which the treasury is held.
    pub treasury_mint: Pubkey,
    /// The account that holds the funds.
    pub treasury_escrow: Pubkey,
    /// All that was ever deposited into the treasury. Payouts do not
    /// lower it.
    pub total_funds: u64,
}

/// The record of a campaign.
#[derive(Debug)]
pub struct CampaignEscrow {
    /// The bump of the record's address.
    pub bump: u8,
    /// The identifier of the campaign.
    pub campaign_uuid: String,
    /// Who may update the escrow, veto payouts and close the escrow.
    pub authority: Pubkey,
    /// Who created the campaign.
    pub creator: Pubkey,
    /// Where payouts go.
    pub payout_wallet: Pubkey,
    pub treasury: Treasury,
    /// The escrows of the deposit currencies other than the treasury's.
    pub deposit_escrow_infos: Vec<DepositEscrowInfo>,
    /// When the campaign ends.
    pub campaign_end_time: i64,
    /// How many deposits were made.
    pub deposit_count: u64,
    /// How many deposits have reached the treasury.
    pub processed_deposit_count: u64,
    /// How many deposit records were closed.
    pub closed_deposit_record_count: u64,
    /// Whether the authority has declared the payouts ready.
    pub payouts_ready: bool,
    pub payout_phases: PayoutPhases,
}

/// The share of `total_funds` that `payout_basis_points` stands for: the
/// product is taken in full and then divided, rounding down.
pub open spec fn payout_amount(total_funds: int, payout_basis_points: int) -> int {
    total_funds * payout_basis_points / (ONE_HUNDRED_PERCENT_BASIS_POINTS as int)
}

/// The list after every escrow of the currency `mint` was closed.
pub open spec fn with_closed(infos: Seq<DepositEscrowInfo>, mint: Seq<u8>) -> Seq<DepositEscrowInfo> {
    Seq::new(
        infos.len(),
        |j: int|
            if infos[j].mint@ == mint {
                DepositEscrowInfo { closed: true, ..infos[j] }
            } else {
                infos[j]
            },
    )
}

impl CampaignEscrow {
    /// How many deposit escrows a campaign may list.
    pub const DEPOSIT_ESCROW_INFOS_MAX_LEN: usize = 4;

    /// The seed prefix of the record's address.
    pub const PREFIX: &'static str = "campaign_escrow";

    /// For each escrow listed, whether it is that of the currency `mint`.
    pub open spec fn escrow_matches(&self, mint: Seq<u8>) -> Seq<bool> {
        Seq::new(
            self.deposit_escrow_infos@.len(),
            |j: int| self.deposit_escrow_infos@[j].mint@ == mint,
        )
    }

    /// The place in the list of the escrow of the currency `mint`.
    pub open spec fn deposit_escrow_position(&self, mint: Seq<u8>) -> Option<int> {
        first_true_from(self.escrow_matches(mint), 0)
    }

    /// Whether an escrow of the currency `mint` is listed.
    pub open spec fn has_deposit_escrow(&self, mint: Seq<u8>) -> bool {
        self.deposit_escrow_position(mint) is Some
    }

    /// Whether every escrow listed was closed.
    pub open spec fn all_deposit_escrows_closed(&self) -> bool {
        forall|j: int|
            0 <= j < self.deposit_escrow_infos@.len() ==> (#[trigger] self.deposit_escrow_infos@[j]).closed
    }

    /// What holds of every campaign escrow that the operations produce: no
    /// currency has two escrows, the list has room for what it holds, no
    /// more deposits reached the treasury than were made, and the schedule
    /// shares out the whole.
    pub open spec fn well_formed(&self) -> bool {
        &&& self.payout_phases@.shares_out_the_whole()
        &&& self.deposit_escrow_infos@.len() <= CampaignEscrow::DEPOSIT_ESCROW_INFOS_MAX_LEN
        &&& forall|j: int, k: int|
            0 <= j < k < self.deposit_escrow_infos@.len() ==> (
            #[trigger] self.deposit_escrow_infos@[j]).mint@ != (
            #[trigger] self.deposit_escrow_infos@[k]).mint@
        &&& self.processed_deposit_count <= self.deposit_count
    }

    /// Whether every payout was made and the time kept for refunds after
    /// the last one is over.
    pub open spec fn all_payouts_are_complete(&self, now: int, policy: BufferTimes) -> bool {
        let schedule = self.payout_phases@;
        &&& schedule.current_active_index() is None
        &&& schedule.ordered_count() > 0 ==> min_time_buffer_holds(
            schedule.ordered_list().last().shared_fields().refund_deadline as int,
            now,
            policy.last_refund_deadline_to_close_escrow as int,
        )
    }

    /// Whether the campaign escrow may be closed: every payout is complete
    /// and every deposit escrow was closed.
    pub open spec fn can_close(&self, now: int, policy: BufferTimes) -> bool {
        self.all_payouts_are_complete(now, policy) && self.all_deposit_escrows_closed()
    }

    /// Counts one more deposit.
    pub fn increment_deposit_count(&mut self)
        requires
            old(self).deposit_count < u64::MAX,
        ensures
            *final(self) == (CampaignEscrow {
                deposit_count: (old(self).deposit_count + 1) as u64,
                ..*old(self)
            }),
    {
        self.deposit_count = self.deposit_count + 1;
    }

    /// Counts one more deposit that reached the treasury.
    pub fn increment_processed_deposit_count(&mut self)
        requires
            old(self).processed_deposit_count < u64::MAX,
        ensures
            *final(self) == (CampaignEscrow {
                processed_deposit_count: (old(self).processed_deposit_count + 1) as u64,
                ..*old(self)
            }),
    {
        self.processed_deposit_count = self.processed_deposit_count + 1;
    }

    /// Adds `funds_to_add` to what was deposited into the treasury.
    pub fn increment_total_funds(&mut self, funds_to_add: u64)
        requires
            old(self).treasury.total_funds + funds_to_add <= u64::MAX,
        ensures
            *final(self) == (CampaignEscrow {
                treasury: Treasury {
                    total_funds: (old(self).treasury.total_funds + funds_to_add) as u64,
                    ..old(self).treasury
                },
                ..*old(self)
            }),
    {
        self.treasury.total_funds = self.treasury.total_funds + funds_to_add;
    }

    /// Lists the escrow of a new deposit currency, open.
    pub fn add_deposit_escrow_info(&mut self, mint: Pubkey, deposit_escrow_bump: u8)
        ensures
            final(self).deposit_escrow_infos@ == old(self).deposit_escrow_infos@.push(
                DepositEscrowInfo { deposit_escrow_bump, mint, closed: false },
            ),
            *final(self) == (CampaignEscrow {
                deposit_escrow_infos: final(self).deposit_escrow_infos,
                ..*old(self)
            }),
    {
        self.deposit_escrow_infos.push(DepositEscrowInfo { deposit_escrow_bump, mint, closed: false });
    }

    /// Records that the escrow of the currency `mint` was closed.
    pub fn mark_deposit_escrow_as_closed(&mut self, mint: &Pubkey)
        ensures
            final(self).deposit_escrow_infos@ == with_closed(old(self).deposit_escrow_infos@, mint@),
            *final(self) == (CampaignEscrow {
                deposit_escrow_infos: final(self).deposit_escrow_infos,
                ..*old(self)
            }),
            old(self).well_formed() ==> final(self).well_formed(),
    {
        let ghost before = self.deposit_escrow_infos@;
        let mut i: usize = 0;
        while i < self.deposit_escrow_infos.len()
            invariant
                i <= before.len(),
                self.deposit_escrow_infos@.len() == before.len(),
                forall|j: int|
                    0 <= j < i ==> self.deposit_escrow_infos@[j] == with_closed(before, mint@)[j],
                forall|j: int| i <= j < before.len() ==> self.deposit_escrow_infos@[j] == before[j],
                self.bump == old(self).bump,
                self.campaign_uuid == old(self).campaign_uuid,
                self.authority == old(self).authority,
                self.creator == old(self).creator,
                self.payout_wallet == old(self).payout_wallet,
                self.treasury == old(self).treasury,
                self.campaign_end_time == old(self).campaign_end_time,
                self.deposit_count == old(self).deposit_count,
                self.processed_deposit_count == old(self).processed_deposit_count,
                self.closed_deposit_record_count == old(self).closed_deposit_record_count,
                self.payouts_ready == old(self).payouts_ready,
                self.payout_phases == old(self).payout_phases,
            decreases before.len() - i,
        {
            if cmp_pubkeys(&self.deposit_escrow_infos[i].mint, mint) {
                self.deposit_escrow_infos[i].closed = true;
            }
            i += 1;
        }
    }

    /// The escrow listed for the currency `mint`, if one is.
    pub fn get_deposit_escrow_info(&self, mint: &Pubkey) -> (info: Option<&DepositEscrowInfo>)
        ensures
            match info {
                Some(info) => {
                    &&& self.deposit_escrow_position(mint@) matches Some(position)
                    &&& *info == self.deposit_escrow_infos@[position]
                    &&& info.mint@ == mint@
                },
                None => !self.has_deposit_escrow(mint@),
            },
    {
        let ghost matches = self.escrow_matches(mint@);
        let ghost mut from: int = 0;
        let mut i: usize = 0;
        while i < self.deposit_escrow_infos.len()
            invariant
                from == i,
                i <= self.deposit_escrow_infos@.len(),
                matches == self.escrow_matches(mint@),
                first_true_from(matches, 0) == first_true_from(matches, from),
            decreases self.deposit_escrow_infos@.len() - i,
        {
            let info = &self.deposit_escrow_infos[i];
            if cmp_pubkeys(&info.mint, mint) {
                return Some(info);
            }
            i += 1;
            proof {
                from = from + 1;
            }
        }
        None
    }

    /// The share of the treasury that `payout_basis_points` stands for,
    /// where that fits the type: the product of the funds and the basis
    /// points, taken in full, divided by the basis points of the whole.
    pub fn calculate_payout_amount_from_payout_basis_points(&self, payout_basis_points: u16) -> (amount: u64)
        requires
            payout_amount(self.treasury.total_funds as int, payout_basis_points as int) <= u64::MAX,
        ensures
            amount == payout_amount(self.treasury.total_funds as int, payout_basis_points as int),
    {
        let total_funds = self.treasury.total_funds as u128;
        let basis_points = payout_basis_points as u128;
        assert(total_funds * basis_points <= u64::MAX * u16::MAX) by (nonlinear_arith)
            requires
                total_funds <= u64::MAX,
                basis_points <= u16::MAX,
        ;
        let amount = total_funds * basis_points / (ONE_HUNDRED_PERCENT_BASIS_POINTS as u128);
        amount as u64
    }

    /// Accepts a campaign escrow that may be closed: see
    /// [`CampaignEscrow::can_close`].
    pub fn assert_can_close_campaign_escrow(&self, now: i64, policy: &BufferTimes) -> (result: Result<
        (),
        CampaignTreasuryManagerError,
    >)
        ensures
            result is Ok <==> self.can_close(now as int, *policy),
            result is Err ==> result == Err::<(), _>(CampaignTreasuryManagerError::InvalidCloseEscrow),
    {
        self.assert_all_payouts_are_complete(now, policy)?;

        let mut i: usize = 0;
        while i < self.deposit_escrow_infos.len()
            invariant
                i <= self.deposit_escrow_infos@.len(),
                forall|j: int| 0 <= j < i ==> (#[trigger] self.deposit_escrow_infos@[j]).closed,
            decreases self.deposit_escrow_infos@.len() - i,
        {
            if !self.deposit_escrow_infos[i].closed {
                return Err(CampaignTreasuryManagerError::InvalidCloseEscrow);
            }
            i += 1;
        }

        Ok(())
    }

    /// Accepts a campaign escrow whose payouts are complete: see
    /// [`CampaignEscrow::all_payouts_are_complete`].
    pub fn assert_all_payouts_are_complete(&self, now: i64, policy: &BufferTimes) -> (result: Result<
        (),
        CampaignTreasuryManagerError,
    >)
        ensures
            result is Ok <==> self.all_payouts_are_complete(now as int, *policy),
            result is Err ==> result == Err::<(), _>(CampaignTreasuryManagerError::InvalidCloseEscrow),
    {
        let next_payout = self.payout_phases.get_current_active_payout_phase_for_payout();
        if next_payout.is_some() {
            return Err(CampaignTreasuryManagerError::InvalidCloseEscrow);
        }
        let ordered_list = self.payout_phases.to_ordered_list();
        proof {
            self.payout_phases@.lemma_ordered_list();
        }
        if ordered_list.len() > 0 {
            let last_payout = ordered_list[ordered_list.len() - 1];
            let refund_deadline = last_payout.get_refund_deadline();
            assert_min_time_buffer(
                refund_deadline,
                now,
                policy.last_refund_deadline_to_close_escrow,
                CampaignTreasuryManagerError::InvalidCloseEscrow,
            )?;
        }
        Ok(())
    }
}

} // verus!
