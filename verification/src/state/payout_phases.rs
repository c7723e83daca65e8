//! The payout schedule of a campaign.
//!
//! A schedule is one ordered sequence of phases. It is stored in two
//! collections, one per kind of phase, and the order is given by the index
//! that each phase carries, never by the place where a phase is stored.
//! [`PayoutSchedule`] is the mathematical model of the stored schedule; the
//! contracts of [`PayoutPhases`] are stated over it.

use vstd::prelude::*;
use crate::constants::ONE_HUNDRED_PERCENT_BASIS_POINTS;
use crate::errors::CampaignTreasuryManagerError;
use crate::utils::buffer_times::BufferTimes;
use crate::utils::utils::{assert_payout_phase_is_valid, payout_phase_is_valid};

verus! {

/// What both kinds of phase have in common.
#[derive(Debug)]
pub struct SharedPayoutPhaseFields {
    /// The place of the phase in the order of the schedule, from zero.
    pub index: u8,
    /// The share of the treasury that the phase pays out.
    pub payout_basis_points: u16,
    /// When the payout may be made. Refunds may begin then too.
    pub payout_time: i64,
    /// Until when refunds for this phase may be claimed.
    pub refund_deadline: i64,
    /// A description, or the address of one.
    pub description: String,
}

impl Clone for SharedPayoutPhaseFields {
    fn clone(&self) -> (copy: Self)
        ensures
            copy == *self,
    {
        SharedPayoutPhaseFields {
            index: self.index,
            payout_basis_points: self.payout_basis_points,
            payout_time: self.payout_time,
            refund_deadline: self.refund_deadline,
            description: self.description.clone(),
        }
    }
}

impl SharedPayoutPhaseFields {
    /// The length of the description in bytes.
    pub open spec fn description_len(&self) -> nat {
        vstd::utf8::encode_utf8(self.description@).len()
    }
}

/// A phase that is paid out unless the authority vetoes it.
#[derive(Debug)]
pub struct NonVotingPayoutPhase {
    pub shared_fields: SharedPayoutPhaseFields,
    /// Whether the payout was made.
    pub is_paid_out: bool,
    /// Whether the authority vetoed the payout.
    pub is_vetoed_by_authority: bool,
}

impl Clone for NonVotingPayoutPhase {
    fn clone(&self) -> (copy: Self)
        ensures
            copy == *self,
    {
        NonVotingPayoutPhase {
            shared_fields: self.shared_fields.clone(),
            is_paid_out: self.is_paid_out,
            is_vetoed_by_authority: self.is_vetoed_by_authority,
        }
    }
}

/// What describes a new phase without a vote.
#[derive(Debug)]
pub struct NonVotingPayoutPhaseInput {
    pub shared_fields: SharedPayoutPhaseFields,
}

impl Clone for NonVotingPayoutPhaseInput {
    fn clone(&self) -> (copy: Self)
        ensures
            copy == *self,
    {
        NonVotingPayoutPhaseInput { shared_fields: self.shared_fields.clone() }
    }
}

impl NonVotingPayoutPhaseInput {
    /// The phase described, with no payout made and no veto cast.
    pub open spec fn scheduled(self) -> NonVotingPayoutPhase {
        NonVotingPayoutPhase {
            shared_fields: self.shared_fields,
            is_paid_out: false,
            is_vetoed_by_authority: false,
        }
    }
}

/// A phase on which the supporters of the campaign may cast veto votes.
#[derive(Debug)]
pub struct VotingPayoutPhase {
    pub shared_fields: SharedPayoutPhaseFields,
    /// Whether the payout was made.
    pub is_paid_out: bool,
    /// Whether the authority vetoed the payout.
    pub is_vetoed_by_authority: bool,
    /// From when veto votes may be cast.
    pub voting_start_time: i64,
    /// The veto votes cast.
    pub veto_votes: u64,
    /// The share of veto votes, in basis points, that vetoes the phase.
    pub vote_basis_points_veto_threshold: u64,
}

impl Clone for VotingPayoutPhase {
    fn clone(&self) -> (copy: Self)
        ensures
            copy == *self,
    {
        VotingPayoutPhase {
            shared_fields: self.shared_fields.clone(),
            is_paid_out: self.is_paid_out,
            is_vetoed_by_authority: self.is_vetoed_by_authority,
            voting_start_time: self.voting_start_time,
            veto_votes: self.veto_votes,
            vote_basis_points_veto_threshold: self.vote_basis_points_veto_threshold,
        }
    }
}

/// What describes a new phase with a vote.
#[derive(Debug)]
pub struct VotingPayoutPhaseInput {
    pub shared_fields: SharedPayoutPhaseFields,
    pub voting_start_time: i64,
    pub veto_votes: u64,
    pub vote_basis_points_veto_threshold: u64,
}

impl Clone for VotingPayoutPhaseInput {
    fn clone(&self) -> (copy: Self)
        ensures
            copy == *self,
    {
        VotingPayoutPhaseInput {
            shared_fields: self.shared_fields.clone(),
            voting_start_time: self.voting_start_time,
            veto_votes: self.veto_votes,
            vote_basis_points_veto_threshold: self.vote_basis_points_veto_threshold,
        }
    }
}

impl VotingPayoutPhaseInput {
    /// The phase described, with no payout made and no veto cast.
    pub open spec fn scheduled(self) -> VotingPayoutPhase {
        VotingPayoutPhase {
            shared_fields: self.shared_fields,
            is_paid_out: false,
            is_vetoed_by_authority: false,
            voting_start_time: self.voting_start_time,
            veto_votes: self.veto_votes,
            vote_basis_points_veto_threshold: self.vote_basis_points_veto_threshold,
        }
    }
}

/// A phase of either kind, as the schedule hands it out.
#[derive(Clone, Copy, Debug)]
pub enum PayoutPhaseEnum<'a> {
    Voting(&'a VotingPayoutPhase),
    NonVoting(&'a NonVotingPayoutPhase),
}

impl PayoutPhaseEnum<'_> {
    pub open spec fn shared_fields(&self) -> SharedPayoutPhaseFields {
        match self {
            PayoutPhaseEnum::Voting(val) => val.shared_fields,
            PayoutPhaseEnum::NonVoting(val) => val.shared_fields,
        }
    }

    pub open spec fn is_paid_out(&self) -> bool {
        match self {
            PayoutPhaseEnum::Voting(val) => val.is_paid_out,
            PayoutPhaseEnum::NonVoting(val) => val.is_paid_out,
        }
    }

    pub open spec fn is_vetoed_by_authority(&self) -> bool {
        match self {
            PayoutPhaseEnum::Voting(val) => val.is_vetoed_by_authority,
            PayoutPhaseEnum::NonVoting(val) => val.is_vetoed_by_authority,
        }
    }

    pub fn get_index(&self) -> (index: u8)
        ensures
            index == self.shared_fields().index,
    {
        match self {
            PayoutPhaseEnum::Voting(val) => val.shared_fields.index,
            PayoutPhaseEnum::NonVoting(val) => val.shared_fields.index,
        }
    }

    pub fn get_payout_basis_points(&self) -> (basis_points: u16)
        ensures
            basis_points == self.shared_fields().payout_basis_points,
    {
        match self {
            PayoutPhaseEnum::Voting(val) => val.shared_fields.payout_basis_points,
            PayoutPhaseEnum::NonVoting(val) => val.shared_fields.payout_basis_points,
        }
    }

    pub fn get_payout_time(&self) -> (payout_time: i64)
        ensures
            payout_time == self.shared_fields().payout_time,
    {
        match self {
            PayoutPhaseEnum::Voting(val) => val.shared_fields.payout_time,
            PayoutPhaseEnum::NonVoting(val) => val.shared_fields.payout_time,
        }
    }

    pub fn get_refund_deadline(&self) -> (refund_deadline: i64)
        ensures
            refund_deadline == self.shared_fields().refund_deadline,
    {
        match self {
            PayoutPhaseEnum::Voting(val) => val.shared_fields.refund_deadline,
            PayoutPhaseEnum::NonVoting(val) => val.shared_fields.refund_deadline,
        }
    }

    pub fn get_description(&self) -> (description: &String)
        ensures
            *description == self.shared_fields().description,
    {
        match self {
            PayoutPhaseEnum::Voting(val) => &val.shared_fields.description,
            PayoutPhaseEnum::NonVoting(val) => &val.shared_fields.description,
        }
    }

    pub fn get_is_paid_out(&self) -> (paid_out: bool)
        ensures
            paid_out == self.is_paid_out(),
    {
        match self {
            PayoutPhaseEnum::Voting(val) => val.is_paid_out,
            PayoutPhaseEnum::NonVoting(val) => val.is_paid_out,
        }
    }

    pub fn get_is_vetoed_by_authority(&self) -> (vetoed: bool)
        ensures
            vetoed == self.is_vetoed_by_authority(),
    {
        match self {
            PayoutPhaseEnum::Voting(val) => val.is_vetoed_by_authority,
            PayoutPhaseEnum::NonVoting(val) => val.is_vetoed_by_authority,
        }
    }
}

/// Where a phase is stored: the collection and the place in it.
pub enum PhaseSlot {
    Voting(int),
    NonVoting(int),
}

/// The first place at or after `from` where `flags` holds `true`.
pub open spec fn first_true_from(flags: Seq<bool>, from: int) -> Option<int>
    decreases flags.len() - from,
{
    if from < 0 || from >= flags.len() {
        None
    } else if flags[from] {
        Some(from)
    } else {
        first_true_from(flags, from + 1)
    }
}

/// The sum of the shares of the first `count` phases of `phases`.
pub open spec fn sum_basis_points(phases: Seq<PayoutPhaseEnum>, count: int) -> int
    decreases count,
{
    if count <= 0 {
        0
    } else {
        sum_basis_points(phases, count - 1) + phases[count - 1].shared_fields().payout_basis_points
    }
}

/// The schedule of a campaign as a mathematical value: the phases of each
/// kind, in the order in which they are stored.
pub struct PayoutSchedule {
    pub non_voting: Seq<NonVotingPayoutPhase>,
    pub voting: Seq<VotingPayoutPhase>,
}

impl PayoutSchedule {
    /// The number of phases.
    pub open spec fn len(self) -> nat {
        self.non_voting.len() + self.voting.len()
    }

    /// For each phase with a vote, whether it carries `index`.
    pub open spec fn voting_matches(self, index: int) -> Seq<bool> {
        Seq::new(self.voting.len(), |j: int| self.voting[j].shared_fields.index == index)
    }

    /// For each phase without a vote, whether it carries `index`.
    pub open spec fn non_voting_matches(self, index: int) -> Seq<bool> {
        Seq::new(self.non_voting.len(), |j: int| self.non_voting[j].shared_fields.index == index)
    }

    /// Where the phase of the given index is stored. Of several phases that
    /// carry the same index, one with a vote comes before one without, and
    /// among those of one kind the one stored first.
    pub open spec fn slot_at(self, index: int) -> Option<PhaseSlot> {
        match first_true_from(self.voting_matches(index), 0) {
            Some(j) => Some(PhaseSlot::Voting(j)),
            None => match first_true_from(self.non_voting_matches(index), 0) {
                Some(j) => Some(PhaseSlot::NonVoting(j)),
                None => None,
            },
        }
    }

    /// The phase stored in `slot`.
    pub open spec fn phase_in(self, slot: PhaseSlot) -> PayoutPhaseEnum<'static> {
        match slot {
            PhaseSlot::Voting(j) => PayoutPhaseEnum::Voting(&self.voting[j]),
            PhaseSlot::NonVoting(j) => PayoutPhaseEnum::NonVoting(&self.non_voting[j]),
        }
    }

    /// The phase of the given index, if the schedule has one.
    pub open spec fn phase_at(self, index: int) -> Option<PayoutPhaseEnum<'static>> {
        match self.slot_at(index) {
            Some(slot) => Some(self.phase_in(slot)),
            None => None,
        }
    }

    /// The first index from `index` on, and below the number of phases,
    /// that no phase carries; the number of phases if there is none.
    pub open spec fn ordered_count_from(self, index: nat) -> nat
        decreases self.len() - index,
    {
        if index < self.len() && self.slot_at(index as int) is Some {
            self.ordered_count_from(index + 1)
        } else {
            index
        }
    }

    /// How many phases the ordered list holds: the indices 0, 1, 2, ... as
    /// far as a phase carries each.
    pub open spec fn ordered_count(self) -> nat {
        self.ordered_count_from(0)
    }

    /// The phases in ascending order of their index.
    pub open spec fn ordered_list(self) -> Seq<PayoutPhaseEnum<'static>> {
        Seq::new(self.ordered_count(), |index: int| self.phase_at(index).unwrap())
    }

    /// Whether some phase carries `index`.
    pub open spec fn carries(self, index: int) -> bool {
        ||| exists|j: int|
            0 <= j < self.voting.len() && (#[trigger] self.voting[j]).shared_fields.index == index
        ||| exists|j: int|
            0 <= j < self.non_voting.len() && (#[trigger] self.non_voting[j]).shared_fields.index
                == index
    }

    /// Whether the indices of the phases are 0, 1, ..., one for each phase:
    /// whether each of the numbers below the number of phases is carried.
    pub open spec fn has_contiguous_indices(self) -> bool {
        forall|index: int| 0 <= index < self.len() ==> #[trigger] self.carries(index)
    }

    /// The sum of the shares of the phases of the ordered list.
    pub open spec fn total_basis_points(self) -> int {
        sum_basis_points(self.ordered_list(), self.ordered_count() as int)
    }

    /// Whether the schedule shares out the whole: it is empty, or the
    /// indices of its phases are 0, 1, ..., one for each phase, and their
    /// shares add up to the whole. Payouts and vetoes do not change it.
    pub open spec fn shares_out_the_whole(self) -> bool {
        self.len() == 0 || {
            &&& self.has_contiguous_indices()
            &&& self.total_basis_points() == ONE_HUNDRED_PERCENT_BASIS_POINTS
        }
    }

    /// Whether the phase of the ordered list at `index` is in order, held
    /// against the campaign end time or against the phase before it.
    pub open spec fn is_valid_at(self, index: int, campaign_end_time: int, policy: BufferTimes) -> bool {
        payout_phase_is_valid(
            index,
            self.ordered_list()[index],
            if index > 0 {
                Some(self.ordered_list()[index - 1])
            } else {
                None
            },
            campaign_end_time,
            policy,
        )
    }

    /// Whether the schedule is in order as a whole. The empty schedule is.
    /// Any other has the indices 0, 1, ..., one for each phase; its shares
    /// add up to the whole; its payout times ascend strictly from after the
    /// campaign end time; every refund deadline lies after its payout time;
    /// and the policy admits each of these distances.
    pub open spec fn is_valid(self, campaign_end_time: int, policy: BufferTimes) -> bool {
        self.len() == 0 || {
            &&& self.has_contiguous_indices()
            &&& self.total_basis_points() == ONE_HUNDRED_PERCENT_BASIS_POINTS
            &&& forall|index: int|
                0 <= index < self.ordered_count() ==> #[trigger] self.is_valid_at(
                    index,
                    campaign_end_time,
                    policy,
                )
        }
    }

    /// For each phase of the ordered list, whether its payout is still to
    /// be made.
    pub open spec fn unpaid(self) -> Seq<bool> {
        Seq::new(self.ordered_count(), |index: int| !self.ordered_list()[index].is_paid_out())
    }

    /// The index of the phase whose payout comes next: the lowest index of
    /// the ordered list whose payout was not made. A veto does not count.
    pub open spec fn current_active_index(self) -> Option<int> {
        first_true_from(self.unpaid(), 0)
    }

    /// The phase whose payout comes next, if any is left.
    pub open spec fn current_active_payout_phase(self) -> Option<PayoutPhaseEnum<'static>> {
        match self.current_active_index() {
            Some(index) => Some(self.ordered_list()[index]),
            None => None,
        }
    }

    /// The schedule after the payout of the phase in `slot` was made.
    pub open spec fn disbursed(self, slot: PhaseSlot) -> PayoutSchedule {
        match slot {
            PhaseSlot::Voting(j) => PayoutSchedule {
                voting: self.voting.update(
                    j,
                    VotingPayoutPhase { is_paid_out: true, ..self.voting[j] },
                ),
                ..self
            },
            PhaseSlot::NonVoting(j) => PayoutSchedule {
                non_voting: self.non_voting.update(
                    j,
                    NonVotingPayoutPhase { is_paid_out: true, ..self.non_voting[j] },
                ),
                ..self
            },
        }
    }

    /// The schedule after the authority vetoed the phase in `slot`.
    pub open spec fn vetoed(self, slot: PhaseSlot) -> PayoutSchedule {
        match slot {
            PhaseSlot::Voting(j) => PayoutSchedule {
                voting: self.voting.update(
                    j,
                    VotingPayoutPhase { is_vetoed_by_authority: true, ..self.voting[j] },
                ),
                ..self
            },
            PhaseSlot::NonVoting(j) => PayoutSchedule {
                non_voting: self.non_voting.update(
                    j,
                    NonVotingPayoutPhase { is_vetoed_by_authority: true, ..self.non_voting[j] },
                ),
                ..self
            },
        }
    }

    /// The schedule after the payout that came next was made. Where none
    /// is left the schedule stays as it is.
    pub open spec fn mark_current_active_payout_phase_as_disbursed(self) -> PayoutSchedule {
        match self.current_active_index() {
            Some(index) => self.disbursed(self.slot_at(index).unwrap()),
            None => self,
        }
    }

    /// The schedule after the authority vetoed the phase at the place
    /// `ordinal` of the ordered list. Where the list has no such place, and
    /// where the payout of the phase was made already, the schedule stays as
    /// it is.
    pub open spec fn veto_payout_phase_by_authority(self, ordinal: int) -> PayoutSchedule {
        if 0 <= ordinal < self.ordered_count() && !self.ordered_list()[ordinal].is_paid_out() {
            self.vetoed(self.slot_at(ordinal).unwrap())
        } else {
            self
        }
    }

    /// The schedule that the given descriptions make: no payout made, no
    /// veto cast.
    pub open spec fn scheduled(
        non_voting_input: Seq<NonVotingPayoutPhaseInput>,
        voting_input: Seq<VotingPayoutPhaseInput>,
    ) -> PayoutSchedule {
        PayoutSchedule {
            non_voting: Seq::new(non_voting_input.len(), |j: int| non_voting_input[j].scheduled()),
            voting: Seq::new(voting_input.len(), |j: int| voting_input[j].scheduled()),
        }
    }

    /// Whether the schedule fits the room that is kept for it: one phase
    /// without a vote, three with one, and 200 bytes for each description.
    pub open spec fn is_within_capacity(self) -> bool {
        &&& self.non_voting.len() <= PayoutPhases::NON_VOTING_PAYOUT_PHASE_LEN_LIMIT
        &&& self.voting.len() <= PayoutPhases::VOTING_PAYOUT_PHASE_LEN_LIMIT
        &&& forall|j: int|
            0 <= j < self.non_voting.len() ==> (
            #[trigger] self.non_voting[j]).shared_fields.description_len()
                <= PayoutPhases::MAX_DESCRIPTION_LENGTH
        &&& forall|j: int|
            0 <= j < self.voting.len() ==> (#[trigger] self.voting[j]).shared_fields.description_len()
                <= PayoutPhases::MAX_DESCRIPTION_LENGTH
    }
}

/// What `first_true_from` finds: the place it gives holds `true` and none
/// from `from` up to it does; where it gives none, none from `from` on does.
pub proof fn lemma_first_true_from(flags: Seq<bool>, from: int)
    requires
        0 <= from,
    ensures
        match first_true_from(flags, from) {
            Some(found) => {
                &&& from <= found < flags.len()
                &&& flags[found]
                &&& forall|k: int| from <= k < found ==> !flags[k]
            },
            None => forall|k: int| from <= k < flags.len() ==> !flags[k],
        },
    decreases flags.len() - from,
{
    if from < flags.len() && !flags[from] {
        lemma_first_true_from(flags, from + 1);
    }
}

impl PayoutSchedule {
    /// A phase found for an index carries that index, and an index that a
    /// phase carries fits a byte.
    pub proof fn lemma_slot_at(self, index: int)
        ensures
            match self.slot_at(index) {
                Some(PhaseSlot::Voting(j)) => {
                    &&& 0 <= j < self.voting.len()
                    &&& self.voting[j].shared_fields.index == index
                    &&& forall|k: int| 0 <= k < j ==> self.voting[k].shared_fields.index != index
                },
                Some(PhaseSlot::NonVoting(j)) => {
                    &&& 0 <= j < self.non_voting.len()
                    &&& self.non_voting[j].shared_fields.index == index
                    &&& forall|k: int| 0 <= k < j ==> self.non_voting[k].shared_fields.index != index
                    &&& forall|k: int|
                        0 <= k < self.voting.len() ==> self.voting[k].shared_fields.index != index
                },
                None => {
                    &&& forall|k: int|
                        0 <= k < self.voting.len() ==> self.voting[k].shared_fields.index != index
                    &&& forall|k: int|
                        0 <= k < self.non_voting.len() ==> self.non_voting[k].shared_fields.index
                            != index
                },
            },
            self.slot_at(index) is Some ==> 0 <= index <= u8::MAX,
            self.slot_at(index) is Some ==> self.phase_at(index).unwrap().shared_fields().index
                == index,
    {
        let voting = self.voting_matches(index);
        let non_voting = self.non_voting_matches(index);
        lemma_first_true_from(voting, 0);
        lemma_first_true_from(non_voting, 0);
        assert forall|k: int| 0 <= k < self.voting.len() implies ((
        #[trigger] self.voting[k]).shared_fields.index == index) == voting[k] by {}
        assert forall|k: int| 0 <= k < self.non_voting.len() implies ((
        #[trigger] self.non_voting[k]).shared_fields.index == index) == non_voting[k] by {}
    }

    /// The ordered list stops at the first index that no phase carries.
    pub proof fn lemma_ordered_count_from(self, index: nat)
        requires
            index <= self.len(),
        ensures
            index <= self.ordered_count_from(index) <= self.len(),
            forall|i: int|
                index <= i < self.ordered_count_from(index) ==> self.slot_at(i) is Some,
            self.ordered_count_from(index) < self.len() ==> self.slot_at(
                self.ordered_count_from(index) as int,
            ) is None,
        decreases self.len() - index,
    {
        if index < self.len() && self.slot_at(index as int) is Some {
            self.lemma_ordered_count_from(index + 1);
        }
    }

    /// The ordered list holds as many phases as the schedule exactly when
    /// the indices of the phases are 0, 1, ..., one for each phase.
    pub proof fn lemma_has_contiguous_indices(self)
        ensures
            self.has_contiguous_indices() <==> self.ordered_count() == self.len(),
    {
        self.lemma_ordered_count_from(0);
        if self.has_contiguous_indices() {
            if self.ordered_count() < self.len() {
                let missing = self.ordered_count() as int;
                assert(self.carries(missing));
                self.lemma_slot_at(missing);
            }
        } else {
            if self.ordered_count() == self.len() {
                assert forall|index: int| 0 <= index < self.len() implies #[trigger] self.carries(
                    index,
                ) by {
                    self.lemma_slot_at(index);
                }
            }
        }
    }

    /// What the ordered list holds: at each place the phase that carries
    /// the place as its index.
    pub proof fn lemma_ordered_list(self)
        ensures
            self.ordered_list().len() == self.ordered_count(),
            self.ordered_count() <= self.len(),
            self.ordered_count() <= u8::MAX + 1,
            forall|i: int|
                0 <= i < self.ordered_count() ==> {
                    &&& self.slot_at(i) is Some
                    &&& #[trigger] self.ordered_list()[i] == self.phase_in(self.slot_at(i).unwrap())
                    &&& self.ordered_list()[i].shared_fields().index == i
                },
            self.ordered_count() < self.len() ==> self.slot_at(self.ordered_count() as int) is None,
    {
        self.lemma_ordered_count_from(0);
        assert forall|i: int| 0 <= i < self.ordered_count() implies {
            &&& self.slot_at(i) is Some
            &&& #[trigger] self.ordered_list()[i] == self.phase_in(self.slot_at(i).unwrap())
            &&& self.ordered_list()[i].shared_fields().index == i
        } by {
            self.lemma_slot_at(i);
        }
        if self.ordered_count() > u8::MAX + 1 {
            self.lemma_slot_at(u8::MAX + 1);
        }
    }
}

impl PayoutSchedule {
    /// Whether `slot` is a place of the schedule.
    pub open spec fn holds(self, slot: PhaseSlot) -> bool {
        match slot {
            PhaseSlot::Voting(j) => 0 <= j < self.voting.len(),
            PhaseSlot::NonVoting(j) => 0 <= j < self.non_voting.len(),
        }
    }

    /// Whether `other` has the phases of `self` in the same places, with
    /// nothing changed but, possibly, what is recorded of payouts and vetoes.
    pub open spec fn same_plan_as(self, other: PayoutSchedule) -> bool {
        &&& self.voting.len() == other.voting.len()
        &&& self.non_voting.len() == other.non_voting.len()
        &&& forall|j: int|
            0 <= j < self.voting.len() ==> (#[trigger] self.voting[j]).shared_fields
                == other.voting[j].shared_fields
        &&& forall|j: int|
            0 <= j < self.non_voting.len() ==> (#[trigger] self.non_voting[j]).shared_fields
                == other.non_voting[j].shared_fields
    }

    proof fn lemma_same_plan_count_from(self, other: PayoutSchedule, index: nat)
        requires
            self.len() == other.len(),
            forall|i: int| self.slot_at(i) == other.slot_at(i),
        ensures
            self.ordered_count_from(index) == other.ordered_count_from(index),
        decreases self.len() - index,
    {
        if index < self.len() && self.slot_at(index as int) is Some {
            self.lemma_same_plan_count_from(other, index + 1);
        }
    }

    /// Two schedules with the same phases in the same places order them in
    /// the same way, and are in order as a whole together.
    pub proof fn lemma_same_plan(self, other: PayoutSchedule)
        requires
            self.same_plan_as(other),
        ensures
            forall|index: int| self.slot_at(index) == other.slot_at(index),
            self.len() == other.len(),
            self.ordered_count() == other.ordered_count(),
            forall|index: int|
                0 <= index < self.ordered_count() ==> (
                #[trigger] self.ordered_list()[index]).shared_fields()
                    == other.ordered_list()[index].shared_fields(),
            self.total_basis_points() == other.total_basis_points(),
            self.shares_out_the_whole() == other.shares_out_the_whole(),
            forall|campaign_end_time: int, policy: BufferTimes|
                self.is_valid(campaign_end_time, policy) == other.is_valid(campaign_end_time, policy),
    {
        assert forall|index: int| self.slot_at(index) == other.slot_at(index) by {
            assert(self.voting_matches(index) =~= other.voting_matches(index));
            assert(self.non_voting_matches(index) =~= other.non_voting_matches(index));
        }
        self.lemma_same_plan_count_from(other, 0);
        self.lemma_ordered_list();
        other.lemma_ordered_list();
        self.lemma_has_contiguous_indices();
        other.lemma_has_contiguous_indices();
        let count = self.ordered_count() as int;
        assert forall|index: int| 0 <= index < count implies (
        #[trigger] self.ordered_list()[index]).shared_fields()
            == other.ordered_list()[index].shared_fields() by {
            self.lemma_slot_at(index);
            assert(other.ordered_list()[index] == other.phase_in(other.slot_at(index).unwrap()));
        }
        lemma_sum_basis_points_of_same_shares(self.ordered_list(), other.ordered_list(), count);
        assert forall|campaign_end_time: int, policy: BufferTimes|
            self.is_valid(campaign_end_time, policy) == other.is_valid(
                campaign_end_time,
                policy,
            ) by {
            assert forall|index: int| 0 <= index < count implies self.is_valid_at(
                index,
                campaign_end_time,
                policy,
            ) == other.is_valid_at(index, campaign_end_time, policy) by {
                let here = self.ordered_list()[index];
                let there = other.ordered_list()[index];
                assert(here.shared_fields() == there.shared_fields());
                if index > 0 {
                    let before_here = self.ordered_list()[index - 1];
                    let before_there = other.ordered_list()[index - 1];
                    assert(before_here.shared_fields() == before_there.shared_fields());
                }
            }
        }
    }

    /// What recording a payout changes: the phase in `slot` counts as paid
    /// out, and nothing else is different.
    pub proof fn lemma_disbursed(self, slot: PhaseSlot)
        requires
            self.holds(slot),
        ensures
            self.same_plan_as(self.disbursed(slot)),
            forall|index: int|
                0 <= index < self.ordered_count() ==> {
                    let before = #[trigger] self.ordered_list()[index];
                    let after = self.disbursed(slot).ordered_list()[index];
                    &&& after.is_vetoed_by_authority() == before.is_vetoed_by_authority()
                    &&& after.is_paid_out() == (before.is_paid_out() || self.slot_at(index) == Some(
                        slot,
                    ))
                },
    {
        let after = self.disbursed(slot);
        self.lemma_same_plan(after);
        self.lemma_ordered_list();
        after.lemma_ordered_list();
        assert forall|index: int| 0 <= index < self.ordered_count() implies {
            let before = #[trigger] self.ordered_list()[index];
            let later = after.ordered_list()[index];
            &&& later.is_vetoed_by_authority() == before.is_vetoed_by_authority()
            &&& later.is_paid_out() == (before.is_paid_out() || self.slot_at(index) == Some(slot))
        } by {
            self.lemma_slot_at(index);
            assert(after.ordered_list()[index] == after.phase_in(after.slot_at(index).unwrap()));
        }
    }

    /// What recording a veto changes: the phase in `slot` counts as
    /// vetoed, and nothing else is different.
    pub proof fn lemma_vetoed(self, slot: PhaseSlot)
        requires
            self.holds(slot),
        ensures
            self.same_plan_as(self.vetoed(slot)),
            forall|index: int|
                0 <= index < self.ordered_count() ==> {
                    let before = #[trigger] self.ordered_list()[index];
                    let after = self.vetoed(slot).ordered_list()[index];
                    &&& after.is_paid_out() == before.is_paid_out()
                    &&& after.is_vetoed_by_authority() == (before.is_vetoed_by_authority()
                        || self.slot_at(index) == Some(slot))
                },
    {
        let after = self.vetoed(slot);
        self.lemma_same_plan(after);
        self.lemma_ordered_list();
        after.lemma_ordered_list();
        assert forall|index: int| 0 <= index < self.ordered_count() implies {
            let before = #[trigger] self.ordered_list()[index];
            let later = after.ordered_list()[index];
            &&& later.is_paid_out() == before.is_paid_out()
            &&& later.is_vetoed_by_authority() == (before.is_vetoed_by_authority()
                || self.slot_at(index) == Some(slot))
        } by {
            self.lemma_slot_at(index);
            assert(after.ordered_list()[index] == after.phase_in(after.slot_at(index).unwrap()));
        }
    }

    /// The number that stands for a place of the schedule where the places
    /// are counted through: those of the phases with a vote first.
    pub open spec fn slot_number(self, slot: Option<PhaseSlot>) -> int {
        match slot {
            Some(PhaseSlot::Voting(j)) => j,
            Some(PhaseSlot::NonVoting(j)) => self.voting.len() + j,
            None => -1,
        }
    }

    /// Where the indices of the phases are 0, 1, ..., one for each phase,
    /// no two phases carry the same index, and every phase is the one that
    /// the ordered list holds at the place that the phase carries as its
    /// index.
    pub proof fn lemma_contiguous_indices_are_distinct(self)
        requires
            self.has_contiguous_indices(),
        ensures
            forall|j: int|
                0 <= j < self.voting.len() ==> {
                    &&& 0 <= (#[trigger] self.voting[j]).shared_fields.index < self.len()
                    &&& self.slot_at(self.voting[j].shared_fields.index as int) == Some(
                        PhaseSlot::Voting(j),
                    )
                },
            forall|j: int|
                0 <= j < self.non_voting.len() ==> {
                    &&& 0 <= (#[trigger] self.non_voting[j]).shared_fields.index < self.len()
                    &&& self.slot_at(self.non_voting[j].shared_fields.index as int) == Some(
                        PhaseSlot::NonVoting(j),
                    )
                },
    {
        let count = self.len() as int;
        let indices = vstd::set_lib::set_int_range(0, count);
        let number = |index: int| self.slot_number(self.slot_at(index));
        let numbers = indices.map(number);
        vstd::set_lib::lemma_int_range(0, count);
        self.lemma_has_contiguous_indices();
        self.lemma_ordered_count_from(0);
        assert forall|index: int| indices.contains(index) implies 0 <= #[trigger] number(index)
            < count && self.slot_at(index) is Some by {
            self.lemma_slot_at(index);
        }
        assert(vstd::relations::injective_on(number, indices)) by {
            assert forall|one: int, other: int|
                indices.contains(one) && indices.contains(other) && #[trigger] number(one)
                    == #[trigger] number(other) implies one == other by {
                self.lemma_slot_at(one);
                self.lemma_slot_at(other);
                assert(0 <= number(one) < count);
                assert(0 <= number(other) < count);
            }
        }
        vstd::set_lib::lemma_map_size(indices, numbers, number);
        assert(numbers.subset_of(indices)) by {
            assert forall|n: int| numbers.contains(n) implies indices.contains(n) by {
                let index = choose|index: int| indices.contains(index) && number(index) == n;
                assert(0 <= number(index) < count);
            }
        }
        vstd::set_lib::lemma_subset_equality(numbers, indices);
        assert forall|j: int| 0 <= j < self.voting.len() implies {
            &&& 0 <= (#[trigger] self.voting[j]).shared_fields.index < self.len()
            &&& self.slot_at(self.voting[j].shared_fields.index as int) == Some(PhaseSlot::Voting(j))
        } by {
            assert(indices.contains(j));
            assert(numbers.contains(j));
            let index = choose|index: int| indices.contains(index) && number(index) == j;
            assert(0 <= number(index) < count);
            self.lemma_slot_at(index);
        }
        assert forall|j: int| 0 <= j < self.non_voting.len() implies {
            &&& 0 <= (#[trigger] self.non_voting[j]).shared_fields.index < self.len()
            &&& self.slot_at(self.non_voting[j].shared_fields.index as int) == Some(
                PhaseSlot::NonVoting(j),
            )
        } by {
            let n = self.voting.len() + j;
            assert(indices.contains(n));
            assert(numbers.contains(n));
            let index = choose|index: int| indices.contains(index) && number(index) == n;
            assert(0 <= number(index) < count);
            self.lemma_slot_at(index);
        }
    }

    /// Recording the payout that came next, or a veto, changes nothing of
    /// the plan: the phases stay in their places with their indices, shares
    /// and times, and the schedule shares out the whole as it did before.
    /// Nor is a record ever taken back: a payout that was made stays made,
    /// and a veto that was cast stays cast.
    pub proof fn lemma_records_keep_the_plan(self, ordinal: int)
        ensures
            self.same_plan_as(self.mark_current_active_payout_phase_as_disbursed()),
            self.same_plan_as(self.veto_payout_phase_by_authority(ordinal)),
            self.mark_current_active_payout_phase_as_disbursed().shares_out_the_whole()
                == self.shares_out_the_whole(),
            self.veto_payout_phase_by_authority(ordinal).shares_out_the_whole()
                == self.shares_out_the_whole(),
            forall|index: int|
                0 <= index < self.ordered_count() ==> {
                    let before = #[trigger] self.ordered_list()[index];
                    let marked =
                        self.mark_current_active_payout_phase_as_disbursed().ordered_list()[index];
                    let vetoed = self.veto_payout_phase_by_authority(ordinal).ordered_list()[index];
                    &&& before.is_paid_out() ==> marked.is_paid_out()
                    &&& before.is_vetoed_by_authority() == marked.is_vetoed_by_authority()
                    &&& before.is_paid_out() == vetoed.is_paid_out()
                    &&& before.is_vetoed_by_authority() ==> vetoed.is_vetoed_by_authority()
                },
    {
        self.lemma_ordered_list();
        self.lemma_current_active_is_unpaid();
        if let Some(active) = self.current_active_index() {
            assert(self.ordered_list()[active].shared_fields().index == active);
            self.lemma_slot_at(active);
            self.lemma_disbursed(self.slot_at(active).unwrap());
        }
        if 0 <= ordinal < self.ordered_count() {
            assert(self.ordered_list()[ordinal].shared_fields().index == ordinal);
            self.lemma_slot_at(ordinal);
            self.lemma_vetoed(self.slot_at(ordinal).unwrap());
        }
        self.lemma_same_plan(self.mark_current_active_payout_phase_as_disbursed());
        self.lemma_same_plan(self.veto_payout_phase_by_authority(ordinal));
    }

    /// The shares of a schedule that is in order and has a phase add up to
    /// the whole.
    pub proof fn lemma_valid_schedule_pays_out_the_whole(
        self,
        campaign_end_time: int,
        policy: BufferTimes,
    )
        requires
            self.is_valid(campaign_end_time, policy),
        ensures
            self.shares_out_the_whole(),
            self.len() > 0 ==> self.total_basis_points() == ONE_HUNDRED_PERCENT_BASIS_POINTS,
    {
    }

    /// No phase of a schedule that shares out the whole pays out more than
    /// the whole.
    pub proof fn lemma_no_share_exceeds_the_whole(self)
        requires
            self.shares_out_the_whole(),
        ensures
            forall|index: int|
                0 <= index < self.ordered_count() ==> (
                #[trigger] self.ordered_list()[index]).shared_fields().payout_basis_points
                    <= ONE_HUNDRED_PERCENT_BASIS_POINTS,
    {
        let count = self.ordered_count() as int;
        self.lemma_ordered_list();
        assert forall|index: int| 0 <= index < count implies (
        #[trigger] self.ordered_list()[index]).shared_fields().payout_basis_points
            <= ONE_HUNDRED_PERCENT_BASIS_POINTS by {
            lemma_sum_basis_points_bounds_each(self.ordered_list(), count, index);
        }
    }

    /// Where the indices of the phases are 0, 1, ..., one for each phase,
    /// the ordered list holds as many phases as the schedule, and the phase
    /// at each place carries the place as its index. The phase at a place of
    /// the ordered list carries that place whatever the indices are.
    pub proof fn lemma_ordered_list_follows_the_indices(self)
        ensures
            self.has_contiguous_indices() ==> self.ordered_list().len() == self.len(),
            self.ordered_list().len() <= self.len(),
            forall|index: int|
                0 <= index < self.ordered_list().len() ==> (
                #[trigger] self.ordered_list()[index]).shared_fields().index == index,
    {
        self.lemma_ordered_list();
        self.lemma_has_contiguous_indices();
    }

    /// The phase whose payout comes next was not paid out, and the payout
    /// of every phase before it was made.
    pub proof fn lemma_current_active_is_unpaid(self)
        ensures
            match self.current_active_index() {
                Some(active) => {
                    &&& 0 <= active < self.ordered_count()
                    &&& self.current_active_payout_phase() == Some(self.ordered_list()[active])
                    &&& !self.ordered_list()[active].is_paid_out()
                    &&& self.ordered_list()[active].shared_fields().index == active
                    &&& forall|earlier: int|
                        0 <= earlier < active ==> (
                        #[trigger] self.ordered_list()[earlier]).is_paid_out()
                },
                None => forall|index: int|
                    0 <= index < self.ordered_count() ==> (
                    #[trigger] self.ordered_list()[index]).is_paid_out(),
            },
    {
        let unpaid = self.unpaid();
        lemma_first_true_from(unpaid, 0);
        self.lemma_ordered_list();
        assert forall|index: int| 0 <= index < self.ordered_count() implies (
        #[trigger] self.ordered_list()[index]).is_paid_out() == !unpaid[index] by {}
    }

    /// Once the payout that came next is recorded, the phase is not the
    /// one whose payout comes next: that is then a phase of a higher index,
    /// or none.
    pub proof fn lemma_disbursed_phase_is_not_active_again(self)
        ensures
            ({
                let after = self.mark_current_active_payout_phase_as_disbursed();
                match self.current_active_index() {
                    Some(active) => {
                        &&& after.ordered_list()[active].is_paid_out()
                        &&& after.current_active_index() matches Some(next) ==> next > active
                        &&& after.current_active_payout_phase() matches Some(payout_phase)
                            ==> payout_phase.shared_fields().index > active
                    },
                    None => after == self,
                }
            }),
    {
        let after = self.mark_current_active_payout_phase_as_disbursed();
        self.lemma_current_active_is_unpaid();
        if let Some(active) = self.current_active_index() {
            self.lemma_ordered_list();
            self.lemma_slot_at(active);
            let slot = self.slot_at(active).unwrap();
            self.lemma_disbursed(slot);
            self.lemma_same_plan(after);
            after.lemma_current_active_is_unpaid();
            if let Some(next) = after.current_active_index() {
                if next <= active {
                    assert(self.ordered_list()[next].is_paid_out() || self.slot_at(next) == Some(
                        slot,
                    ));
                    assert(after.ordered_list()[next].is_paid_out());
                }
            }
        }
    }
}

/// Two lists of phases with the same shares have the same sum of shares.
proof fn lemma_sum_basis_points_of_same_shares(
    one: Seq<PayoutPhaseEnum>,
    other: Seq<PayoutPhaseEnum>,
    count: int,
)
    requires
        count <= one.len(),
        count <= other.len(),
        forall|index: int|
            0 <= index < count ==> (#[trigger] one[index]).shared_fields() == other[index].shared_fields(),
    ensures
        sum_basis_points(one, count) == sum_basis_points(other, count),
    decreases count,
{
    if count > 0 {
        lemma_sum_basis_points_of_same_shares(one, other, count - 1);
        assert(one[count - 1].shared_fields() == other[count - 1].shared_fields());
    }
}

/// No share is greater than the sum of the shares.
proof fn lemma_sum_basis_points_bounds_each(phases: Seq<PayoutPhaseEnum>, count: int, index: int)
    requires
        0 <= index < count <= phases.len(),
    ensures
        phases[index].shared_fields().payout_basis_points <= sum_basis_points(phases, count),
        0 <= sum_basis_points(phases, index),
    decreases count,
{
    if index < count - 1 {
        lemma_sum_basis_points_bounds_each(phases, count - 1, index);
    } else {
        lemma_sum_basis_points_is_not_negative(phases, index);
    }
}

proof fn lemma_sum_basis_points_is_not_negative(phases: Seq<PayoutPhaseEnum>, count: int)
    ensures
        0 <= sum_basis_points(phases, count),
    decreases count,
{
    if count > 0 {
        lemma_sum_basis_points_is_not_negative(phases, count - 1);
    }
}

/// The schedule of a campaign as it is stored.
#[derive(Debug)]
pub struct PayoutPhases {
    pub non_voting_payout_phases: Vec<NonVotingPayoutPhase>,
    pub voting_payout_phases: Vec<VotingPayoutPhase>,
}

impl View for PayoutPhases {
    type V = PayoutSchedule;

    open spec fn view(&self) -> PayoutSchedule {
        PayoutSchedule {
            non_voting: self.non_voting_payout_phases@,
            voting: self.voting_payout_phases@,
        }
    }
}

impl PayoutPhases {
    /// How many phases without a vote a new schedule may hold.
    pub const NON_VOTING_PAYOUT_PHASE_LEN_LIMIT: usize = 1;

    /// How many phases with a vote a new schedule may hold.
    pub const VOTING_PAYOUT_PHASE_LEN_LIMIT: usize = 3;

    /// How many bytes the description of a phase of a new schedule may hold.
    pub const MAX_DESCRIPTION_LENGTH: usize = 200;

    /// The schedule without phases.
    pub fn default() -> (payout_phases: PayoutPhases)
        ensures
            payout_phases@.non_voting == Seq::<NonVotingPayoutPhase>::empty(),
            payout_phases@.voting == Seq::<VotingPayoutPhase>::empty(),
    {
        PayoutPhases { non_voting_payout_phases: Vec::new(), voting_payout_phases: Vec::new() }
    }

    /// Builds the schedule that the given descriptions make, with no
    /// payout made and no veto cast, and accepts it if it fits the room kept
    /// for a schedule and is in order as a whole.
    pub fn new(
        non_voting_payout_phases_input: Vec<NonVotingPayoutPhaseInput>,
        voting_payout_phases_input: Vec<VotingPayoutPhaseInput>,
        campaign_end_time: i64,
        policy: &BufferTimes,
    ) -> (result: Result<PayoutPhases, CampaignTreasuryManagerError>)
        ensures
            match result {
                Ok(payout_phases) => {
                    &&& payout_phases@ == PayoutSchedule::scheduled(
                        non_voting_payout_phases_input@,
                        voting_payout_phases_input@,
                    )
                    &&& payout_phases@.is_within_capacity()
                    &&& payout_phases@.is_valid(campaign_end_time as int, *policy)
                    &&& payout_phases@.len() > 0 ==> payout_phases@.total_basis_points()
                        == ONE_HUNDRED_PERCENT_BASIS_POINTS
                },
                Err(error) => {
                    let schedule = PayoutSchedule::scheduled(
                        non_voting_payout_phases_input@,
                        voting_payout_phases_input@,
                    );
                    &&& error == CampaignTreasuryManagerError::InvalidPayoutPhases
                    &&& !(schedule.is_within_capacity() && schedule.is_valid(
                        campaign_end_time as int,
                        *policy,
                    ))
                },
            },
    {
        let mut payout_phases = PayoutPhases::default();

        let mut i: usize = 0;
        while i < non_voting_payout_phases_input.len()
            invariant
                i <= non_voting_payout_phases_input@.len(),
                payout_phases.voting_payout_phases@.len() == 0,
                payout_phases.non_voting_payout_phases@.len() == i,
                forall|j: int|
                    0 <= j < i ==> payout_phases.non_voting_payout_phases@[j]
                        == non_voting_payout_phases_input@[j].scheduled(),
            decreases non_voting_payout_phases_input@.len() - i,
        {
            let payout_phase_input = &non_voting_payout_phases_input[i];
            payout_phases.non_voting_payout_phases.push(
                NonVotingPayoutPhase {
                    shared_fields: payout_phase_input.shared_fields.clone(),
                    is_paid_out: false,
                    is_vetoed_by_authority: false,
                },
            );
            i += 1;
        }

        let mut i: usize = 0;
        while i < voting_payout_phases_input.len()
            invariant
                i <= voting_payout_phases_input@.len(),
                payout_phases.non_voting_payout_phases@ == PayoutSchedule::scheduled(
                    non_voting_payout_phases_input@,
                    voting_payout_phases_input@,
                ).non_voting,
                payout_phases.voting_payout_phases@.len() == i,
                forall|j: int|
                    0 <= j < i ==> payout_phases.voting_payout_phases@[j]
                        == voting_payout_phases_input@[j].scheduled(),
            decreases voting_payout_phases_input@.len() - i,
        {
            let payout_phase_input = &voting_payout_phases_input[i];
            payout_phases.voting_payout_phases.push(
                VotingPayoutPhase {
                    shared_fields: payout_phase_input.shared_fields.clone(),
                    is_paid_out: false,
                    is_vetoed_by_authority: false,
                    voting_start_time: payout_phase_input.voting_start_time,
                    veto_votes: payout_phase_input.veto_votes,
                    vote_basis_points_veto_threshold: payout_phase_input.vote_basis_points_veto_threshold,
                },
            );
            i += 1;
        }
        proof {
            let schedule = PayoutSchedule::scheduled(
                non_voting_payout_phases_input@,
                voting_payout_phases_input@,
            );
            assert(payout_phases@.voting =~= schedule.voting);
            assert(payout_phases@.non_voting =~= schedule.non_voting);
        }

        if !payout_phases.is_within_capacity() {
            return Err(CampaignTreasuryManagerError::InvalidPayoutPhases);
        }
        match payout_phases.assert_is_valid(campaign_end_time, policy) {
            Ok(()) => Ok(payout_phases),
            Err(error) => Err(error),
        }
    }

    /// Whether the schedule fits the room that is kept for a schedule.
    pub fn is_within_capacity(&self) -> (fits: bool)
        ensures
            fits == self@.is_within_capacity(),
    {
        if self.non_voting_payout_phases.len() > Self::NON_VOTING_PAYOUT_PHASE_LEN_LIMIT
            || self.voting_payout_phases.len() > Self::VOTING_PAYOUT_PHASE_LEN_LIMIT {
            return false;
        }
        let mut i: usize = 0;
        while i < self.non_voting_payout_phases.len()
            invariant
                i <= self.non_voting_payout_phases@.len(),
                forall|j: int|
                    0 <= j < i ==> (#[trigger] self@.non_voting[j]).shared_fields.description_len()
                        <= PayoutPhases::MAX_DESCRIPTION_LENGTH,
            decreases self.non_voting_payout_phases@.len() - i,
        {
            if self.non_voting_payout_phases[i].shared_fields.description.as_str().as_bytes().len()
                > Self::MAX_DESCRIPTION_LENGTH {
                assert(self@.non_voting[i as int].shared_fields.description_len()
                    > PayoutPhases::MAX_DESCRIPTION_LENGTH);
                return false;
            }
            i += 1;
        }
        let mut i: usize = 0;
        while i < self.voting_payout_phases.len()
            invariant
                i <= self.voting_payout_phases@.len(),
                forall|j: int|
                    0 <= j < self.non_voting_payout_phases@.len() ==> (
                    #[trigger] self@.non_voting[j]).shared_fields.description_len()
                        <= PayoutPhases::MAX_DESCRIPTION_LENGTH,
                forall|j: int|
                    0 <= j < i ==> (#[trigger] self@.voting[j]).shared_fields.description_len()
                        <= PayoutPhases::MAX_DESCRIPTION_LENGTH,
            decreases self.voting_payout_phases@.len() - i,
        {
            if self.voting_payout_phases[i].shared_fields.description.as_str().as_bytes().len()
                > Self::MAX_DESCRIPTION_LENGTH {
                assert(self@.voting[i as int].shared_fields.description_len()
                    > PayoutPhases::MAX_DESCRIPTION_LENGTH);
                return false;
            }
            i += 1;
        }
        true
    }

    /// Accepts the schedule if it is in order as a whole: see
    /// [`PayoutSchedule::is_valid`].
    pub fn assert_is_valid(&self, campaign_end_time: i64, policy: &BufferTimes) -> (result: Result<
        (),
        CampaignTreasuryManagerError,
    >)
        ensures
            result is Ok <==> self@.is_valid(campaign_end_time as int, *policy),
            result is Err ==> result == Err::<(), _>(
                CampaignTreasuryManagerError::InvalidPayoutPhases,
            ),
    {
        if self.is_empty() {
            return Ok(());
        }
        let ordered_list = self.to_ordered_list();
        let length = ordered_list.len();
        let expected_length: u128 = self.non_voting_payout_phases.len() as u128
            + self.voting_payout_phases.len() as u128;
        proof {
            self@.lemma_ordered_list();
        }
        if length as u128 != expected_length {
            return Err(CampaignTreasuryManagerError::InvalidPayoutPhases);
        }
        let mut total_basis_points: u128 = 0;
        let mut i: usize = 0;
        while i < length
            invariant
                i <= length,
                length == ordered_list@.len(),
                ordered_list@ == self@.ordered_list(),
                total_basis_points == sum_basis_points(self@.ordered_list(), i as int),
                total_basis_points <= i * u16::MAX,
            decreases length - i,
        {
            total_basis_points = total_basis_points
                + ordered_list[i].get_payout_basis_points() as u128;
            i += 1;
        }

        if total_basis_points != ONE_HUNDRED_PERCENT_BASIS_POINTS as u128 {
            return Err(CampaignTreasuryManagerError::InvalidPayoutPhases);
        }
        let mut previous_payout_phase: Option<PayoutPhaseEnum> = None;
        let mut index: usize = 0;
        while index < length
            invariant
                index <= length,
                length == ordered_list@.len(),
                length == self@.ordered_count(),
                ordered_list@ == self@.ordered_list(),
                index > 0 ==> previous_payout_phase == Some(ordered_list@[index - 1]),
                forall|earlier: int|
                    0 <= earlier < index ==> #[trigger] self@.is_valid_at(
                        earlier,
                        campaign_end_time as int,
                        *policy,
                    ),
            decreases length - index,
        {
            let payout_phase = ordered_list[index];
            let checked = assert_payout_phase_is_valid(
                index,
                payout_phase,
                previous_payout_phase,
                campaign_end_time,
                policy,
            );
            if checked.is_err() {
                assert(!self@.is_valid_at(index as int, campaign_end_time as int, *policy));
                return checked;
            }
            previous_payout_phase = Some(payout_phase);
            index += 1;
        }

        Ok(())
    }

    /// The number of phases, where that fits the type.
    pub fn len(&self) -> (len: usize)
        requires
            self@.len() <= usize::MAX,
        ensures
            len == self@.len(),
    {
        self.non_voting_payout_phases.len() + self.voting_payout_phases.len()
    }

    pub fn is_empty(&self) -> (empty: bool)
        ensures
            empty == (self@.len() == 0),
    {
        self.non_voting_payout_phases.len() == 0 && self.voting_payout_phases.len() == 0
    }

    /// Where the phase that carries `index` is stored: whether it is one
    /// with a vote, and its place among those of its kind.
    fn find_slot(&self, index: usize) -> (found: Option<(bool, usize)>)
        ensures
            match found {
                Some((true, j)) => {
                    &&& j < self.voting_payout_phases@.len()
                    &&& self@.slot_at(index as int) == Some(PhaseSlot::Voting(j as int))
                },
                Some((false, j)) => {
                    &&& j < self.non_voting_payout_phases@.len()
                    &&& self@.slot_at(index as int) == Some(PhaseSlot::NonVoting(j as int))
                },
                None => self@.slot_at(index as int) is None,
            },
    {
        let ghost voting = self@.voting_matches(index as int);
        let mut i: usize = 0;
        while i < self.voting_payout_phases.len()
            invariant
                i <= self.voting_payout_phases@.len(),
                voting == self@.voting_matches(index as int),
                first_true_from(voting, 0) == first_true_from(voting, i as int),
            decreases self.voting_payout_phases@.len() - i,
        {
            if index == self.voting_payout_phases[i].shared_fields.index as usize {
                return Some((true, i));
            }
            i += 1;
        }

        let ghost non_voting = self@.non_voting_matches(index as int);
        let mut i: usize = 0;
        while i < self.non_voting_payout_phases.len()
            invariant
                i <= self.non_voting_payout_phases@.len(),
                first_true_from(voting, 0) is None,
                voting == self@.voting_matches(index as int),
                non_voting == self@.non_voting_matches(index as int),
                first_true_from(non_voting, 0) == first_true_from(non_voting, i as int),
            decreases self.non_voting_payout_phases@.len() - i,
        {
            if index == self.non_voting_payout_phases[i].shared_fields.index as usize {
                return Some((false, i));
            }
            i += 1;
        }

        None
    }

    /// The phase that carries `current_index`, if there is one.
    pub fn get_next_in_order(&self, current_index: usize) -> (next: Option<PayoutPhaseEnum<'_>>)
        ensures
            next == self@.phase_at(current_index as int),
    {
        match self.find_slot(current_index) {
            Some((true, j)) => Some(PayoutPhaseEnum::Voting(&self.voting_payout_phases[j])),
            Some((false, j)) => Some(PayoutPhaseEnum::NonVoting(&self.non_voting_payout_phases[j])),
            None => None,
        }
    }

    /// The phases in ascending order of their index: the phase of index 0,
    /// then that of index 1, and so on, up to the first index that no phase
    /// carries. The list holds every phase exactly when the indices of the
    /// phases are 0, 1, ..., one for each phase.
    pub fn to_ordered_list(&self) -> (ordered_list: Vec<PayoutPhaseEnum<'_>>)
        ensures
            ordered_list@ == self@.ordered_list(),
            ordered_list@.len() <= self@.len(),
            forall|index: int|
                0 <= index < ordered_list@.len() ==> (
                #[trigger] ordered_list@[index]).shared_fields().index == index,
            ordered_list@.len() == self@.len() <==> self@.has_contiguous_indices(),
    {
        let limit: u128 = self.non_voting_payout_phases.len() as u128
            + self.voting_payout_phases.len() as u128;
        let mut current_index: usize = 0;
        let mut ordered_list: Vec<PayoutPhaseEnum<'_>> = Vec::new();
        while (current_index as u128) < limit
            invariant
                limit == self@.len(),
                current_index <= limit,
                self@.ordered_count() == self@.ordered_count_from(current_index as nat),
                ordered_list@.len() == current_index,
                forall|index: int|
                    0 <= index < current_index ==> Some(ordered_list@[index]) == self@.phase_at(
                        index,
                    ),
            ensures
                ordered_list@.len() == self@.ordered_count(),
                forall|index: int|
                    0 <= index < ordered_list@.len() ==> Some(ordered_list@[index])
                        == self@.phase_at(index),
            decreases limit - current_index,
        {
            let next_item = self.get_next_in_order(current_index);
            match next_item {
                Some(item) => ordered_list.push(item),
                None => {
                    break ;
                },
            }
            proof {
                self@.lemma_slot_at(current_index as int);
            }
            current_index += 1;
        }
        proof {
            self@.lemma_ordered_list();
            self@.lemma_has_contiguous_indices();
            assert(ordered_list@ =~= self@.ordered_list());
        }
        ordered_list
    }

    /// The phase whose payout comes next: the phase of the lowest index
    /// whose payout was not made, whether it was vetoed or not.
    pub fn get_current_active_payout_phase_for_payout(&self) -> (active: Option<
        PayoutPhaseEnum<'_>,
    >)
        ensures
            active == self@.current_active_payout_phase(),
            active matches Some(payout_phase) ==> !payout_phase.is_paid_out(),
    {
        let ordered_list = self.to_ordered_list();
        let ghost unpaid = self@.unpaid();
        let mut i: usize = 0;
        while i < ordered_list.len()
            invariant
                i <= ordered_list@.len(),
                ordered_list@ == self@.ordered_list(),
                ordered_list@.len() == self@.ordered_count(),
                unpaid == self@.unpaid(),
                first_true_from(unpaid, 0) == first_true_from(unpaid, i as int),
            decreases ordered_list@.len() - i,
        {
            let payout_phase = ordered_list[i];
            if !payout_phase.get_is_paid_out() {
                return Some(payout_phase);
            }
            i += 1;
        }
        None
    }

    /// Records that the payout that came next was made. Where none is
    /// left nothing changes.
    pub fn mark_current_active_payout_phase_as_disbursed(&mut self)
        ensures
            final(self)@ == old(self)@.mark_current_active_payout_phase_as_disbursed(),
    {
        let index = match self.get_current_active_payout_phase_for_payout() {
            Some(payout_phase) => payout_phase.get_index(),
            None => {
                return ;
            },
        };
        proof {
            self@.lemma_ordered_list();
            lemma_first_true_from(self@.unpaid(), 0);
        }
        match self.find_slot(index as usize) {
            Some((true, j)) => {
                self.voting_payout_phases[j].is_paid_out = true;
            },
            Some((false, j)) => {
                self.non_voting_payout_phases[j].is_paid_out = true;
            },
            None => {},
        }
    }

    /// Records the authority's veto of the phase at the place
    /// `payout_phase_index` of the ordered list. Where the list has no
    /// such place nothing changes, and a veto that comes after the payout
    /// of the phase changes nothing either.
    pub fn veto_payout_phase_by_authority(&mut self, payout_phase_index: u8)
        ensures
            final(self)@ == old(self)@.veto_payout_phase_by_authority(payout_phase_index as int),
    {
        let payout_phases = self.to_ordered_list();
        if payout_phase_index as usize >= payout_phases.len() {
            return ;
        }
        let payout_phase = payout_phases[payout_phase_index as usize];
        if payout_phase.get_is_paid_out() {
            return ;
        }
        let index = payout_phase.get_index();
        proof {
            self@.lemma_ordered_list();
        }
        match self.find_slot(index as usize) {
            Some((true, j)) => {
                self.voting_payout_phases[j].is_vetoed_by_authority = true;
            },
            Some((false, j)) => {
                self.non_voting_payout_phases[j].is_vetoed_by_authority = true;
            },
            None => {},
        }
    }
}

} // verus!
