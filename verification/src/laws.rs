//! Properties of the escrow that span its operations: what every successful
//! operation keeps, and what the contracts of the operations promise together.

use vstd::prelude::*;
use crate::types::{CampaignEscrow, CampaignState, EscrowError, MilestoneDefinition};
use crate::escrow::{
    activate_effect, activate_outcome, campaign_created, fund_outcome, has_milestone, legal_transition,
    lemma_milestone_index, lemma_milestone_index_same_ids, milestone_index, milestone_of, moved_to,
    percent_total, refund_outcome, release_effect, release_outcome, release_reaches_payout, settle_outcome,
    verify_effect, verify_outcome, approve_effect,
};
use crate::milestone::{releasable_outcome, within_milestone_deadline};
use crate::accounting::{
    accounted, lemma_accounted_conserves, lemma_fresh_sums, lemma_payouts_fit, lemma_release_adds_payout,
    lemma_room_for_release, lemma_sums_frame,
};

verus! {

/// An escrow operation with its arguments. An approval's signer is not
/// recorded: an approval succeeds only when the brand signs it.
pub enum EscrowOp {
    Fund,
    Activate(u8),
    Verify(u8, Option<u64>),
    Approve(u8),
    Release(u8, i64),
    Refund(i64),
    Settle,
}

/// `op` succeeded on `old` and left the escrow as `new`.
pub open spec fn op_succeeds(old: CampaignEscrow, new: CampaignEscrow, op: EscrowOp) -> bool {
    match op {
        EscrowOp::Fund => fund_outcome(old) is Ok && moved_to(old, new, CampaignState::Funded),
        EscrowOp::Activate(score) => activate_outcome(old, score) is Ok && activate_effect(old, new, score),
        EscrowOp::Verify(id, actual) => verify_outcome(old, id, actual) is Ok
            && verify_effect(old, new, id, actual),
        EscrowOp::Approve(id) => has_milestone(old.milestones@, id) && approve_effect(old, new, id),
        EscrowOp::Release(id, t) => release_outcome(old, id, t) is Ok
            && release_effect(old, new, id, t, release_outcome(old, id, t)->Ok_0),
        EscrowOp::Refund(t) => refund_outcome(old, t) is Ok && moved_to(old, new, CampaignState::Refunded),
        EscrowOp::Settle => settle_outcome(old) is Ok && moved_to(old, new, CampaignState::Settled),
    }
}

/// The state changes an operation may make: none, one of the transition
/// table's, or the timeout refund of an active campaign.
pub open spec fn state_step_allowed(from: CampaignState, to: CampaignState) -> bool {
    ||| from == to
    ||| legal_transition(from, to)
    ||| from == CampaignState::Active && to == CampaignState::Refunded
}

/// States that no operation leaves.
pub open spec fn terminal(s: CampaignState) -> bool {
    ||| s == CampaignState::Settled
    ||| s == CampaignState::Refunded
    ||| s == CampaignState::Cancelled
    ||| s == CampaignState::Arbitrated
}

/// No unauthorized state transition: every successful operation moves the
/// campaign along the transition table (or refunds it on timeout), and no
/// operation leaves a settled, refunded, cancelled or arbitrated campaign.
pub proof fn law_transitions_allowed(old: CampaignEscrow, new: CampaignEscrow, op: EscrowOp)
    requires
        op_succeeds(old, new, op),
    ensures
        state_step_allowed(old.state, new.state),
        terminal(old.state) ==> new.state == old.state,
{
}

/// Total conservation: a campaign whose books balance still balances after
/// any successful operation; the deposit never changes, the released amount
/// never decreases and never exceeds the deposit.
pub proof fn law_books_balance(old: CampaignEscrow, new: CampaignEscrow, op: EscrowOp)
    requires
        accounted(old),
        op_succeeds(old, new, op),
    ensures
        accounted(new),
        new.total_amount == old.total_amount,
        old.released_amount <= new.released_amount <= new.total_amount,
{
    match op {
        EscrowOp::Verify(id, actual) => {
            lemma_milestone_index(old.milestones@, id);
            lemma_sums_frame(old.milestones@, new.milestones@, old.total_amount);
        },
        EscrowOp::Approve(id) => {
            lemma_milestone_index(old.milestones@, id);
            lemma_sums_frame(old.milestones@, new.milestones@, old.total_amount);
        },
        EscrowOp::Release(id, t) => {
            lemma_milestone_index(old.milestones@, id);
            let pos = milestone_index(old.milestones@, id);
            lemma_release_adds_payout(old.milestones@, new.milestones@, old.total_amount, pos);
        },
        _ => {},
    }
    lemma_accounted_conserves(new);
}

/// Total conservation on any escrow: if no more than the deposit has been
/// released, no successful operation releases more than the deposit; the
/// deposit never changes and the released amount never decreases.
pub proof fn law_conservation(old: CampaignEscrow, new: CampaignEscrow, op: EscrowOp)
    requires
        old.released_amount <= old.total_amount,
        op_succeeds(old, new, op),
    ensures
        new.total_amount == old.total_amount,
        old.released_amount <= new.released_amount <= new.total_amount,
{
}

/// A newly created campaign's books balance.
pub proof fn law_created_balanced(
    e: CampaignEscrow,
    brand_id: String,
    creator_id: String,
    total_amount: u64,
    min_authenticity_threshold: u8,
    deadline: i64,
    terms_cid: String,
    milestones: Seq<MilestoneDefinition>,
)
    requires
        percent_total(milestones) == 100,
        campaign_created(e, brand_id, creator_id, total_amount, min_authenticity_threshold,
            deadline, terms_cid, milestones),
    ensures
        accounted(e),
{
    lemma_fresh_sums(milestones, total_amount);
}

/// On a campaign whose books balance, a release never fails for lack of funds.
pub proof fn law_release_never_short(e: CampaignEscrow, id: u8, t: i64)
    requires
        accounted(e),
    ensures
        !(release_outcome(e, id, t) matches Err(EscrowError::InsufficientFunds { .. })),
{
    if release_reaches_payout(e, id, t) {
        lemma_milestone_index(e.milestones@, id);
        let pos = milestone_index(e.milestones@, id);
        lemma_room_for_release(e.milestones@, e.total_amount, pos);
        lemma_payouts_fit(e.milestones@, e.total_amount);
    }
}

/// No premature release: funds are released only for a milestone of an
/// active campaign that the oracle verified and the brand approved, before
/// the deadline, and with a verified authenticity score at the threshold.
pub proof fn law_release_requires_approvals(e: CampaignEscrow, id: u8, t: i64)
    requires
        release_outcome(e, id, t) is Ok,
    ensures
        e.state == CampaignState::Active,
        t <= e.deadline,
        has_milestone(e.milestones@, id),
        milestone_of(e, id).oracle_verified,
        milestone_of(e, id).brand_approved,
        !milestone_of(e, id).funds_released,
        e.verified_authenticity_score matches Some(s) && s >= e.min_authenticity_threshold,
{
}

/// Authenticity threshold enforcement: a campaign is activated only with a
/// score at or above its threshold, and the activation records that score.
pub proof fn law_activation_threshold(old: CampaignEscrow, new: CampaignEscrow, score: u8)
    requires
        op_succeeds(old, new, EscrowOp::Activate(score)),
    ensures
        score >= old.min_authenticity_threshold,
        new.verified_authenticity_score == Some(score),
        new.verified_authenticity_score->0 >= new.min_authenticity_threshold,
{
}

/// Released flags stay set: every successful operation keeps the milestone
/// list's length and ids, and a milestone whose funds were released stays so.
pub proof fn law_release_flags_kept(old: CampaignEscrow, new: CampaignEscrow, op: EscrowOp)
    requires
        op_succeeds(old, new, op),
    ensures
        new.milestones@.len() == old.milestones@.len(),
        forall|i: int| 0 <= i < old.milestones@.len() ==> (#[trigger] new.milestones@[i]).definition.id
            == old.milestones@[i].definition.id,
        forall|i: int| 0 <= i < old.milestones@.len() && (#[trigger] old.milestones@[i]).funds_released
            ==> new.milestones@[i].funds_released,
{
    match op {
        EscrowOp::Verify(id, _) => lemma_milestone_index(old.milestones@, id),
        EscrowOp::Approve(id) => lemma_milestone_index(old.milestones@, id),
        EscrowOp::Release(id, _) => lemma_milestone_index(old.milestones@, id),
        _ => {},
    }
}

/// No double spend: a milestone whose funds were released is never paid again.
pub proof fn law_no_double_spend(e: CampaignEscrow, id: u8, t: i64)
    requires
        has_milestone(e.milestones@, id),
        milestone_of(e, id).funds_released,
    ensures
        release_outcome(e, id, t) is Err,
{
}

/// No double spend across two releases: once a release of `id` succeeded,
/// releasing `id` again fails, whatever the time.
pub proof fn law_second_release_fails(e1: CampaignEscrow, e2: CampaignEscrow, id: u8, t1: i64, t2: i64)
    requires
        op_succeeds(e1, e2, EscrowOp::Release(id, t1)),
    ensures
        release_outcome(e2, id, t2) is Err,
{
    lemma_milestone_index(e1.milestones@, id);
    let pos = milestone_index(e1.milestones@, id);
    assert forall|i: int| 0 <= i < e1.milestones@.len() implies (#[trigger] e1.milestones@[i]).definition.id
        == e2.milestones@[i].definition.id by {
        if i == pos {
        }
    }
    lemma_milestone_index_same_ids(e1.milestones@, e2.milestones@, id);
}

/// Timeout refund guarantee: once the deadline has passed, a funded or active
/// campaign is refunded everything not yet released, and releases fail.
pub proof fn law_timeout_refund(e: CampaignEscrow, t: i64, id: u8)
    requires
        t > e.deadline,
        e.state == CampaignState::Active || e.state == CampaignState::Funded,
        e.released_amount <= e.total_amount,
    ensures
        refund_outcome(e, t) == Ok::<u64, EscrowError>((e.total_amount - e.released_amount) as u64),
        refund_outcome(e, t)->Ok_0 + e.released_amount == e.total_amount,
        release_outcome(e, id, t) is Err,
{
}

/// The release predicate and the release agree: on a campaign whose books
/// balance, a milestone that `is_releasable` reports releasable is paid its
/// share; conversely a successful release within the milestone's own
/// deadline was releasable.
pub proof fn law_releasable_is_paid(e: CampaignEscrow, id: u8, t: i64)
    ensures
        accounted(e) && releasable_outcome(e, id, t) == Ok::<bool, EscrowError>(true)
            ==> release_outcome(e, id, t) is Ok,
        release_outcome(e, id, t) is Ok && within_milestone_deadline(milestone_of(e, id), t)
            ==> releasable_outcome(e, id, t) == Ok::<bool, EscrowError>(true),
{
    if accounted(e) {
        law_release_never_short(e, id, t);
    }
}

} // verus!
