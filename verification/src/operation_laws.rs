//! What each escrow operation does, stated over the escrow's fields: when it
//! succeeds, and exactly which fields a successful call changes.

use vstd::prelude::*;
use crate::types::{CampaignEscrow, CampaignState, EscrowError, MilestoneDefinition, MilestoneState};
use crate::escrow::{
    activate_outcome, campaign_created, fund_outcome, has_milestone, lemma_milestone_index, milestone_index,
    percent_total, refund_outcome, release_outcome, settle_outcome, verify_outcome,
};
use crate::milestone::{engagement_met, releasable_outcome, summary_of, within_milestone_deadline};
use crate::laws::{op_succeeds, EscrowOp};

verus! {

/// `p` is the position of the first milestone of `ms` with id `id`.
pub open spec fn first_with_id(ms: Seq<MilestoneState>, id: u8, p: int) -> bool {
    &&& 0 <= p < ms.len()
    &&& ms[p].definition.id == id
    &&& forall|j: int| 0 <= j < p ==> (#[trigger] ms[j]).definition.id != id
}

/// `a` and `b` agree on every field but the state, the released amount, the
/// verified score and the milestones.
pub open spec fn same_campaign_terms(a: CampaignEscrow, b: CampaignEscrow) -> bool {
    &&& a.brand_id == b.brand_id
    &&& a.creator_id == b.creator_id
    &&& a.total_amount == b.total_amount
    &&& a.min_authenticity_threshold == b.min_authenticity_threshold
    &&& a.deadline == b.deadline
    &&& a.terms_cid == b.terms_cid
    &&& a.proof_certificate_cid == b.proof_certificate_cid
    &&& a.created_at == b.created_at
}

/// `new` differs from `old` only at milestone `p`.
pub open spec fn others_unchanged(old: Seq<MilestoneState>, new: Seq<MilestoneState>, p: int) -> bool {
    &&& new.len() == old.len()
    &&& forall|i: int| 0 <= i < old.len() && i != p ==> #[trigger] new[i] == old[i]
}

/// Funding succeeds exactly on a Created campaign, and changes only the state, to Funded.
pub proof fn law_fund(old: CampaignEscrow, new: CampaignEscrow)
    ensures
        fund_outcome(old) is Ok <==> old.state == CampaignState::Created,
        op_succeeds(old, new, EscrowOp::Fund) ==> {
            &&& new.state == CampaignState::Funded
            &&& same_campaign_terms(old, new)
            &&& new.released_amount == old.released_amount
            &&& new.verified_authenticity_score == old.verified_authenticity_score
            &&& new.milestones@ == old.milestones@
        },
{
}

/// Activation succeeds exactly on a Funded campaign with a score at or above
/// the threshold; it records the score and changes the state to Active.
pub proof fn law_activate(old: CampaignEscrow, new: CampaignEscrow, score: u8)
    ensures
        activate_outcome(old, score) is Ok <==> old.state == CampaignState::Funded
            && score >= old.min_authenticity_threshold,
        op_succeeds(old, new, EscrowOp::Activate(score)) ==> {
            &&& new.state == CampaignState::Active
            &&& new.verified_authenticity_score == Some(score)
            &&& same_campaign_terms(old, new)
            &&& new.released_amount == old.released_amount
            &&& new.milestones@ == old.milestones@
        },
{
}

/// Oracle verification succeeds only on an Active campaign, for the first
/// milestone with the id, not yet completed, whose engagement target (if
/// any) the reported engagement meets. It sets that milestone's
/// `oracle_verified` and `engagement_actual` and changes nothing else.
pub proof fn law_verify(old: CampaignEscrow, new: CampaignEscrow, id: u8, actual: Option<u64>)
    ensures
        verify_outcome(old, id, actual) is Ok <==> {
            let p = milestone_index(old.milestones@, id);
            let m = old.milestones@[p];
            &&& old.state == CampaignState::Active
            &&& first_with_id(old.milestones@, id, p)
            &&& !m.completed
            &&& (m.definition.engagement_target matches Some(target)
                ==> (actual matches Some(a) && a >= target))
        },
        old.state == CampaignState::Active && !(exists|p: int| first_with_id(old.milestones@, id, p))
            ==> verify_outcome(old, id, actual) == Err::<(), EscrowError>(
                EscrowError::MilestoneNotVerified { milestone_id: id }),
        op_succeeds(old, new, EscrowOp::Verify(id, actual)) ==> {
            let p = milestone_index(old.milestones@, id);
            let m = old.milestones@[p];
            let n = new.milestones@[p];
            &&& others_unchanged(old.milestones@, new.milestones@, p)
            &&& n.oracle_verified
            &&& n.engagement_actual == actual
            &&& n.definition == m.definition
            &&& n.completed == m.completed
            &&& n.completed_at == m.completed_at
            &&& n.brand_approved == m.brand_approved
            &&& n.evidence_cid == m.evidence_cid
            &&& n.funds_released == m.funds_released
            &&& new.state == old.state
            &&& same_campaign_terms(old, new)
            &&& new.released_amount == old.released_amount
            &&& new.verified_authenticity_score == old.verified_authenticity_score
        },
{
    if has_milestone(old.milestones@, id) {
        lemma_milestone_index(old.milestones@, id);
    }
    if exists|p: int| first_with_id(old.milestones@, id, p) {
        let p = choose|p: int| first_with_id(old.milestones@, id, p);
        assert(old.milestones@[p].definition.id == id);
        lemma_milestone_index(old.milestones@, id);
    }
    if verify_outcome(old, id, actual) is Ok {
        lemma_milestone_index(old.milestones@, id);
    }
}

/// A successful approval addresses the first milestone with the id and sets
/// its `brand_approved` flag; every other field, of that milestone and of the
/// campaign, is unchanged: in particular it never sets `oracle_verified`.
pub proof fn law_approve(old: CampaignEscrow, new: CampaignEscrow, id: u8)
    ensures
        op_succeeds(old, new, EscrowOp::Approve(id)) ==> {
            let p = milestone_index(old.milestones@, id);
            let m = old.milestones@[p];
            let n = new.milestones@[p];
            &&& first_with_id(old.milestones@, id, p)
            &&& others_unchanged(old.milestones@, new.milestones@, p)
            &&& n.brand_approved
            &&& n.oracle_verified == m.oracle_verified
            &&& n.definition == m.definition
            &&& n.completed == m.completed
            &&& n.completed_at == m.completed_at
            &&& n.engagement_actual == m.engagement_actual
            &&& n.evidence_cid == m.evidence_cid
            &&& n.funds_released == m.funds_released
            &&& new.state == old.state
            &&& same_campaign_terms(old, new)
            &&& new.released_amount == old.released_amount
            &&& new.verified_authenticity_score == old.verified_authenticity_score
        },
{
    if op_succeeds(old, new, EscrowOp::Approve(id)) {
        lemma_milestone_index(old.milestones@, id);
    }
}

/// A release succeeds only on an Active campaign before its deadline, for the
/// first milestone with the id that the oracle verified and the brand
/// approved and that was not paid, with a verified score at the threshold; it
/// pays `total * pct / 100` (rounded down, at most `u64::MAX`) without
/// exceeding the deposit.
pub proof fn law_release_conditions(e: CampaignEscrow, id: u8, t: i64)
    ensures
        release_outcome(e, id, t) is Ok <==> {
            let p = milestone_index(e.milestones@, id);
            let m = e.milestones@[p];
            let share = e.total_amount as int * m.definition.payout_percentage as int / 100;
            let paid = if share > u64::MAX as int { u64::MAX as int } else { share };
            &&& e.state == CampaignState::Active
            &&& t <= e.deadline
            &&& first_with_id(e.milestones@, id, p)
            &&& m.oracle_verified
            &&& m.brand_approved
            &&& !m.funds_released
            &&& e.verified_authenticity_score matches Some(s) && s >= e.min_authenticity_threshold
            &&& e.released_amount + paid <= e.total_amount
        },
        release_outcome(e, id, t) matches Ok(paid) ==> {
            let m = e.milestones@[milestone_index(e.milestones@, id)];
            let share = e.total_amount as int * m.definition.payout_percentage as int / 100;
            paid == (if share > u64::MAX as int { u64::MAX as int } else { share })
        },
{
    if exists|p: int| first_with_id(e.milestones@, id, p) {
        let p = choose|p: int| first_with_id(e.milestones@, id, p);
        assert(e.milestones@[p].definition.id == id);
        lemma_milestone_index(e.milestones@, id);
    }
    if release_outcome(e, id, t) is Ok {
        lemma_milestone_index(e.milestones@, id);
    }
}

/// A successful release marks the paid milestone completed (at time `t`) and
/// released, adds the payout to the released amount, and changes nothing
/// else, except that the campaign becomes Completed exactly when every
/// milestone is then completed, and otherwise stays Active.
pub proof fn law_release_effect(old: CampaignEscrow, new: CampaignEscrow, id: u8, t: i64)
    ensures
        op_succeeds(old, new, EscrowOp::Release(id, t)) ==> {
            let p = milestone_index(old.milestones@, id);
            let m = old.milestones@[p];
            let n = new.milestones@[p];
            &&& others_unchanged(old.milestones@, new.milestones@, p)
            &&& n.completed
            &&& n.completed_at == Some(t)
            &&& n.funds_released
            &&& n.definition == m.definition
            &&& n.oracle_verified == m.oracle_verified
            &&& n.brand_approved == m.brand_approved
            &&& n.engagement_actual == m.engagement_actual
            &&& n.evidence_cid == m.evidence_cid
            &&& new.released_amount == old.released_amount + release_outcome(old, id, t)->Ok_0
            &&& same_campaign_terms(old, new)
            &&& new.verified_authenticity_score == old.verified_authenticity_score
            &&& (new.state == CampaignState::Completed <==> forall|i: int|
                0 <= i < new.milestones@.len() ==> (#[trigger] new.milestones@[i]).completed)
            &&& (new.state == CampaignState::Active <==> exists|i: int|
                0 <= i < new.milestones@.len() && !(#[trigger] new.milestones@[i]).completed)
        },
{
    if op_succeeds(old, new, EscrowOp::Release(id, t)) {
        lemma_milestone_index(old.milestones@, id);
    }
}

/// A timeout refund succeeds exactly after the deadline on a Funded or Active
/// campaign, refunds what was not released, and changes only the state, to Refunded.
pub proof fn law_refund(old: CampaignEscrow, new: CampaignEscrow, t: i64)
    requires
        old.released_amount <= old.total_amount,
    ensures
        refund_outcome(old, t) is Ok <==> t > old.deadline
            && (old.state == CampaignState::Funded || old.state == CampaignState::Active),
        refund_outcome(old, t) matches Ok(r) ==> r + old.released_amount == old.total_amount,
        op_succeeds(old, new, EscrowOp::Refund(t)) ==> {
            &&& new.state == CampaignState::Refunded
            &&& same_campaign_terms(old, new)
            &&& new.released_amount == old.released_amount
            &&& new.verified_authenticity_score == old.verified_authenticity_score
            &&& new.milestones@ == old.milestones@
        },
{
}

/// Settling succeeds exactly on a Completed campaign, and changes only the state, to Settled.
pub proof fn law_settle(old: CampaignEscrow, new: CampaignEscrow)
    ensures
        settle_outcome(old) is Ok <==> old.state == CampaignState::Completed,
        op_succeeds(old, new, EscrowOp::Settle) ==> {
            &&& new.state == CampaignState::Settled
            &&& same_campaign_terms(old, new)
            &&& new.released_amount == old.released_amount
            &&& new.verified_authenticity_score == old.verified_authenticity_score
            &&& new.milestones@ == old.milestones@
        },
{
}

/// Each milestone flag is set by one operation only: `oracle_verified` by a
/// verification, `brand_approved` by an approval, and `completed` and
/// `funds_released` by a release; no operation clears a flag.
pub proof fn law_flags_set_by_their_operation(old: CampaignEscrow, new: CampaignEscrow, op: EscrowOp)
    requires
        op_succeeds(old, new, op),
    ensures
        new.milestones@.len() == old.milestones@.len(),
        forall|i: int| 0 <= i < old.milestones@.len() ==> {
            let (a, b) = (#[trigger] old.milestones@[i], new.milestones@[i]);
            &&& (a.oracle_verified ==> b.oracle_verified)
            &&& (a.brand_approved ==> b.brand_approved)
            &&& (a.completed ==> b.completed)
            &&& (a.funds_released ==> b.funds_released)
            &&& (!(op is Verify) ==> b.oracle_verified == a.oracle_verified)
            &&& (!(op is Approve) ==> b.brand_approved == a.brand_approved)
            &&& (!(op is Release) ==> b.completed == a.completed && b.funds_released == a.funds_released)
        },
{
    match op {
        EscrowOp::Verify(id, _) => lemma_milestone_index(old.milestones@, id),
        EscrowOp::Approve(id) => lemma_milestone_index(old.milestones@, id),
        EscrowOp::Release(id, _) => lemma_milestone_index(old.milestones@, id),
        _ => {},
    }
}

/// Creating a campaign records the given terms, with nothing released, no
/// verified score, and each given milestone definition, in order, in a fresh
/// state: not verified, not approved, not completed, not paid.
pub proof fn law_create(
    e: CampaignEscrow,
    brand_id: String,
    creator_id: String,
    total_amount: u64,
    min_authenticity_threshold: u8,
    deadline: i64,
    terms_cid: String,
    milestones: Seq<MilestoneDefinition>,
)
    requires
        campaign_created(e, brand_id, creator_id, total_amount, min_authenticity_threshold,
            deadline, terms_cid, milestones),
    ensures
        e.state == CampaignState::Created,
        e.brand_id == brand_id && e.creator_id == creator_id && e.terms_cid == terms_cid,
        e.total_amount == total_amount && e.released_amount == 0,
        e.min_authenticity_threshold == min_authenticity_threshold && e.deadline == deadline,
        e.verified_authenticity_score is None && e.proof_certificate_cid is None,
        e.milestones@.len() == milestones.len(),
        forall|i: int| 0 <= i < milestones.len() ==> {
            let m = #[trigger] e.milestones@[i];
            &&& m.definition == milestones[i]
            &&& !m.completed && m.completed_at is None && m.engagement_actual is None
            &&& !m.brand_approved && !m.oracle_verified && m.evidence_cid is None && !m.funds_released
        },
{
}

/// The percentage total of a list of milestone definitions is the sum of
/// their payout percentages: 0 for none, and adding a definition adds its percentage.
pub proof fn law_percent_total(defs: Seq<MilestoneDefinition>, d: MilestoneDefinition)
    ensures
        percent_total(Seq::<MilestoneDefinition>::empty()) == 0,
        percent_total(defs.push(d)) == percent_total(defs) + d.payout_percentage,
{
    assert(defs.push(d).drop_last() =~= defs);
}

/// The release predicate: on an inactive campaign nothing is releasable; on
/// an active campaign without a milestone of the id it is an error; otherwise
/// the first milestone with the id is releasable exactly when the oracle
/// verified it, the brand approved it, it was not paid, neither the campaign's
/// nor the milestone's own deadline has passed, and a verified score at or
/// above the threshold is on record.
pub proof fn law_releasable(e: CampaignEscrow, id: u8, t: i64)
    ensures
        e.state != CampaignState::Active ==> releasable_outcome(e, id, t) == Ok::<bool, EscrowError>(false),
        e.state == CampaignState::Active && !(exists|p: int| first_with_id(e.milestones@, id, p))
            ==> releasable_outcome(e, id, t) == Err::<bool, EscrowError>(
                EscrowError::MilestoneNotVerified { milestone_id: id }),
        e.state == CampaignState::Active && (exists|p: int| first_with_id(e.milestones@, id, p)) ==> {
            let p = milestone_index(e.milestones@, id);
            let m = e.milestones@[p];
            &&& first_with_id(e.milestones@, id, p)
            &&& releasable_outcome(e, id, t) == Ok::<bool, EscrowError>(
                m.oracle_verified && m.brand_approved && !m.funds_released && t <= e.deadline
                && (e.verified_authenticity_score matches Some(s) && s >= e.min_authenticity_threshold)
                && (m.definition.deadline matches Some(d) ==> t <= d))
        },
{
    if has_milestone(e.milestones@, id) {
        lemma_milestone_index(e.milestones@, id);
        assert(first_with_id(e.milestones@, id, milestone_index(e.milestones@, id)));
    }
    if exists|p: int| first_with_id(e.milestones@, id, p) {
        let p = choose|p: int| first_with_id(e.milestones@, id, p);
        assert(e.milestones@[p].definition.id == id);
        lemma_milestone_index(e.milestones@, id);
    }
}

/// A milestone's engagement check passes when it has no target or the
/// engagement reaches the target; its deadline check passes when it has no
/// deadline of its own or the time is not past it.
pub proof fn law_milestone_checks(m: MilestoneState, actual: u64, t: i64)
    ensures
        engagement_met(m, actual) <==> (m.definition.engagement_target matches Some(target) ==> actual >= target),
        within_milestone_deadline(m, t) <==> (m.definition.deadline matches Some(d) ==> t <= d),
{
}

/// A summary line carries the milestone's id, description and flags, and
/// its payout `total * pct / 100` rounded down (at most `u64::MAX`).
pub proof fn law_summary(m: MilestoneState, total: u64)
    ensures ({
        let s = summary_of(m, total);
        let share = total as int * m.definition.payout_percentage as int / 100;
        &&& s.id == m.definition.id
        &&& s.description == m.definition.description
        &&& s.payout_amount == (if share > u64::MAX as int { u64::MAX as int } else { share })
        &&& s.oracle_verified == m.oracle_verified
        &&& s.brand_approved == m.brand_approved
        &&& s.completed == m.completed
        &&& s.funds_released == m.funds_released
    }),
{
    let share = total as int * m.definition.payout_percentage as int / 100;
    assert(0 <= share) by (nonlinear_arith)
        requires
            share == total as int * m.definition.payout_percentage as int / 100,
    ;
}

} // verus!
