//! The campaign escrow state machine.
//!
//! Every operation is specified by an *outcome* (the value it returns, computed
//! from the escrow before the call) and an *effect* (how the escrow after a
//! successful call relates to the escrow before it). A failed operation leaves
//! the escrow untouched.

use vstd::prelude::*;
use crate::types::{CampaignEscrow, CampaignState, EscrowError, MilestoneDefinition, MilestoneState};
use crate::clock::current_unix_timestamp;
use crate::accounting::{accounted, lemma_fresh_sums};

verus! {

// ─── Specification ──────────────────────────────────────────────────────────

/// The state transitions that the escrow transition table allows.
pub open spec fn legal_transition(from: CampaignState, to: CampaignState) -> bool {
    ||| from == CampaignState::Created && to == CampaignState::Funded
    ||| from == CampaignState::Created && to == CampaignState::Cancelled
    ||| from == CampaignState::Funded && to == CampaignState::Active
    ||| from == CampaignState::Funded && to == CampaignState::Refunded
    ||| from == CampaignState::Active && to == CampaignState::Completed
    ||| from == CampaignState::Active && to == CampaignState::Disputed
    ||| from == CampaignState::Completed && to == CampaignState::Settled
    ||| from == CampaignState::Disputed && to == CampaignState::Arbitrated
}

/// Sum of the payout percentages of a list of milestone definitions.
pub open spec fn percent_total(defs: Seq<MilestoneDefinition>) -> int
    decreases defs.len(),
{
    if defs.len() == 0 {
        0
    } else {
        percent_total(defs.drop_last()) + defs.last().payout_percentage
    }
}

/// The on-chain state of a milestone that has just been created.
pub open spec fn fresh_milestone(def: MilestoneDefinition) -> MilestoneState {
    MilestoneState {
        definition: def,
        completed: false,
        completed_at: None,
        engagement_actual: None,
        brand_approved: false,
        oracle_verified: false,
        evidence_cid: None,
        funds_released: false,
    }
}

/// The amount paid out for a milestone worth `pct` percent of `total`:
/// `total * pct / 100` rounded down (saturating at `u64::MAX`).
pub open spec fn milestone_payout(total: u64, pct: u8) -> int {
    let exact = total as int * pct as int / 100;
    if exact > u64::MAX as int {
        u64::MAX as int
    } else {
        exact
    }
}

/// `i` is the position of the first milestone whose id is `id`.
pub open spec fn is_first_match(ms: Seq<MilestoneState>, id: u8, i: int) -> bool {
    &&& 0 <= i < ms.len()
    &&& ms[i].definition.id == id
    &&& forall|j: int| 0 <= j < i ==> (#[trigger] ms[j]).definition.id != id
}

/// Some milestone has id `id`.
pub open spec fn has_milestone(ms: Seq<MilestoneState>, id: u8) -> bool {
    exists|i: int| 0 <= i < ms.len() && (#[trigger] ms[i]).definition.id == id
}

/// The position of the first milestone whose id is `id` (meaningful when `has_milestone`).
pub open spec fn milestone_index(ms: Seq<MilestoneState>, id: u8) -> int {
    choose|i: int| is_first_match(ms, id, i)
}

/// The milestone that the operations on `id` address.
pub open spec fn milestone_of(e: CampaignEscrow, id: u8) -> MilestoneState {
    e.milestones@[milestone_index(e.milestones@, id)]
}

/// Every milestone is completed.
pub open spec fn all_completed(ms: Seq<MilestoneState>) -> bool {
    forall|i: int| 0 <= i < ms.len() ==> (#[trigger] ms[i]).completed
}

/// The fields that no operation changes are equal in `a` and `b`.
pub open spec fn same_terms(a: CampaignEscrow, b: CampaignEscrow) -> bool {
    &&& a.brand_id == b.brand_id
    &&& a.creator_id == b.creator_id
    &&& a.total_amount == b.total_amount
    &&& a.min_authenticity_threshold == b.min_authenticity_threshold
    &&& a.deadline == b.deadline
    &&& a.terms_cid == b.terms_cid
    &&& a.proof_certificate_cid == b.proof_certificate_cid
    &&& a.created_at == b.created_at
}

/// `e` is the escrow that creating a campaign with these arguments yields.
pub open spec fn campaign_created(
    e: CampaignEscrow,
    brand_id: String,
    creator_id: String,
    total_amount: u64,
    min_authenticity_threshold: u8,
    deadline: i64,
    terms_cid: String,
    milestones: Seq<MilestoneDefinition>,
) -> bool {
    &&& e.state == CampaignState::Created
    &&& e.brand_id == brand_id
    &&& e.creator_id == creator_id
    &&& e.total_amount == total_amount
    &&& e.released_amount == 0
    &&& e.min_authenticity_threshold == min_authenticity_threshold
    &&& e.verified_authenticity_score is None
    &&& e.deadline == deadline
    &&& e.terms_cid == terms_cid
    &&& e.proof_certificate_cid is None
    &&& e.milestones@ == milestones.map_values(|d: MilestoneDefinition| fresh_milestone(d))
}

/// Only the state changed, to `to`.
pub open spec fn moved_to(old: CampaignEscrow, new: CampaignEscrow, to: CampaignState) -> bool {
    &&& same_terms(old, new)
    &&& new.state == to
    &&& new.released_amount == old.released_amount
    &&& new.verified_authenticity_score == old.verified_authenticity_score
    &&& new.milestones@ == old.milestones@
}

/// Result of `fund_campaign`.
pub open spec fn fund_outcome(e: CampaignEscrow) -> Result<(), EscrowError> {
    if legal_transition(e.state, CampaignState::Funded) {
        Ok(())
    } else {
        Err(EscrowError::InvalidStateTransition { from: e.state, to: CampaignState::Funded })
    }
}

/// Result of `activate_campaign`.
pub open spec fn activate_outcome(e: CampaignEscrow, score: u8) -> Result<(), EscrowError> {
    if !legal_transition(e.state, CampaignState::Active) {
        Err(EscrowError::InvalidStateTransition { from: e.state, to: CampaignState::Active })
    } else if score < e.min_authenticity_threshold {
        Err(EscrowError::AuthenticityBelowThreshold { score, threshold: e.min_authenticity_threshold })
    } else {
        Ok(())
    }
}

/// Effect of a successful `activate_campaign`.
pub open spec fn activate_effect(old: CampaignEscrow, new: CampaignEscrow, score: u8) -> bool {
    &&& same_terms(old, new)
    &&& new.state == CampaignState::Active
    &&& new.released_amount == old.released_amount
    &&& new.verified_authenticity_score == Some(score)
    &&& new.milestones@ == old.milestones@
}

/// Result of `verify_milestone`.
pub open spec fn verify_outcome(e: CampaignEscrow, id: u8, actual: Option<u64>) -> Result<(), EscrowError> {
    if e.state != CampaignState::Active {
        Err(EscrowError::InvalidStateTransition { from: e.state, to: CampaignState::Active })
    } else if !has_milestone(e.milestones@, id) {
        Err(EscrowError::MilestoneNotVerified { milestone_id: id })
    } else if milestone_of(e, id).completed {
        Err(EscrowError::MilestoneAlreadyCompleted { milestone_id: id })
    } else if milestone_of(e, id).definition.engagement_target is Some && (actual is None
        || actual->0 < milestone_of(e, id).definition.engagement_target->0) {
        Err(EscrowError::MilestoneNotVerified { milestone_id: id })
    } else {
        Ok(())
    }
}

/// The milestone `m` once the oracle has verified it with `actual` engagement.
pub open spec fn verified_milestone(m: MilestoneState, actual: Option<u64>) -> MilestoneState {
    MilestoneState { oracle_verified: true, engagement_actual: actual, ..m }
}

/// Effect of a successful `verify_milestone`.
pub open spec fn verify_effect(old: CampaignEscrow, new: CampaignEscrow, id: u8, actual: Option<u64>) -> bool {
    let pos = milestone_index(old.milestones@, id);
    &&& same_terms(old, new)
    &&& new.state == old.state
    &&& new.released_amount == old.released_amount
    &&& new.verified_authenticity_score == old.verified_authenticity_score
    &&& new.milestones@ == old.milestones@.update(pos, verified_milestone(old.milestones@[pos], actual))
}

/// The message carried by the error for an approval from someone other than the brand.
pub open spec fn unauthorized_approval_message() -> Seq<char> {
    "Only the brand can approve milestones"@
}

/// The milestone `m` once the brand has approved it.
pub open spec fn approved_milestone(m: MilestoneState) -> MilestoneState {
    MilestoneState { brand_approved: true, ..m }
}

/// Effect of a successful `approve_milestone`.
pub open spec fn approve_effect(old: CampaignEscrow, new: CampaignEscrow, id: u8) -> bool {
    let pos = milestone_index(old.milestones@, id);
    &&& same_terms(old, new)
    &&& new.state == old.state
    &&& new.released_amount == old.released_amount
    &&& new.verified_authenticity_score == old.verified_authenticity_score
    &&& new.milestones@ == old.milestones@.update(pos, approved_milestone(old.milestones@[pos]))
}

/// All checks of `release_milestone_funds` before the conservation check pass.
pub open spec fn release_reaches_payout(e: CampaignEscrow, id: u8, t: i64) -> bool {
    &&& e.state == CampaignState::Active
    &&& t <= e.deadline
    &&& has_milestone(e.milestones@, id)
    &&& !milestone_of(e, id).funds_released
    &&& milestone_of(e, id).oracle_verified
    &&& milestone_of(e, id).brand_approved
    &&& e.verified_authenticity_score matches Some(score) && score >= e.min_authenticity_threshold
}

/// The authenticity score that a release checks: the verified score, or 0
/// (below any positive threshold) when no score is on record.
pub open spec fn recorded_score(e: CampaignEscrow) -> u8 {
    match e.verified_authenticity_score {
        Some(score) => score,
        None => 0,
    }
}

/// Result of `release_milestone_funds`.
pub open spec fn release_outcome(e: CampaignEscrow, id: u8, t: i64) -> Result<u64, EscrowError> {
    if e.state != CampaignState::Active {
        Err(EscrowError::InvalidStateTransition { from: e.state, to: CampaignState::Active })
    } else if t > e.deadline {
        Err(EscrowError::DeadlineExceeded { deadline: e.deadline, current: t })
    } else if !has_milestone(e.milestones@, id) {
        Err(EscrowError::MilestoneNotVerified { milestone_id: id })
    } else if milestone_of(e, id).funds_released {
        Err(EscrowError::DoubleSpend { milestone_id: id })
    } else if !milestone_of(e, id).oracle_verified {
        Err(EscrowError::MilestoneNotVerified { milestone_id: id })
    } else if !milestone_of(e, id).brand_approved {
        Err(EscrowError::MilestoneNotApproved { milestone_id: id })
    } else if e.verified_authenticity_score is None
        || e.verified_authenticity_score->0 < e.min_authenticity_threshold {
        Err(EscrowError::AuthenticityBelowThreshold {
            score: recorded_score(e),
            threshold: e.min_authenticity_threshold,
        })
    } else {
        let payout = milestone_payout(e.total_amount, milestone_of(e, id).definition.payout_percentage);
        if e.released_amount + payout > e.total_amount {
            Err(EscrowError::InsufficientFunds {
                required: payout as u64,
                available: (e.total_amount - e.released_amount) as u64,
            })
        } else {
            Ok(payout as u64)
        }
    }
}

/// The milestone `m` once its funds are released at time `t`.
pub open spec fn released_milestone(m: MilestoneState, t: i64) -> MilestoneState {
    MilestoneState { completed: true, completed_at: Some(t), funds_released: true, ..m }
}

/// Effect of a successful `release_milestone_funds` that paid out `payout`.
pub open spec fn release_effect(old: CampaignEscrow, new: CampaignEscrow, id: u8, t: i64, payout: u64) -> bool {
    let pos = milestone_index(old.milestones@, id);
    let ms = old.milestones@.update(pos, released_milestone(old.milestones@[pos], t));
    &&& same_terms(old, new)
    &&& new.milestones@ == ms
    &&& new.released_amount == old.released_amount + payout
    &&& new.verified_authenticity_score == old.verified_authenticity_score
    &&& new.state == (if all_completed(ms) { CampaignState::Completed } else { old.state })
}

/// Result of `timeout_refund`.
pub open spec fn refund_outcome(e: CampaignEscrow, t: i64) -> Result<u64, EscrowError> {
    if t <= e.deadline {
        Err(EscrowError::DeadlineExceeded { deadline: e.deadline, current: t })
    } else if e.state != CampaignState::Active && e.state != CampaignState::Funded {
        Err(EscrowError::InvalidStateTransition { from: e.state, to: CampaignState::Refunded })
    } else {
        Ok((e.total_amount - e.released_amount) as u64)
    }
}

/// Result of `settle_campaign`.
pub open spec fn settle_outcome(e: CampaignEscrow) -> Result<(), EscrowError> {
    if legal_transition(e.state, CampaignState::Settled) {
        Ok(())
    } else {
        Err(EscrowError::InvalidStateTransition { from: e.state, to: CampaignState::Settled })
    }
}

// ─── Helpers ────────────────────────────────────────────────────────────────

proof fn lemma_first_match_exists(ms: Seq<MilestoneState>, id: u8, w: int)
    requires
        0 <= w < ms.len(),
        ms[w].definition.id == id,
    ensures
        exists|i: int| is_first_match(ms, id, i),
    decreases w,
{
    if exists|j: int| 0 <= j < w && (#[trigger] ms[j]).definition.id == id {
        let j = choose|j: int| 0 <= j < w && (#[trigger] ms[j]).definition.id == id;
        lemma_first_match_exists(ms, id, j);
    } else {
        assert(is_first_match(ms, id, w));
    }
}

/// The first match is unique, and `milestone_index` finds it.
pub proof fn lemma_milestone_index(ms: Seq<MilestoneState>, id: u8)
    requires
        has_milestone(ms, id),
    ensures
        is_first_match(ms, id, milestone_index(ms, id)),
        forall|i: int| is_first_match(ms, id, i) ==> i == milestone_index(ms, id),
{
    let w = choose|i: int| 0 <= i < ms.len() && (#[trigger] ms[i]).definition.id == id;
    lemma_first_match_exists(ms, id, w);
    let k = milestone_index(ms, id);
    assert forall|i: int| is_first_match(ms, id, i) implies i == k by {
        if i < k {
            assert(ms[i].definition.id != id);
        } else if k < i {
            assert(ms[k].definition.id != id);
        }
    }
}

/// Sequences with the same ids at every position have the same first match.
pub proof fn lemma_milestone_index_same_ids(a: Seq<MilestoneState>, b: Seq<MilestoneState>, id: u8)
    requires
        a.len() == b.len(),
        forall|i: int| 0 <= i < a.len() ==> (#[trigger] a[i]).definition.id == b[i].definition.id,
    ensures
        has_milestone(a, id) == has_milestone(b, id),
        has_milestone(a, id) ==> milestone_index(a, id) == milestone_index(b, id),
{
    if has_milestone(a, id) {
        let i = choose|i: int| 0 <= i < a.len() && (#[trigger] a[i]).definition.id == id;
        assert(b[i].definition.id == id);
        lemma_milestone_index(a, id);
        lemma_milestone_index(b, id);
        let k = milestone_index(a, id);
        assert forall|j: int| 0 <= j < k implies (#[trigger] b[j]).definition.id != id by {
            assert(a[j].definition.id != id);
        }
        assert(is_first_match(b, id, k));
    }
    if has_milestone(b, id) {
        let i = choose|i: int| 0 <= i < b.len() && (#[trigger] b[i]).definition.id == id;
        assert(a[i].definition.id == id);
    }
}

/// Finds the position of the first milestone with id `id`.
pub(crate) fn find_milestone(ms: &Vec<MilestoneState>, id: u8) -> (r: Option<usize>)
    ensures
        r is None <==> !has_milestone(ms@, id),
        r matches Some(i) ==> i == milestone_index(ms@, id) && is_first_match(ms@, id, i as int),
{
    let n = ms.len();
    let mut i: usize = 0;
    while i < n
        invariant
            n == ms@.len(),
            0 <= i <= n,
            forall|j: int| 0 <= j < i ==> (#[trigger] ms@[j]).definition.id != id,
        decreases n - i,
    {
        if ms[i].definition.id == id {
            proof {
                assert(is_first_match(ms@, id, i as int));
                lemma_milestone_index(ms@, id);
            }
            return Some(i);
        }
        i = i + 1;
    }
    None
}

/// Computes `milestone_payout(total, pct)`.
pub fn payout_for(total: u64, pct: u8) -> (r: u64)
    ensures
        r == milestone_payout(total, pct),
{
    assert((total as int) * (pct as int) <= (u64::MAX as int) * 255) by (nonlinear_arith)
        requires
            total <= u64::MAX,
            pct <= 255,
    ;
    let exact: u128 = (total as u128) * (pct as u128) / 100;
    if exact > u64::MAX as u128 {
        u64::MAX
    } else {
        exact as u64
    }
}

/// Whether every milestone is completed.
fn every_milestone_completed(ms: &Vec<MilestoneState>) -> (r: bool)
    ensures
        r == all_completed(ms@),
{
    let n = ms.len();
    for i in 0..n
        invariant
            n == ms@.len(),
            forall|j: int| 0 <= j < i ==> (#[trigger] ms@[j]).completed,
    {
        if !ms[i].completed {
            return false;
        }
    }
    true
}

// ─── The engine ─────────────────────────────────────────────────────────────

/// The escrow engine: all state transitions are guarded by the escrow invariants.
pub struct EscrowEngine;

impl EscrowEngine {
    /// Validate that a state transition is legal.
    fn validate_transition(from: CampaignState, to: CampaignState) -> (r: Result<(), EscrowError>)
        ensures
            r is Ok <==> legal_transition(from, to),
            r is Err ==> r == Err::<(), EscrowError>(EscrowError::InvalidStateTransition { from, to }),
    {
        let valid = match (from, to) {
            (CampaignState::Created, CampaignState::Funded) => true,
            (CampaignState::Created, CampaignState::Cancelled) => true,
            (CampaignState::Funded, CampaignState::Active) => true,
            (CampaignState::Funded, CampaignState::Refunded) => true,
            (CampaignState::Active, CampaignState::Completed) => true,
            (CampaignState::Active, CampaignState::Disputed) => true,
            (CampaignState::Completed, CampaignState::Settled) => true,
            (CampaignState::Disputed, CampaignState::Arbitrated) => true,
            _ => false,
        };
        if valid {
            Ok(())
        } else {
            Err(EscrowError::InvalidStateTransition { from, to })
        }
    }

    /// Create a new campaign escrow in the Created state, stamped with
    /// `created_at`. The milestone payout percentages must sum to exactly 100.
    pub fn create_campaign_at(
        brand_id: String,
        creator_id: String,
        total_amount: u64,
        min_authenticity_threshold: u8,
        deadline: i64,
        terms_cid: String,
        milestones: Vec<MilestoneDefinition>,
        created_at: i64,
    ) -> (r: Result<CampaignEscrow, EscrowError>)
        ensures
            r is Ok <==> percent_total(milestones@) == 100,
            r is Err ==> r == Err::<CampaignEscrow, EscrowError>(EscrowError::InvalidStateTransition {
                from: CampaignState::Created,
                to: CampaignState::Created,
            }),
            r matches Ok(e) ==> campaign_created(e, brand_id, creator_id, total_amount,
                min_authenticity_threshold, deadline, terms_cid, milestones@) && e.created_at == created_at,
            r matches Ok(e) ==> accounted(e),
    {
        let n = milestones.len();
        let mut total_pct: u128 = 0;
        for i in 0..n
            invariant
                n == milestones@.len(),
                total_pct == percent_total(milestones@.take(i as int)),
                total_pct <= 255 * i,
        {
            assert(milestones@.take(i + 1).drop_last() =~= milestones@.take(i as int));
            total_pct = total_pct + milestones[i].payout_percentage as u128;
        }
        assert(milestones@.take(n as int) =~= milestones@);
        if total_pct != 100 {
            return Err(EscrowError::InvalidStateTransition { from: CampaignState::Created, to: CampaignState::Created });
        }
        let ghost defs = milestones@;
        let mut states: Vec<MilestoneState> = Vec::new();
        for def in it: milestones
            invariant
                it.seq() == defs,
                states@ == it.seq().take(it.index() as int).map_values(|d: MilestoneDefinition| fresh_milestone(d)),
        {
            let ghost k = it.index();
            states.push(MilestoneState {
                definition: def,
                completed: false,
                completed_at: None,
                engagement_actual: None,
                brand_approved: false,
                oracle_verified: false,
                evidence_cid: None,
                funds_released: false,
            });
            assert(states@ =~= it.seq().take(k + 1).map_values(|d: MilestoneDefinition| fresh_milestone(d)));
        }
        assert(defs.take(defs.len() as int) =~= defs);
        proof { lemma_fresh_sums(defs, total_amount); }
        Ok(CampaignEscrow {
            state: CampaignState::Created,
            brand_id,
            creator_id,
            total_amount,
            released_amount: 0,
            min_authenticity_threshold,
            verified_authenticity_score: None,
            deadline,
            terms_cid,
            proof_certificate_cid: None,
            milestones: states,
            created_at,
        })
    }

    /// Create a new campaign escrow in the Created state, stamped with the
    /// current time (a Unix timestamp, never negative). The milestone payout
    /// percentages must sum to exactly 100.
    pub fn create_campaign(
        brand_id: String,
        creator_id: String,
        total_amount: u64,
        min_authenticity_threshold: u8,
        deadline: i64,
        terms_cid: String,
        milestones: Vec<MilestoneDefinition>,
    ) -> (r: Result<CampaignEscrow, EscrowError>)
        ensures
            r is Ok <==> percent_total(milestones@) == 100,
            r is Err ==> r == Err::<CampaignEscrow, EscrowError>(EscrowError::InvalidStateTransition {
                from: CampaignState::Created,
                to: CampaignState::Created,
            }),
            r matches Ok(e) ==> campaign_created(e, brand_id, creator_id, total_amount,
                min_authenticity_threshold, deadline, terms_cid, milestones@),
            r matches Ok(e) ==> accounted(e) && e.created_at >= 0,
    {
        let created_at = current_unix_timestamp();
        Self::create_campaign_at(brand_id, creator_id, total_amount, min_authenticity_threshold,
            deadline, terms_cid, milestones, created_at)
    }

    /// Fund the escrow (Created → Funded).
    pub fn fund_campaign(escrow: &mut CampaignEscrow) -> (r: Result<(), EscrowError>)
        ensures
            r == fund_outcome(*old(escrow)),
            r is Ok ==> moved_to(*old(escrow), *final(escrow), CampaignState::Funded),
            r is Err ==> *final(escrow) == *old(escrow),
    {
        Self::validate_transition(escrow.state, CampaignState::Funded)?;
        escrow.state = CampaignState::Funded;
        Ok(())
    }

    /// Activate the campaign after the oracle verified the creator's
    /// authenticity (Funded → Active). The activation is refused when the
    /// score is below the campaign's threshold.
    pub fn activate_campaign(escrow: &mut CampaignEscrow, authenticity_score: u8) -> (r: Result<(), EscrowError>)
        ensures
            r == activate_outcome(*old(escrow), authenticity_score),
            r is Ok ==> activate_effect(*old(escrow), *final(escrow), authenticity_score),
            r is Err ==> *final(escrow) == *old(escrow),
    {
        Self::validate_transition(escrow.state, CampaignState::Active)?;
        if authenticity_score < escrow.min_authenticity_threshold {
            return Err(EscrowError::AuthenticityBelowThreshold {
                score: authenticity_score,
                threshold: escrow.min_authenticity_threshold,
            });
        }
        escrow.verified_authenticity_score = Some(authenticity_score);
        escrow.state = CampaignState::Active;
        Ok(())
    }

    /// Verify a milestone: the oracle confirms that its engagement target is met.
    pub fn verify_milestone(
        escrow: &mut CampaignEscrow,
        milestone_id: u8,
        engagement_actual: Option<u64>,
    ) -> (r: Result<(), EscrowError>)
        ensures
            r == verify_outcome(*old(escrow), milestone_id, engagement_actual),
            r is Ok ==> verify_effect(*old(escrow), *final(escrow), milestone_id, engagement_actual),
            r is Err ==> *final(escrow) == *old(escrow),
    {
        if escrow.state != CampaignState::Active {
            return Err(EscrowError::InvalidStateTransition { from: escrow.state, to: CampaignState::Active });
        }
        let pos = match find_milestone(&escrow.milestones, milestone_id) {
            Some(i) => i,
            None => return Err(EscrowError::MilestoneNotVerified { milestone_id }),
        };
        if escrow.milestones[pos].completed {
            return Err(EscrowError::MilestoneAlreadyCompleted { milestone_id });
        }
        if let Some(target) = escrow.milestones[pos].definition.engagement_target {
            match engagement_actual {
                Some(actual) => {
                    if actual < target {
                        return Err(EscrowError::MilestoneNotVerified { milestone_id });
                    }
                },
                None => {
                    return Err(EscrowError::MilestoneNotVerified { milestone_id });
                },
            }
        }
        let ghost before = escrow.milestones@;
        let mut m = escrow.milestones.remove(pos);
        m.oracle_verified = true;
        m.engagement_actual = engagement_actual;
        escrow.milestones.insert(pos, m);
        assert(escrow.milestones@ =~= before.update(pos as int, verified_milestone(before[pos as int], engagement_actual)));
        Ok(())
    }

    /// The brand approves a milestone deliverable. Only the brand may approve.
    pub fn approve_milestone(escrow: &mut CampaignEscrow, milestone_id: u8, signer: &str) -> (r: Result<(), EscrowError>)
        ensures
            signer@ != old(escrow).brand_id@ ==> (r matches Err(EscrowError::Unauthorized(msg))
                && msg@ == unauthorized_approval_message()),
            signer@ == old(escrow).brand_id@ && !has_milestone(old(escrow).milestones@, milestone_id)
                ==> r == Err::<(), EscrowError>(EscrowError::MilestoneNotApproved { milestone_id }),
            signer@ == old(escrow).brand_id@ && has_milestone(old(escrow).milestones@, milestone_id)
                ==> r is Ok,
            r is Ok ==> approve_effect(*old(escrow), *final(escrow), milestone_id),
            r is Err ==> *final(escrow) == *old(escrow),
    {
        let signer_owned = String::from_str(signer);
        if !(signer_owned == escrow.brand_id) {
            return Err(EscrowError::Unauthorized(String::from_str("Only the brand can approve milestones")));
        }
        let pos = match find_milestone(&escrow.milestones, milestone_id) {
            Some(i) => i,
            None => return Err(EscrowError::MilestoneNotApproved { milestone_id }),
        };
        let ghost before = escrow.milestones@;
        let mut m = escrow.milestones.remove(pos);
        m.brand_approved = true;
        escrow.milestones.insert(pos, m);
        assert(escrow.milestones@ =~= before.update(pos as int, approved_milestone(before[pos as int])));
        Ok(())
    }

    /// Release the funds of a milestone.
    ///
    /// Funds are released only when the oracle verified the milestone AND the
    /// brand approved it AND a verified authenticity score at or above the
    /// threshold is on record, at most once per milestone, never past the
    /// campaign deadline, and never beyond the deposited total. Without a
    /// score on record the release is refused as a score of 0. When every
    /// milestone is completed the campaign moves to Completed.
    pub fn release_milestone_funds(
        escrow: &mut CampaignEscrow,
        milestone_id: u8,
        current_time: i64,
    ) -> (r: Result<u64, EscrowError>)
        requires
            release_reaches_payout(*old(escrow), milestone_id, current_time)
                ==> old(escrow).released_amount <= old(escrow).total_amount,
        ensures
            r == release_outcome(*old(escrow), milestone_id, current_time),
            r matches Ok(p) ==> release_effect(*old(escrow), *final(escrow), milestone_id, current_time, p),
            r is Err ==> *final(escrow) == *old(escrow),
    {
        if escrow.state != CampaignState::Active {
            return Err(EscrowError::InvalidStateTransition { from: escrow.state, to: CampaignState::Active });
        }
        if current_time > escrow.deadline {
            return Err(EscrowError::DeadlineExceeded { deadline: escrow.deadline, current: current_time });
        }
        let pos = match find_milestone(&escrow.milestones, milestone_id) {
            Some(i) => i,
            None => return Err(EscrowError::MilestoneNotVerified { milestone_id }),
        };
        if escrow.milestones[pos].funds_released {
            return Err(EscrowError::DoubleSpend { milestone_id });
        }
        if !escrow.milestones[pos].oracle_verified {
            return Err(EscrowError::MilestoneNotVerified { milestone_id });
        }
        if !escrow.milestones[pos].brand_approved {
            return Err(EscrowError::MilestoneNotApproved { milestone_id });
        }
        match escrow.verified_authenticity_score {
            Some(score) => {
                if score < escrow.min_authenticity_threshold {
                    return Err(EscrowError::AuthenticityBelowThreshold {
                        score,
                        threshold: escrow.min_authenticity_threshold,
                    });
                }
            },
            None => {
                return Err(EscrowError::AuthenticityBelowThreshold {
                    score: 0,
                    threshold: escrow.min_authenticity_threshold,
                });
            },
        }
        let payout = payout_for(escrow.total_amount, escrow.milestones[pos].definition.payout_percentage);
        if (escrow.released_amount as u128) + (payout as u128) > (escrow.total_amount as u128) {
            return Err(EscrowError::InsufficientFunds {
                required: payout,
                available: escrow.total_amount - escrow.released_amount,
            });
        }
        let ghost before = escrow.milestones@;
        let mut m = escrow.milestones.remove(pos);
        m.completed = true;
        m.completed_at = Some(current_time);
        m.funds_released = true;
        escrow.milestones.insert(pos, m);
        assert(escrow.milestones@ =~= before.update(pos as int, released_milestone(before[pos as int], current_time)));
        escrow.released_amount = escrow.released_amount + payout;
        if every_milestone_completed(&escrow.milestones) {
            escrow.state = CampaignState::Completed;
        }
        Ok(payout)
    }

    /// Timeout refund: once the deadline has passed, a funded or active
    /// campaign is refunded in full of what has not been released.
    pub fn timeout_refund(escrow: &mut CampaignEscrow, current_time: i64) -> (r: Result<u64, EscrowError>)
        requires
            current_time > old(escrow).deadline && (old(escrow).state == CampaignState::Active
                || old(escrow).state == CampaignState::Funded)
                ==> old(escrow).released_amount <= old(escrow).total_amount,
        ensures
            r == refund_outcome(*old(escrow), current_time),
            r is Ok ==> moved_to(*old(escrow), *final(escrow), CampaignState::Refunded),
            r is Err ==> *final(escrow) == *old(escrow),
    {
        if current_time <= escrow.deadline {
            return Err(EscrowError::DeadlineExceeded { deadline: escrow.deadline, current: current_time });
        }
        if escrow.state != CampaignState::Active && escrow.state != CampaignState::Funded {
            return Err(EscrowError::InvalidStateTransition { from: escrow.state, to: CampaignState::Refunded });
        }
        let refund = escrow.total_amount - escrow.released_amount;
        escrow.state = CampaignState::Refunded;
        Ok(refund)
    }

    /// Settle the campaign (Completed → Settled).
    pub fn settle_campaign(escrow: &mut CampaignEscrow) -> (r: Result<(), EscrowError>)
        ensures
            r == settle_outcome(*old(escrow)),
            r is Ok ==> moved_to(*old(escrow), *final(escrow), CampaignState::Settled),
            r is Err ==> *final(escrow) == *old(escrow),
    {
        Self::validate_transition(escrow.state, CampaignState::Settled)?;
        escrow.state = CampaignState::Settled;
        Ok(())
    }
}

} // verus!
