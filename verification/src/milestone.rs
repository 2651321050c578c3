//! Milestone verification: checks of deliverables against the campaign terms.

use vstd::prelude::*;
use crate::types::{CampaignEscrow, CampaignState, EscrowError, MilestoneState};
use crate::escrow::{has_milestone, milestone_of, milestone_payout, payout_for, find_milestone};

verus! {

/// The milestone's engagement target (if any) is met by `actual`.
pub open spec fn engagement_met(m: MilestoneState, actual: u64) -> bool {
    match m.definition.engagement_target {
        Some(target) => actual >= target,
        None => true,
    }
}

/// `current_time` is within the milestone's own deadline (if any).
pub open spec fn within_milestone_deadline(m: MilestoneState, current_time: i64) -> bool {
    match m.definition.deadline {
        Some(deadline) => current_time <= deadline,
        None => true,
    }
}

/// The release predicate: the milestone `id` of `e` may be paid at `t`.
///
/// It holds when the campaign is active, the oracle verified the milestone,
/// the brand approved it, it has not been paid, the campaign deadline and the
/// milestone's own deadline are not passed, and a verified authenticity score
/// at or above the threshold is on record.
pub open spec fn releasable_outcome(e: CampaignEscrow, id: u8, t: i64) -> Result<bool, EscrowError> {
    if e.state != CampaignState::Active {
        Ok(false)
    } else if !has_milestone(e.milestones@, id) {
        Err(EscrowError::MilestoneNotVerified { milestone_id: id })
    } else {
        let m = milestone_of(e, id);
        Ok(m.oracle_verified && m.brand_approved && !m.funds_released && t <= e.deadline
            && (e.verified_authenticity_score matches Some(s) && s >= e.min_authenticity_threshold)
            && within_milestone_deadline(m, t))
    }
}

/// Human-readable milestone summary.
#[derive(Debug, Clone)]
pub struct MilestoneSummary {
    pub id: u8,
    pub description: String,
    pub payout_amount: u64,
    pub oracle_verified: bool,
    pub brand_approved: bool,
    pub completed: bool,
    pub funds_released: bool,
}

/// The summary line of milestone `m` in an escrow of `total`.
pub open spec fn summary_of(m: MilestoneState, total: u64) -> MilestoneSummary {
    MilestoneSummary {
        id: m.definition.id,
        description: m.definition.description,
        payout_amount: milestone_payout(total, m.definition.payout_percentage) as u64,
        oracle_verified: m.oracle_verified,
        brand_approved: m.brand_approved,
        completed: m.completed,
        funds_released: m.funds_released,
    }
}

/// Milestone verification utilities.
pub struct MilestoneVerifier;

impl MilestoneVerifier {
    /// Whether the milestone's engagement target has been met (no target passes).
    pub fn check_engagement(milestone: &MilestoneState, actual: u64) -> (r: bool)
        ensures
            r == engagement_met(*milestone, actual),
    {
        match milestone.definition.engagement_target {
            Some(target) => actual >= target,
            None => true,
        }
    }

    /// Whether `current_time` is within the milestone's own deadline (no deadline passes).
    pub fn check_deadline(milestone: &MilestoneState, current_time: i64) -> (r: bool)
        ensures
            r == within_milestone_deadline(*milestone, current_time),
    {
        match milestone.definition.deadline {
            Some(deadline) => current_time <= deadline,
            None => true,
        }
    }

    /// Whether the milestone is fully releasable: all conditions of the
    /// release predicate hold. Fails when no milestone has this id in an
    /// active campaign.
    pub fn is_releasable(escrow: &CampaignEscrow, milestone_id: u8, current_time: i64) -> (r: Result<bool, EscrowError>)
        ensures
            r == releasable_outcome(*escrow, milestone_id, current_time),
    {
        if escrow.state != CampaignState::Active {
            return Ok(false);
        }
        let pos = match find_milestone(&escrow.milestones, milestone_id) {
            Some(i) => i,
            None => return Err(EscrowError::MilestoneNotVerified { milestone_id }),
        };
        let milestone = &escrow.milestones[pos];
        let oracle_ok = milestone.oracle_verified;
        let brand_ok = milestone.brand_approved;
        let not_released = !milestone.funds_released;
        let deadline_ok = current_time <= escrow.deadline;
        let auth_ok = match escrow.verified_authenticity_score {
            Some(s) => s >= escrow.min_authenticity_threshold,
            None => false,
        };
        let milestone_deadline_ok = Self::check_deadline(milestone, current_time);
        Ok(oracle_ok && brand_ok && not_released && deadline_ok && auth_ok && milestone_deadline_ok)
    }

    /// A summary of every milestone and its completion status, in order.
    pub fn summary(escrow: &CampaignEscrow) -> (r: Vec<MilestoneSummary>)
        ensures
            r@.len() == escrow.milestones@.len(),
            forall|i: int| 0 <= i < r@.len() ==> #[trigger] r@[i] == summary_of(escrow.milestones@[i], escrow.total_amount),
    {
        let n = escrow.milestones.len();
        let mut out: Vec<MilestoneSummary> = Vec::new();
        for i in 0..n
            invariant
                n == escrow.milestones@.len(),
                out@.len() == i,
                forall|j: int| 0 <= j < i ==> #[trigger] out@[j] == summary_of(escrow.milestones@[j], escrow.total_amount),
        {
            let m = &escrow.milestones[i];
            out.push(MilestoneSummary {
                id: m.definition.id,
                description: m.definition.description.clone(),
                payout_amount: payout_for(escrow.total_amount, m.definition.payout_percentage),
                oracle_verified: m.oracle_verified,
                brand_approved: m.brand_approved,
                completed: m.completed,
                funds_released: m.funds_released,
            });
        }
        out
    }
}

} // verus!
