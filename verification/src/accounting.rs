//! The escrow's books: which part of the deposit the released milestones
//! account for, and why a release can never pay out more than was deposited.

use vstd::prelude::*;
use crate::types::{CampaignEscrow, MilestoneDefinition, MilestoneState};
use crate::escrow::{milestone_payout, percent_total, fresh_milestone};

verus! {

/// Sum of the payout percentages of the milestones.
pub open spec fn milestone_percent_total(ms: Seq<MilestoneState>) -> int
    decreases ms.len(),
{
    if ms.len() == 0 {
        0
    } else {
        milestone_percent_total(ms.drop_last()) + ms.last().definition.payout_percentage
    }
}

/// Sum of the payouts of all milestones of an escrow of `total`.
pub open spec fn payout_total(ms: Seq<MilestoneState>, total: u64) -> int
    decreases ms.len(),
{
    if ms.len() == 0 {
        0
    } else {
        payout_total(ms.drop_last(), total) + milestone_payout(total, ms.last().definition.payout_percentage)
    }
}

/// Sum of the payouts of the milestones whose funds have been released.
pub open spec fn released_total(ms: Seq<MilestoneState>, total: u64) -> int
    decreases ms.len(),
{
    if ms.len() == 0 {
        0
    } else {
        released_total(ms.drop_last(), total) + (if ms.last().funds_released {
            milestone_payout(total, ms.last().definition.payout_percentage)
        } else {
            0
        })
    }
}

/// The escrow's books balance: the milestones' percentages sum to 100 and the
/// released amount is exactly the sum of the payouts of the released milestones.
pub open spec fn accounted(e: CampaignEscrow) -> bool {
    &&& milestone_percent_total(e.milestones@) == 100
    &&& e.released_amount == released_total(e.milestones@, e.total_amount)
}

proof fn lemma_payout_le_share(total: u64, pct: u8)
    ensures
        0 <= milestone_payout(total, pct),
        milestone_payout(total, pct) * 100 <= total as int * pct as int,
{
    let x = total as int * pct as int;
    assert(x >= 0) by (nonlinear_arith)
        requires
            x == total as int * pct as int,
    ;
    assert((x / 100) * 100 <= x) by (nonlinear_arith)
        requires
            x >= 0,
    ;
}

/// The released payouts never exceed all payouts.
pub proof fn lemma_released_le_payout(ms: Seq<MilestoneState>, total: u64)
    ensures
        0 <= released_total(ms, total) <= payout_total(ms, total),
    decreases ms.len(),
{
    if ms.len() > 0 {
        lemma_released_le_payout(ms.drop_last(), total);
        lemma_payout_le_share(total, ms.last().definition.payout_percentage);
    }
}

/// An unreleased milestone's payout still fits among the unreleased payouts.
pub proof fn lemma_room_for_release(ms: Seq<MilestoneState>, total: u64, k: int)
    requires
        0 <= k < ms.len(),
        !ms[k].funds_released,
    ensures
        released_total(ms, total) + milestone_payout(total, ms[k].definition.payout_percentage)
            <= payout_total(ms, total),
    decreases ms.len(),
{
    let dl = ms.drop_last();
    lemma_payout_le_share(total, ms.last().definition.payout_percentage);
    if k == ms.len() - 1 {
        lemma_released_le_payout(dl, total);
    } else {
        assert(dl[k] == ms[k]);
        lemma_room_for_release(dl, total, k);
    }
}

/// All payouts together are at most `total * percentages / 100`.
pub proof fn lemma_payout_total_bound(ms: Seq<MilestoneState>, total: u64)
    ensures
        payout_total(ms, total) * 100 <= total as int * milestone_percent_total(ms),
    decreases ms.len(),
{
    if ms.len() > 0 {
        let dl = ms.drop_last();
        let pct = ms.last().definition.payout_percentage;
        lemma_payout_total_bound(dl, total);
        lemma_payout_le_share(total, pct);
        vstd::arithmetic::mul::lemma_mul_is_distributive_add(
            total as int,
            milestone_percent_total(dl),
            pct as int,
        );
    }
}

/// When the percentages sum to 100, all payouts together fit in the deposit.
pub proof fn lemma_payouts_fit(ms: Seq<MilestoneState>, total: u64)
    requires
        milestone_percent_total(ms) == 100,
    ensures
        payout_total(ms, total) <= total,
{
    lemma_payout_total_bound(ms, total);
}

/// The sums only look at the percentages and the released flags.
pub proof fn lemma_sums_frame(a: Seq<MilestoneState>, b: Seq<MilestoneState>, total: u64)
    requires
        a.len() == b.len(),
        forall|i: int| 0 <= i < a.len() ==> (#[trigger] a[i]).definition.payout_percentage
            == b[i].definition.payout_percentage && a[i].funds_released == b[i].funds_released,
    ensures
        milestone_percent_total(a) == milestone_percent_total(b),
        released_total(a, total) == released_total(b, total),
        payout_total(a, total) == payout_total(b, total),
    decreases a.len(),
{
    if a.len() > 0 {
        let (da, db) = (a.drop_last(), b.drop_last());
        assert forall|i: int| 0 <= i < da.len() implies (#[trigger] da[i]).definition.payout_percentage
            == db[i].definition.payout_percentage && da[i].funds_released == db[i].funds_released by {
            assert(da[i] == a[i] && db[i] == b[i]);
        }
        lemma_sums_frame(da, db, total);
        assert(a.last() == a[a.len() - 1] && b.last() == b[b.len() - 1]);
    }
}

/// Releasing milestone `k` adds its payout to the released sum.
pub proof fn lemma_release_adds_payout(a: Seq<MilestoneState>, b: Seq<MilestoneState>, total: u64, k: int)
    requires
        a.len() == b.len(),
        0 <= k < a.len(),
        !a[k].funds_released,
        b[k].funds_released,
        a[k].definition.payout_percentage == b[k].definition.payout_percentage,
        forall|i: int| 0 <= i < a.len() && i != k ==> (#[trigger] a[i]).definition.payout_percentage
            == b[i].definition.payout_percentage && a[i].funds_released == b[i].funds_released,
    ensures
        milestone_percent_total(a) == milestone_percent_total(b),
        released_total(b, total) == released_total(a, total)
            + milestone_payout(total, a[k].definition.payout_percentage),
    decreases a.len(),
{
    let (da, db) = (a.drop_last(), b.drop_last());
    if k == a.len() - 1 {
        assert forall|i: int| 0 <= i < da.len() implies (#[trigger] da[i]).definition.payout_percentage
            == db[i].definition.payout_percentage && da[i].funds_released == db[i].funds_released by {
            assert(da[i] == a[i] && db[i] == b[i]);
        }
        lemma_sums_frame(da, db, total);
    } else {
        assert forall|i: int| 0 <= i < da.len() && i != k implies (#[trigger] da[i]).definition.payout_percentage
            == db[i].definition.payout_percentage && da[i].funds_released == db[i].funds_released by {
            assert(da[i] == a[i] && db[i] == b[i]);
        }
        assert(da[k] == a[k] && db[k] == b[k]);
        lemma_release_adds_payout(da, db, total, k);
        assert(a.last() == a[a.len() - 1] && b.last() == b[b.len() - 1]);
    }
}

/// Freshly created milestones carry the definitions' percentages and none is released.
pub proof fn lemma_fresh_sums(defs: Seq<MilestoneDefinition>, total: u64)
    ensures
        milestone_percent_total(defs.map_values(|d: MilestoneDefinition| fresh_milestone(d)))
            == percent_total(defs),
        released_total(defs.map_values(|d: MilestoneDefinition| fresh_milestone(d)), total) == 0,
    decreases defs.len(),
{
    if defs.len() > 0 {
        let ms = defs.map_values(|d: MilestoneDefinition| fresh_milestone(d));
        assert(ms.drop_last() =~= defs.drop_last().map_values(|d: MilestoneDefinition| fresh_milestone(d)));
        lemma_fresh_sums(defs.drop_last(), total);
    }
}

/// A balanced escrow never has released more than was deposited.
pub proof fn lemma_accounted_conserves(e: CampaignEscrow)
    requires
        accounted(e),
    ensures
        e.released_amount <= e.total_amount,
{
    lemma_released_le_payout(e.milestones@, e.total_amount);
    lemma_payouts_fit(e.milestones@, e.total_amount);
}

} // verus!
