use aether_quantum_vault::escrow::{payout_for, EscrowEngine};
use aether_quantum_vault::milestone::MilestoneVerifier;
use aether_quantum_vault::types::{
    CampaignEscrow, CampaignState, EscrowError, MilestoneDefinition, MilestoneState,
};

fn def(id: u8, pct: u8, target: Option<u64>, deadline: Option<i64>) -> MilestoneDefinition {
    MilestoneDefinition {
        id,
        description: format!("milestone {}", id),
        payout_percentage: pct,
        engagement_target: target,
        deadline,
    }
}

fn fresh(d: MilestoneDefinition) -> MilestoneState {
    MilestoneState {
        definition: d,
        completed: false,
        completed_at: None,
        engagement_actual: None,
        brand_approved: false,
        oracle_verified: false,
        evidence_cid: None,
        funds_released: false,
    }
}

fn active(total: u64, defs: Vec<MilestoneDefinition>, deadline: i64) -> CampaignEscrow {
    let mut e = EscrowEngine::create_campaign(
        "brand".to_string(),
        "creator".to_string(),
        total,
        50,
        deadline,
        "QmTerms".to_string(),
        defs,
    )
    .unwrap();
    EscrowEngine::fund_campaign(&mut e).unwrap();
    EscrowEngine::activate_campaign(&mut e, 60).unwrap();
    e
}

fn ready(e: &mut CampaignEscrow, id: u8) {
    EscrowEngine::verify_milestone(e, id, Some(u64::MAX)).unwrap();
    EscrowEngine::approve_milestone(e, id, "brand").unwrap();
}

#[test]
fn create_rejects_percentages_not_summing_to_100() {
    let r = EscrowEngine::create_campaign(
        "b".into(), "c".into(), 100, 0, 10, "t".into(),
        vec![def(1, 60, None, None), def(2, 30, None, None)],
    );
    assert!(matches!(
        r,
        Err(EscrowError::InvalidStateTransition { from: CampaignState::Created, to: CampaignState::Created })
    ));
    let r = EscrowEngine::create_campaign("b".into(), "c".into(), 100, 0, 10, "t".into(), vec![]);
    assert!(r.is_err());
    let r = EscrowEngine::create_campaign(
        "b".into(), "c".into(), 100, 0, 10, "t".into(),
        vec![def(1, 255, None, None), def(2, 101, None, None)],
    );
    assert!(r.is_err());
}

#[test]
fn create_records_terms_and_fresh_milestones() {
    let e = EscrowEngine::create_campaign_at(
        "b".into(), "c".into(), 700, 42, 99, "terms".into(),
        vec![def(7, 30, Some(5), None), def(8, 70, None, Some(3))],
        1234,
    )
    .unwrap();
    assert_eq!(e.state, CampaignState::Created);
    assert_eq!(e.brand_id, "b");
    assert_eq!(e.creator_id, "c");
    assert_eq!(e.total_amount, 700);
    assert_eq!(e.released_amount, 0);
    assert_eq!(e.min_authenticity_threshold, 42);
    assert_eq!(e.verified_authenticity_score, None);
    assert_eq!(e.deadline, 99);
    assert_eq!(e.terms_cid, "terms");
    assert_eq!(e.created_at, 1234);
    assert_eq!(e.milestones.len(), 2);
    assert_eq!(e.milestones[0].definition.id, 7);
    assert_eq!(e.milestones[1].definition.id, 8);
    assert!(e.milestones.iter().all(|m| !m.completed && !m.funds_released && !m.oracle_verified && !m.brand_approved));
}

#[test]
fn fund_and_activate_follow_the_transition_table() {
    let mut e = EscrowEngine::create_campaign(
        "b".into(), "c".into(), 100, 70, 10, "t".into(), vec![def(1, 100, None, None)],
    )
    .unwrap();
    assert!(matches!(
        EscrowEngine::activate_campaign(&mut e, 99),
        Err(EscrowError::InvalidStateTransition { from: CampaignState::Created, to: CampaignState::Active })
    ));
    assert_eq!(e.state, CampaignState::Created);
    assert_eq!(e.verified_authenticity_score, None);
    EscrowEngine::fund_campaign(&mut e).unwrap();
    assert!(matches!(
        EscrowEngine::fund_campaign(&mut e),
        Err(EscrowError::InvalidStateTransition { from: CampaignState::Funded, to: CampaignState::Funded })
    ));
    EscrowEngine::activate_campaign(&mut e, 70).unwrap();
    assert_eq!(e.state, CampaignState::Active);
    assert_eq!(e.verified_authenticity_score, Some(70));
    assert!(matches!(
        EscrowEngine::settle_campaign(&mut e),
        Err(EscrowError::InvalidStateTransition { from: CampaignState::Active, to: CampaignState::Settled })
    ));
}

#[test]
fn verify_milestone_errors() {
    let mut e = EscrowEngine::create_campaign(
        "brand".into(), "c".into(), 100, 0, 10, "t".into(),
        vec![def(1, 50, Some(10), None), def(2, 50, None, None)],
    )
    .unwrap();
    assert!(matches!(
        EscrowEngine::verify_milestone(&mut e, 1, Some(20)),
        Err(EscrowError::InvalidStateTransition { from: CampaignState::Created, to: CampaignState::Active })
    ));
    EscrowEngine::fund_campaign(&mut e).unwrap();
    EscrowEngine::activate_campaign(&mut e, 1).unwrap();
    assert!(matches!(
        EscrowEngine::verify_milestone(&mut e, 9, Some(20)),
        Err(EscrowError::MilestoneNotVerified { milestone_id: 9 })
    ));
    assert!(matches!(
        EscrowEngine::verify_milestone(&mut e, 1, Some(9)),
        Err(EscrowError::MilestoneNotVerified { milestone_id: 1 })
    ));
    assert!(matches!(
        EscrowEngine::verify_milestone(&mut e, 1, None),
        Err(EscrowError::MilestoneNotVerified { milestone_id: 1 })
    ));
    assert!(!e.milestones[0].oracle_verified);
    EscrowEngine::verify_milestone(&mut e, 2, None).unwrap();
    assert!(e.milestones[1].oracle_verified);
    EscrowEngine::verify_milestone(&mut e, 1, Some(10)).unwrap();
    assert_eq!(e.milestones[0].engagement_actual, Some(10));
    EscrowEngine::approve_milestone(&mut e, 1, "brand").unwrap();
    EscrowEngine::release_milestone_funds(&mut e, 1, 5).unwrap();
    assert!(matches!(
        EscrowEngine::verify_milestone(&mut e, 1, Some(10)),
        Err(EscrowError::MilestoneAlreadyCompleted { milestone_id: 1 })
    ));
}

#[test]
fn approve_milestone_errors() {
    let mut e = active(100, vec![def(1, 100, None, None)], 10);
    match EscrowEngine::approve_milestone(&mut e, 1, "someone") {
        Err(EscrowError::Unauthorized(msg)) => assert_eq!(msg, "Only the brand can approve milestones"),
        other => panic!("unexpected {:?}", other),
    }
    assert!(!e.milestones[0].brand_approved);
    assert!(matches!(
        EscrowEngine::approve_milestone(&mut e, 3, "brand"),
        Err(EscrowError::MilestoneNotApproved { milestone_id: 3 })
    ));
    EscrowEngine::approve_milestone(&mut e, 1, "brand").unwrap();
    assert!(e.milestones[0].brand_approved);
}

#[test]
fn release_errors_and_payout() {
    let mut e = active(999, vec![def(1, 33, None, None), def(2, 67, None, None)], 100);
    ready(&mut e, 1);
    assert!(matches!(
        EscrowEngine::release_milestone_funds(&mut e, 1, 101),
        Err(EscrowError::DeadlineExceeded { deadline: 100, current: 101 })
    ));
    assert!(matches!(
        EscrowEngine::release_milestone_funds(&mut e, 5, 50),
        Err(EscrowError::MilestoneNotVerified { milestone_id: 5 })
    ));
    // 999 * 33 / 100 = 329.67, rounded down
    assert_eq!(EscrowEngine::release_milestone_funds(&mut e, 1, 50).unwrap(), 329);
    assert_eq!(e.state, CampaignState::Active);
    assert_eq!(e.released_amount, 329);
    assert_eq!(e.milestones[0].completed_at, Some(50));
    ready(&mut e, 2);
    // 999 * 67 / 100 = 669.33, rounded down
    assert_eq!(EscrowEngine::release_milestone_funds(&mut e, 2, 60).unwrap(), 669);
    assert_eq!(e.released_amount, 998);
    assert!(e.released_amount <= e.total_amount);
    assert_eq!(e.state, CampaignState::Completed);
    assert!(matches!(
        EscrowEngine::release_milestone_funds(&mut e, 2, 60),
        Err(EscrowError::InvalidStateTransition { from: CampaignState::Completed, to: CampaignState::Active })
    ));
}

#[test]
fn release_rechecks_authenticity_and_conservation() {
    let mut e = CampaignEscrow {
        state: CampaignState::Active,
        brand_id: "brand".into(),
        creator_id: "c".into(),
        total_amount: 100,
        released_amount: 0,
        min_authenticity_threshold: 80,
        verified_authenticity_score: Some(79),
        deadline: 10,
        terms_cid: "t".into(),
        proof_certificate_cid: None,
        milestones: vec![fresh(def(1, 100, None, None))],
        created_at: 0,
    };
    ready(&mut e, 1);
    assert!(matches!(
        EscrowEngine::release_milestone_funds(&mut e, 1, 1),
        Err(EscrowError::AuthenticityBelowThreshold { score: 79, threshold: 80 })
    ));
    // no verified score on record: nothing may be released
    e.verified_authenticity_score = None;
    assert!(matches!(
        EscrowEngine::release_milestone_funds(&mut e, 1, 1),
        Err(EscrowError::AuthenticityBelowThreshold { score: 0, threshold: 80 })
    ));
    assert!(!e.milestones[0].funds_released);
    assert_eq!(e.released_amount, 0);
    e.verified_authenticity_score = Some(80);
    e.released_amount = 1;
    assert!(matches!(
        EscrowEngine::release_milestone_funds(&mut e, 1, 1),
        Err(EscrowError::InsufficientFunds { required: 100, available: 99 })
    ));
    assert!(!e.milestones[0].funds_released);
    e.released_amount = 0;
    assert_eq!(EscrowEngine::release_milestone_funds(&mut e, 1, 1).unwrap(), 100);
}

#[test]
fn payout_formula() {
    assert_eq!(payout_for(10_000, 50), 5_000);
    assert_eq!(payout_for(999, 33), 329);
    assert_eq!(payout_for(7, 0), 0);
    assert_eq!(payout_for(u64::MAX, 100), u64::MAX);
    assert_eq!(payout_for(u64::MAX, 255), u64::MAX);
    assert_eq!(payout_for(u64::MAX, 50), u64::MAX / 2);
}

#[test]
fn timeout_refund_rules() {
    let mut e = active(1000, vec![def(1, 40, None, None), def(2, 60, None, None)], 100);
    assert!(matches!(
        EscrowEngine::timeout_refund(&mut e, 100),
        Err(EscrowError::DeadlineExceeded { deadline: 100, current: 100 })
    ));
    ready(&mut e, 1);
    assert_eq!(EscrowEngine::release_milestone_funds(&mut e, 1, 100).unwrap(), 400);
    let refund = EscrowEngine::timeout_refund(&mut e, 101).unwrap();
    assert_eq!(refund, 600);
    assert_eq!(refund + e.released_amount, e.total_amount);
    assert_eq!(e.state, CampaignState::Refunded);
    assert!(matches!(
        EscrowEngine::timeout_refund(&mut e, 200),
        Err(EscrowError::InvalidStateTransition { from: CampaignState::Refunded, to: CampaignState::Refunded })
    ));
    let mut c = EscrowEngine::create_campaign(
        "b".into(), "c".into(), 1, 0, 0, "t".into(), vec![def(1, 100, None, None)],
    )
    .unwrap();
    assert!(matches!(
        EscrowEngine::timeout_refund(&mut c, 1),
        Err(EscrowError::InvalidStateTransition { from: CampaignState::Created, to: CampaignState::Refunded })
    ));
    EscrowEngine::fund_campaign(&mut c).unwrap();
    assert_eq!(EscrowEngine::timeout_refund(&mut c, 1).unwrap(), 1);
}

#[test]
fn terminal_states_stay() {
    let mut e = active(10, vec![def(1, 100, None, None)], 5);
    EscrowEngine::timeout_refund(&mut e, 6).unwrap();
    assert!(EscrowEngine::fund_campaign(&mut e).is_err());
    assert!(EscrowEngine::activate_campaign(&mut e, 100).is_err());
    assert!(EscrowEngine::settle_campaign(&mut e).is_err());
    assert!(EscrowEngine::release_milestone_funds(&mut e, 1, 1).is_err());
    assert_eq!(e.state, CampaignState::Refunded);
}

#[test]
fn releasable_predicate_details() {
    let mut e = active(100, vec![def(1, 50, None, Some(20)), def(2, 50, None, None)], 100);
    assert!(matches!(
        MilestoneVerifier::is_releasable(&e, 3, 1),
        Err(EscrowError::MilestoneNotVerified { milestone_id: 3 })
    ));
    ready(&mut e, 1);
    assert!(MilestoneVerifier::is_releasable(&e, 1, 20).unwrap());
    // the milestone's own deadline has passed
    assert!(!MilestoneVerifier::is_releasable(&e, 1, 21).unwrap());
    // the campaign deadline has passed
    assert!(!MilestoneVerifier::is_releasable(&e, 2, 101).unwrap());
    e.verified_authenticity_score = None;
    assert!(!MilestoneVerifier::is_releasable(&e, 1, 1).unwrap());
    e.state = CampaignState::Funded;
    assert!(!MilestoneVerifier::is_releasable(&e, 3, 1).unwrap());
}

#[test]
fn milestone_checks_and_summary() {
    let mut e = active(1000, vec![def(1, 25, Some(10), Some(5)), def(2, 75, None, None)], 100);
    assert!(MilestoneVerifier::check_engagement(&e.milestones[0], 10));
    assert!(!MilestoneVerifier::check_engagement(&e.milestones[0], 9));
    assert!(MilestoneVerifier::check_engagement(&e.milestones[1], 0));
    assert!(MilestoneVerifier::check_deadline(&e.milestones[0], 5));
    assert!(!MilestoneVerifier::check_deadline(&e.milestones[0], 6));
    assert!(MilestoneVerifier::check_deadline(&e.milestones[1], i64::MAX));
    ready(&mut e, 1);
    EscrowEngine::release_milestone_funds(&mut e, 1, 1).unwrap();
    let s = MilestoneVerifier::summary(&e);
    assert_eq!(s.len(), 2);
    assert_eq!(s[0].id, 1);
    assert_eq!(s[0].description, "milestone 1");
    assert_eq!(s[0].payout_amount, 250);
    assert!(s[0].oracle_verified && s[0].brand_approved && s[0].completed && s[0].funds_released);
    assert_eq!(s[1].payout_amount, 750);
    assert!(!s[1].oracle_verified && !s[1].completed && !s[1].funds_released);
}

#[test]
fn first_milestone_with_an_id_is_addressed() {
    let mut e = active(100, vec![def(1, 50, None, None), def(1, 50, None, None)], 100);
    ready(&mut e, 1);
    assert!(e.milestones[0].oracle_verified && e.milestones[0].brand_approved);
    assert!(!e.milestones[1].oracle_verified && !e.milestones[1].brand_approved);
    assert_eq!(EscrowEngine::release_milestone_funds(&mut e, 1, 1).unwrap(), 50);
    assert!(matches!(
        EscrowEngine::release_milestone_funds(&mut e, 1, 1),
        Err(EscrowError::DoubleSpend { milestone_id: 1 })
    ));
    assert_eq!(e.state, CampaignState::Active);
}

#[test]
fn uneven_shares_never_run_short() {
    let mut e = active(101, vec![def(1, 33, None, None), def(2, 33, None, None), def(3, 34, None, None)], 100);
    let mut paid = 0;
    for id in 1..=3u8 {
        ready(&mut e, id);
        paid += EscrowEngine::release_milestone_funds(&mut e, id, 1).unwrap();
        assert_eq!(e.released_amount, paid);
        assert!(e.released_amount <= e.total_amount);
    }
    // 33 + 33 + 34 = 100 of 101: rounding never overpays
    assert_eq!(paid, 100);
    assert_eq!(e.state, CampaignState::Completed);
}

#[test]
fn releasable_milestone_is_paid() {
    let mut e = active(500, vec![def(4, 20, Some(3), Some(50)), def(5, 80, None, None)], 100);
    EscrowEngine::verify_milestone(&mut e, 4, Some(3)).unwrap();
    EscrowEngine::approve_milestone(&mut e, 4, "brand").unwrap();
    assert!(MilestoneVerifier::is_releasable(&e, 4, 50).unwrap());
    assert_eq!(EscrowEngine::release_milestone_funds(&mut e, 4, 50).unwrap(), 100);
    assert!(!MilestoneVerifier::is_releasable(&e, 4, 50).unwrap());
}
