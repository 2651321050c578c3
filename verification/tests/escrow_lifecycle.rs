use aether_quantum_vault::escrow::EscrowEngine;
use aether_quantum_vault::types::{CampaignEscrow, CampaignState, EscrowError, MilestoneDefinition};

fn test_milestones() -> Vec<MilestoneDefinition> {
    vec![
        MilestoneDefinition {
            id: 1,
            description: "Post published".to_string(),
            payout_percentage: 50,
            engagement_target: Some(1000),
            deadline: None,
        },
        MilestoneDefinition {
            id: 2,
            description: "Engagement target met".to_string(),
            payout_percentage: 50,
            engagement_target: Some(5000),
            deadline: None,
        },
    ]
}

fn setup_active_campaign() -> CampaignEscrow {
    let mut escrow = EscrowEngine::create_campaign(
        "brand_001".to_string(),
        "creator_001".to_string(),
        10_000,
        70,
        i64::MAX,
        "QmTermsCID".to_string(),
        test_milestones(),
    )
    .unwrap();

    EscrowEngine::fund_campaign(&mut escrow).unwrap();
    EscrowEngine::activate_campaign(&mut escrow, 85).unwrap();
    escrow
}

#[test]
fn test_inv_01_no_premature_release() {
    let mut escrow = setup_active_campaign();

    let result = EscrowEngine::release_milestone_funds(&mut escrow, 1, 1000);
    assert!(
        matches!(result, Err(EscrowError::MilestoneNotVerified { .. })),
        "INV-01: Should not release without oracle verification"
    );

    EscrowEngine::verify_milestone(&mut escrow, 1, Some(1500)).unwrap();
    let result = EscrowEngine::release_milestone_funds(&mut escrow, 1, 1000);
    assert!(
        matches!(result, Err(EscrowError::MilestoneNotApproved { .. })),
        "INV-01: Should not release without brand approval"
    );
}

#[test]
fn test_inv_02_no_double_spend() {
    let mut escrow = setup_active_campaign();

    EscrowEngine::verify_milestone(&mut escrow, 1, Some(1500)).unwrap();
    EscrowEngine::approve_milestone(&mut escrow, 1, "brand_001").unwrap();
    EscrowEngine::release_milestone_funds(&mut escrow, 1, 1000).unwrap();

    let result = EscrowEngine::release_milestone_funds(&mut escrow, 1, 1001);
    assert!(
        matches!(result, Err(EscrowError::DoubleSpend { .. })),
        "INV-02: Should prevent double spend"
    );
}

#[test]
fn test_inv_03_total_conservation() {
    let mut escrow = setup_active_campaign();

    EscrowEngine::verify_milestone(&mut escrow, 1, Some(1500)).unwrap();
    EscrowEngine::approve_milestone(&mut escrow, 1, "brand_001").unwrap();
    let payout1 = EscrowEngine::release_milestone_funds(&mut escrow, 1, 1000).unwrap();

    EscrowEngine::verify_milestone(&mut escrow, 2, Some(6000)).unwrap();
    EscrowEngine::approve_milestone(&mut escrow, 2, "brand_001").unwrap();
    let payout2 = EscrowEngine::release_milestone_funds(&mut escrow, 2, 2000).unwrap();

    assert_eq!(
        payout1 + payout2,
        escrow.total_amount,
        "INV-03: Total conservation violated"
    );
    assert_eq!(escrow.released_amount, escrow.total_amount);
}

#[test]
fn test_inv_04_authenticity_enforcement() {
    let mut escrow = EscrowEngine::create_campaign(
        "brand".to_string(),
        "creator".to_string(),
        10_000,
        80,
        i64::MAX,
        "QmCID".to_string(),
        test_milestones(),
    )
    .unwrap();

    EscrowEngine::fund_campaign(&mut escrow).unwrap();

    let result = EscrowEngine::activate_campaign(&mut escrow, 60);
    assert!(
        matches!(
            result,
            Err(EscrowError::AuthenticityBelowThreshold {
                score: 60,
                threshold: 80
            })
        ),
        "INV-04: Should reject low authenticity score"
    );
}

#[test]
fn test_inv_05_timeout_refund() {
    let deadline = 1_000_000;
    let mut escrow = EscrowEngine::create_campaign(
        "brand".to_string(),
        "creator".to_string(),
        10_000,
        70,
        deadline,
        "QmCID".to_string(),
        test_milestones(),
    )
    .unwrap();

    EscrowEngine::fund_campaign(&mut escrow).unwrap();
    EscrowEngine::activate_campaign(&mut escrow, 85).unwrap();

    let refund = EscrowEngine::timeout_refund(&mut escrow, deadline + 1).unwrap();
    assert_eq!(refund, 10_000, "INV-05: Full refund on timeout");
    assert_eq!(escrow.state, CampaignState::Refunded);
}

#[test]
fn test_inv_06_unauthorized_approval() {
    let mut escrow = setup_active_campaign();

    let result = EscrowEngine::approve_milestone(&mut escrow, 1, "hacker_address");
    assert!(
        matches!(result, Err(EscrowError::Unauthorized(_))),
        "INV-06: Should reject unauthorized signer"
    );
}

#[test]
fn test_full_lifecycle() {
    let mut escrow = setup_active_campaign();

    EscrowEngine::verify_milestone(&mut escrow, 1, Some(2000)).unwrap();
    EscrowEngine::approve_milestone(&mut escrow, 1, "brand_001").unwrap();
    let p1 = EscrowEngine::release_milestone_funds(&mut escrow, 1, 1000).unwrap();
    assert_eq!(p1, 5000);

    EscrowEngine::verify_milestone(&mut escrow, 2, Some(6000)).unwrap();
    EscrowEngine::approve_milestone(&mut escrow, 2, "brand_001").unwrap();
    let p2 = EscrowEngine::release_milestone_funds(&mut escrow, 2, 2000).unwrap();
    assert_eq!(p2, 5000);

    assert_eq!(escrow.state, CampaignState::Completed);

    EscrowEngine::settle_campaign(&mut escrow).unwrap();
    assert_eq!(escrow.state, CampaignState::Settled);
}
