use aether_quantum_vault::escrow::EscrowEngine;
use aether_quantum_vault::milestone::MilestoneVerifier;
use aether_quantum_vault::types::MilestoneDefinition;

#[test]
fn test_releasable_check() {
    let milestones = vec![MilestoneDefinition {
        id: 1,
        description: "Post".to_string(),
        payout_percentage: 100,
        engagement_target: Some(1000),
        deadline: None,
    }];

    let mut escrow = EscrowEngine::create_campaign(
        "brand".into(),
        "creator".into(),
        10_000,
        70,
        i64::MAX,
        "QmCID".into(),
        milestones,
    )
    .unwrap();

    EscrowEngine::fund_campaign(&mut escrow).unwrap();
    EscrowEngine::activate_campaign(&mut escrow, 80).unwrap();

    assert!(!MilestoneVerifier::is_releasable(&escrow, 1, 1000).unwrap());

    EscrowEngine::verify_milestone(&mut escrow, 1, Some(1500)).unwrap();
    assert!(!MilestoneVerifier::is_releasable(&escrow, 1, 1000).unwrap());

    EscrowEngine::approve_milestone(&mut escrow, 1, "brand").unwrap();
    assert!(MilestoneVerifier::is_releasable(&escrow, 1, 1000).unwrap());
}
