use aether_quantum_vault::messages::push_decimal;
use aether_quantum_vault::types::{CampaignState, EscrowError, ScoringError};

#[test]
fn escrow_error_messages() {
    let cases = vec![
        (
            EscrowError::InvalidStateTransition { from: CampaignState::Created, to: CampaignState::Refunded },
            "Cannot transition from Created to Refunded",
        ),
        (EscrowError::InsufficientFunds { required: 100, available: 99 }, "Need 100 lamports, have 99"),
        (
            EscrowError::AuthenticityBelowThreshold { score: 0, threshold: 80 },
            "Auth score 0 below threshold 80",
        ),
        (EscrowError::MilestoneNotVerified { milestone_id: 7 }, "Milestone 7 not verified by oracle"),
        (EscrowError::MilestoneNotApproved { milestone_id: 255 }, "Milestone 255 not approved by brand"),
        (
            EscrowError::MilestoneAlreadyCompleted { milestone_id: 1 },
            "Milestone 1 already completed (INV-02: no double spend)",
        ),
        (
            EscrowError::DeadlineExceeded { deadline: -5, current: 1_000_000 },
            "Deadline -5 passed, current time 1000000",
        ),
        (
            EscrowError::DeadlineExceeded { deadline: i64::MIN, current: i64::MAX },
            "Deadline -9223372036854775808 passed, current time 9223372036854775807",
        ),
        (EscrowError::Unauthorized("nope".to_string()), "Unauthorized: nope"),
        (
            EscrowError::DoubleSpend { milestone_id: 2 },
            "INVARIANT VIOLATION INV-02: double spend on milestone 2",
        ),
    ];
    for (e, expected) in cases {
        assert_eq!(e.to_string(), expected);
    }
}

#[test]
fn scoring_error_messages() {
    assert_eq!(
        ScoringError::InsufficientData { required: 10, provided: 1 }.to_string(),
        "Need 10 data points, got 1"
    );
    assert_eq!(ScoringError::InvalidFeatureVector("nan".into()).to_string(), "Invalid features: nan");
    assert_eq!(
        ScoringError::GraphCapacityExceeded { max_points: 256 }.to_string(),
        "Graph capacity 256 exceeded"
    );
    assert_eq!(ScoringError::ComputationFailed("x".into()).to_string(), "Computation failed: x");
}

#[test]
fn decimal_rendering() {
    let mut s = String::from("n=");
    push_decimal(&mut s, 0);
    assert_eq!(s, "n=0");
    let mut s = String::new();
    push_decimal(&mut s, u64::MAX);
    assert_eq!(s, "18446744073709551615");
    let mut s = String::new();
    push_decimal(&mut s, 1090);
    assert_eq!(s, "1090");
}
