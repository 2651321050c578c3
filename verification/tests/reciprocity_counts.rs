use aether_quantum_vault::reciprocity::{Engagement, ReciprocalCounts};
use aether_quantum_vault::scoring::{check_event_sample, check_follower_sample, pods_detected};
use aether_quantum_vault::types::ScoringError;

fn ev(actor: &str, content: &str) -> Engagement {
    Engagement { actor_id: actor.to_string(), content_id: content.to_string() }
}

#[test]
fn pod_ring_is_found() {
    let pod = ["pod_a", "pod_b", "pod_c", "pod_d", "pod_e"];
    let mut events = Vec::new();
    for c in 0..10 {
        for a in pod.iter() {
            events.push(ev(a, &format!("post_{}", c)));
        }
    }
    let mut counts = ReciprocalCounts::new();
    counts.record_events(&events);
    for a in pod.iter() {
        assert_eq!(counts.strong_partner_count(a), 4);
    }
    assert_eq!(counts.strong_partner_count("stranger"), 0);
    assert_eq!(counts.ring_sizes(), vec![5]);
}

#[test]
fn organic_engagement_has_no_ring() {
    let events: Vec<Engagement> = (0..20)
        .map(|i| ev(&format!("user_{}", i), &format!("post_{}", i % 10)))
        .collect();
    let mut counts = ReciprocalCounts::new();
    counts.record_events(&events);
    for i in 0..20 {
        assert_eq!(counts.strong_partner_count(&format!("user_{}", i)), 0);
    }
    assert!(counts.ring_sizes().is_empty());
}

#[test]
fn co_engagement_counts_distinct_contents() {
    // a and b share post_1 (engaged twice by a) and post_2: only 2 shared contents
    let events = vec![
        ev("a", "post_1"),
        ev("a", "post_1"),
        ev("b", "post_1"),
        ev("a", "post_2"),
        ev("b", "post_2"),
        ev("b", "post_2"),
    ];
    let mut counts = ReciprocalCounts::new();
    counts.record_events(&events);
    assert_eq!(counts.strong_partner_count("a"), 0);
    // a third shared content makes the pair strong
    counts.record_events(&vec![ev("b", "post_3"), ev("a", "post_3")]);
    assert_eq!(counts.strong_partner_count("a"), 1);
    assert_eq!(counts.strong_partner_count("b"), 1);
    // one strong partner each is not a pod
    assert!(counts.ring_sizes().is_empty());
    counts.clear();
    assert_eq!(counts.strong_partner_count("a"), 0);
}

#[test]
fn ring_counts_members_with_three_strong_partners() {
    // hub h shares 3 contents with each of x, y, z; x, y, z share only via h's posts
    let mut events = Vec::new();
    for c in 0..3 {
        let post = format!("p{}", c);
        events.push(ev("h", &post));
        events.push(ev("x", &post));
        events.push(ev("y", &post));
        events.push(ev("z", &post));
    }
    let mut counts = ReciprocalCounts::new();
    counts.record_events(&events);
    // every actor shares all 3 posts with every other actor
    assert_eq!(counts.strong_partner_count("h"), 3);
    assert_eq!(counts.ring_sizes(), vec![4]);
}

#[test]
fn test_insufficient_data_error() {
    // a single follower is below the sample size of a bot analysis
    let result = check_follower_sample(1);
    assert!(matches!(result, Err(ScoringError::InsufficientData { .. })));
    assert!(matches!(result, Err(ScoringError::InsufficientData { required: 10, provided: 1 })));
    assert!(check_follower_sample(9).is_err());
    assert!(check_follower_sample(10).is_ok());
}

#[test]
fn test_empty_events_error() {
    let result = check_event_sample(0);
    assert!(matches!(result, Err(ScoringError::InsufficientData { .. })));
    assert!(matches!(result, Err(ScoringError::InsufficientData { required: 1, provided: 0 })));
    assert!(check_event_sample(1).is_ok());
}

#[test]
fn pod_count_rule() {
    assert_eq!(pods_detected(0), 0);
    assert_eq!(pods_detected(1), 0);
    assert_eq!(pods_detected(2), 2);
    assert_eq!(pods_detected(7), 7);
}
