use std::cmp::Ordering;

use judicial_core::priorities::{LawCategory, LawPriority, PriorityLevel, PriorityRegistry};

// Scores are fixed-point: tier weight x category multiplier (hundredths)
// x fine weight (hundredths), i.e. ten thousand times the fractional score.

#[test]
fn test_seeded_scores_exact() {
    let registry = PriorityRegistry::new();
    // Law 101: Critical (100) x DataGovernance (1.10) x 0.95
    assert_eq!(registry.get_priority_score(101), 1_045_000);
    // Law 103: Medium (60) x ResourceManagement (0.80) x 0.70
    assert_eq!(registry.get_priority_score(103), 336_000);
    // Law 110: Critical (100) x EmergencyProtocols (1.50) x 0.99
    assert_eq!(registry.get_priority_score(110), 1_485_000);
}

#[test]
fn test_unknown_law_falls_back_to_medium() {
    let registry = PriorityRegistry::new();
    // Medium base weight with no multiplier and full fine weight.
    assert_eq!(registry.get_priority_score(999), 600_000);
}

#[test]
fn test_compare_priorities_orders_by_score() {
    let registry = PriorityRegistry::new();
    assert_eq!(registry.compare_priorities(103, 101), Ordering::Less);
    assert_eq!(registry.compare_priorities(110, 104), Ordering::Greater);
    // Two unknown ids fall back to the same score.
    assert_eq!(registry.compare_priorities(998, 999), Ordering::Equal);
}

#[test]
fn test_highest_priority_law() {
    let registry = PriorityRegistry::new();
    assert_eq!(registry.get_highest_priority_law(&[103, 101, 110]), Some(110));
    assert_eq!(registry.get_highest_priority_law(&[]), None);
}

#[test]
fn test_highest_priority_is_order_independent() {
    let registry = PriorityRegistry::new();
    let a = registry.get_highest_priority_law(&[101, 104, 109, 102]);
    let b = registry.get_highest_priority_law(&[102, 109, 104, 101]);
    assert_eq!(a, b);
    assert_eq!(a, Some(109));

    // Ties between unknown ids break toward the larger id, in any order.
    assert_eq!(registry.get_highest_priority_law(&[201, 202]), Some(202));
    assert_eq!(registry.get_highest_priority_law(&[202, 201]), Some(202));
}

#[test]
fn test_update_priority_replaces_and_clamps() {
    let mut registry = PriorityRegistry::new();
    // A fine weight beyond the valid fraction is clamped to 1.00.
    assert!(registry.update_priority(101, PriorityLevel::Critical, 500));
    // Critical (100) x DataGovernance (1.10) x 1.00
    assert_eq!(registry.get_priority_score(101), 1_100_000);

    assert!(registry.update_priority(103, PriorityLevel::Low, 50));
    // Low (40) x ResourceManagement (0.80) x 0.50
    assert_eq!(registry.get_priority_score(103), 160_000);

    // An unknown law id updates nothing.
    assert!(!registry.update_priority(999, PriorityLevel::High, 80));
    assert_eq!(registry.get_priority_score(999), 600_000);
}

#[test]
fn test_add_custom_priority() {
    let mut registry = PriorityRegistry::new();
    registry.add_custom_priority(LawPriority {
        law_number: 200,
        priority: PriorityLevel::High,
        category: LawCategory::SecurityProtocols,
        weight: 50,
    });
    // High (80) x SecurityProtocols (1.20) x 0.50
    assert_eq!(registry.get_priority_score(200), 480_000);

    // Inserting the same id again replaces the prior record.
    registry.add_custom_priority(LawPriority {
        law_number: 200,
        priority: PriorityLevel::Advisory,
        category: LawCategory::UserInteraction,
        weight: 100,
    });
    // Advisory (20) x UserInteraction (0.80) x 1.00
    assert_eq!(registry.get_priority_score(200), 160_000);

    // Other records are untouched.
    assert_eq!(registry.get_priority_score(101), 1_045_000);
}

#[test]
fn test_priority_level_base_weights() {
    assert_eq!(PriorityLevel::Critical.base_weight(), 100);
    assert_eq!(PriorityLevel::High.base_weight(), 80);
    assert_eq!(PriorityLevel::Medium.base_weight(), 60);
    assert_eq!(PriorityLevel::Low.base_weight(), 40);
    assert_eq!(PriorityLevel::Advisory.base_weight(), 20);
}

#[test]
fn test_category_descriptions() {
    assert_eq!(
        LawCategory::DataGovernance.description(),
        "Governs data handling, privacy, and sovereignty"
    );
    assert_eq!(
        LawCategory::EmergencyProtocols.description(),
        "Crisis response and emergency procedures"
    );
    assert_eq!(
        LawCategory::ResourceManagement.description(),
        "CPU, memory, storage allocation and limits"
    );
}
