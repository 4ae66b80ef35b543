use judicial_core::conflict_resolution::{ConflictResolution, ConflictResolver};
use judicial_core::priorities::{PriorityLevel, PriorityRegistry};
use judicial_core::SystemAction;

fn action(action_type: &str, payload: &str, context: &str) -> SystemAction {
    SystemAction {
        action_type: action_type.into(),
        payload: payload.into(),
        context: context.into(),
    }
}

#[test]
fn test_single_violation_is_denied_without_history() {
    let mut resolver = ConflictResolver::new();
    let registry = PriorityRegistry::new();
    let r = resolver.resolve_conflicts(&action("T", "p", "c"), vec![101], &registry);
    assert_eq!(r, ConflictResolution::Deny);
    // No conflict exists, so nothing is recorded.
    assert!(resolver.resolution_history.is_empty());
    let stats = resolver.get_conflict_stats();
    assert_eq!(stats.total_conflicts, 0);
    assert_eq!(stats.auto_resolved, 0);
}

#[test]
fn test_security_vs_performance_defers_to_highest() {
    let mut resolver = ConflictResolver::new();
    let registry = PriorityRegistry::new();
    // 101 is a security law, 103 a performance law; 101 scores higher.
    let r = resolver.resolve_conflicts(&action("T", "p", "c"), vec![103, 101], &registry);
    assert_eq!(r, ConflictResolution::DeferTo(101));
    assert_eq!(resolver.resolution_history.len(), 1);
    assert_eq!(resolver.resolution_history[0].conflicting_laws, vec![103, 101]);
}

#[test]
fn test_emergency_context_defers_to_emergency_law() {
    let mut resolver = ConflictResolver::new();
    let mut registry = PriorityRegistry::new();
    // Demote the emergency law so the general highest-priority computation
    // would pick 109 instead; the emergency pattern must still defer to 110.
    assert!(registry.update_priority(110, PriorityLevel::Advisory, 10));
    let r = resolver.resolve_conflicts(
        &action("SYSTEM_SHUTDOWN", "halt", "emergency override"),
        vec![109, 110],
        &registry,
    );
    assert_eq!(r, ConflictResolution::DeferTo(110));
}

#[test]
fn test_data_safety_vs_system_ops_defers_to_highest() {
    let mut resolver = ConflictResolver::new();
    let registry = PriorityRegistry::new();
    // 109 is data protection, 102 system operations; no emergency context.
    let r = resolver.resolve_conflicts(&action("T", "p", "routine"), vec![102, 109], &registry);
    assert_eq!(r, ConflictResolution::DeferTo(109));
}

#[test]
fn test_default_pattern_defers_to_highest() {
    let mut resolver = ConflictResolver::new();
    let registry = PriorityRegistry::new();
    // 106 and 108 belong to none of the recognized subsets.
    let r = resolver.resolve_conflicts(&action("T", "p", "routine"), vec![106, 108], &registry);
    assert_eq!(r, ConflictResolution::DeferTo(108));
}

#[test]
fn test_empty_violated_set_escalates() {
    let mut resolver = ConflictResolver::new();
    let registry = PriorityRegistry::new();
    let r = resolver.resolve_conflicts(&action("T", "p", "c"), vec![], &registry);
    assert_eq!(r, ConflictResolution::HumanReview);
    let stats = resolver.get_conflict_stats();
    assert_eq!(stats.total_conflicts, 1);
    assert_eq!(stats.auto_resolved, 0);
}

#[test]
fn test_conflict_stats_count_auto_resolutions() {
    let mut resolver = ConflictResolver::new();
    let registry = PriorityRegistry::new();
    resolver.resolve_conflicts(&action("T", "p", "c"), vec![103, 101], &registry);
    resolver.resolve_conflicts(&action("T", "p", "c"), vec![106, 108], &registry);
    resolver.resolve_conflicts(&action("T", "p", "c"), vec![], &registry);
    let stats = resolver.get_conflict_stats();
    assert_eq!(stats.total_conflicts, 3);
    assert_eq!(stats.auto_resolved, 2);
    let rate = stats.auto_resolved as f64 / stats.total_conflicts as f64;
    assert!((rate - 2.0 / 3.0).abs() < 1e-12);
}

#[test]
fn test_history_is_append_only() {
    let mut resolver = ConflictResolver::new();
    let registry = PriorityRegistry::new();
    resolver.resolve_conflicts(&action("A", "p", "c"), vec![103, 101], &registry);
    let first_laws = resolver.resolution_history[0].conflicting_laws.clone();
    resolver.resolve_conflicts(&action("B", "q", "d"), vec![106, 108], &registry);
    assert_eq!(resolver.resolution_history.len(), 2);
    assert_eq!(resolver.resolution_history[0].conflicting_laws, first_laws);
    assert_eq!(resolver.resolution_history[0].action.action_type, "A");
    assert_eq!(resolver.resolution_history[1].action.action_type, "B");
}
