use judicial_core::{JudicialCore, SystemAction, Verdict};

fn action(action_type: &str, payload: &str, context: &str) -> SystemAction {
    SystemAction {
        action_type: action_type.into(),
        payload: payload.into(),
        context: context.into(),
    }
}

#[test]
fn test_query_with_plaintext_password_rejected() {
    let mut court = JudicialCore::new();
    match court.rule(action(
        "DATA_READ",
        "SELECT username, password FROM users",
        "standard",
    )) {
        Verdict::Rejected(reason) => assert!(reason.contains("password")),
        other => panic!("expected rejection, got {:?}", other),
    }
}

#[test]
fn test_query_with_protected_context_approved() {
    let mut court = JudicialCore::new();
    match court.rule(action(
        "DATA_READ",
        "SELECT username, encrypted_password FROM users",
        "audit_encrypted",
    )) {
        Verdict::Approved => (),
        other => panic!("expected approval, got {:?}", other),
    }
}

#[test]
fn test_destructive_command_rejected_with_suggestion() {
    let mut court = JudicialCore::new();
    match court.rule(action("SYSTEM_CMD", "rm -rf /data/critical", "admin")) {
        Verdict::RejectedWithSuggestion(reason, suggestion) => {
            assert_eq!(reason, "Destructive action 'rm -rf' without rollback");
            assert_eq!(
                suggestion,
                "Provide rollback mechanism or sandbox execution."
            );
        }
        other => panic!("expected rejection with suggestion, got {:?}", other),
    }
}

#[test]
fn test_destructive_command_with_backup_approved() {
    let mut court = JudicialCore::new();
    match court.rule(action("SYSTEM_CMD", "backup && rm -rf /data/temp", "admin")) {
        Verdict::Approved => (),
        other => panic!("expected approval, got {:?}", other),
    }
}

#[test]
fn test_two_approvals_one_rejection_scores_two_thirds() {
    let mut court = JudicialCore::new();
    court.rule(action("DATA_READ", "load report", "standard"));
    court.rule(action("SYSTEM_CMD", "rm -rf /tmp/x", "admin"));
    court.rule(action("DATA_READ", "load summary", "standard"));
    let (approved, total) = court.get_compliance_score();
    assert_eq!((approved, total), (2, 3));
    let score = approved as f64 / total as f64;
    assert!((score - 2.0 / 3.0).abs() < 1e-12);
}

#[test]
fn test_sensitive_marker_exact_reason() {
    let mut court = JudicialCore::new();
    match court.rule(action("DATA_WRITE", "store the api_key here", "standard")) {
        Verdict::Rejected(reason) => {
            assert_eq!(reason, "Sensitive data 'api_key' without proper protection")
        }
        other => panic!("expected rejection, got {:?}", other),
    }
}

#[test]
fn test_first_matching_sensitive_marker_reported() {
    let mut court = JudicialCore::new();
    // Both "secret" and "token" occur; "secret" comes first in the marker
    // order and supplies the reason.
    match court.rule(action("DATA_WRITE", "token and secret", "standard")) {
        Verdict::Rejected(reason) => {
            assert_eq!(reason, "Sensitive data 'secret' without proper protection")
        }
        other => panic!("expected rejection, got {:?}", other),
    }
}

#[test]
fn test_data_export_without_approval_rejected() {
    let mut court = JudicialCore::new();
    match court.rule(action("DATA_EXPORT", "quarterly records", "standard")) {
        Verdict::Rejected(reason) => {
            assert_eq!(reason, "Data export without compliance approval")
        }
        other => panic!("expected rejection, got {:?}", other),
    }
}

#[test]
fn test_data_export_with_approval_approved() {
    let mut court = JudicialCore::new();
    match court.rule(action(
        "DATA_EXPORT",
        "quarterly records",
        "compliance_approved audit",
    )) {
        Verdict::Approved => (),
        other => panic!("expected approval, got {:?}", other),
    }
}

#[test]
fn test_shutdown_without_emergency_rejected() {
    let mut court = JudicialCore::new();
    match court.rule(action("SYSTEM_SHUTDOWN", "halt all nodes", "routine")) {
        Verdict::RejectedWithSuggestion(reason, _) => {
            assert_eq!(reason, "Non-emergency system shutdown")
        }
        other => panic!("expected rejection with suggestion, got {:?}", other),
    }
}

#[test]
fn test_shutdown_under_emergency_approved() {
    let mut court = JudicialCore::new();
    match court.rule(action("SYSTEM_SHUTDOWN", "halt all nodes", "emergency")) {
        Verdict::Approved => (),
        other => panic!("expected approval, got {:?}", other),
    }
}

#[test]
fn test_law_1_precedes_law_2() {
    let mut court = JudicialCore::new();
    // The payload is both sensitive and destructive; the absolute tier wins
    // and the verdict carries no suggestion.
    match court.rule(action(
        "SYSTEM_CMD",
        "drop table users; password=x",
        "standard",
    )) {
        Verdict::Rejected(reason) => {
            assert_eq!(reason, "Sensitive data 'password' without proper protection")
        }
        other => panic!("expected outright rejection, got {:?}", other),
    }
}

#[test]
fn test_empty_fields_approved() {
    let mut court = JudicialCore::new();
    match court.rule(action("", "", "")) {
        Verdict::Approved => (),
        other => panic!("expected approval, got {:?}", other),
    }
}
