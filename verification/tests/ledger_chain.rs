use judicial_core::ledger::{compute_entry_hash, TamperProofLedger};
use judicial_core::{JudicialCore, SystemAction};

fn action(action_type: &str, payload: &str, context: &str) -> SystemAction {
    SystemAction {
        action_type: action_type.into(),
        payload: payload.into(),
        context: context.into(),
    }
}

#[test]
fn test_ledger_chain_links_and_rehashes() {
    let mut court = JudicialCore::new();
    court.rule(action("DATA_READ", "load report", "standard"));
    court.rule(action("DATA_WRITE", "save secret", "standard"));
    court.rule(action("DATA_READ", "load summary", "standard"));

    let entries = court.ledger().entries();
    assert_eq!(entries.len(), 3);
    assert!(entries[0].previous_hash.is_none());
    assert_eq!(entries[1].previous_hash.as_deref(), Some(entries[0].hash.as_str()));
    assert_eq!(entries[2].previous_hash.as_deref(), Some(entries[1].hash.as_str()));

    // Re-hashing each entry's recorded fields reproduces its stored hash.
    for e in entries {
        let recomputed =
            compute_entry_hash(&e.timestamp, &e.action, &e.verdict, &e.previous_hash);
        assert_eq!(recomputed, e.hash);
    }
}

#[test]
fn test_entry_hash_known_value() {
    // SHA-256 of "t0|TEST|safe payload|plain|APPROVED|", hex-encoded.
    let hash = compute_entry_hash(
        "t0",
        &action("TEST", "safe payload", "plain"),
        "APPROVED",
        &None,
    );
    assert_eq!(
        hash,
        "03418003f770b789a9626c1b49ec1ec9451a9f75bb291cad334e31eacea61387"
    );

    // A second entry chains the first hash into its preimage.
    let hash2 = compute_entry_hash(
        "t1",
        &action("TEST", "p", "c"),
        "REJECTED: why",
        &Some(hash),
    );
    assert_eq!(
        hash2,
        "7d32e068beb8a7401bc663302c124eb596a3fc245d5dd3a6bee29af7ba25a3e9"
    );
}

#[test]
fn test_entry_hash_depends_on_every_field() {
    let base = compute_entry_hash("t", &action("A", "p", "c"), "APPROVED", &None);
    let other_payload = compute_entry_hash("t", &action("A", "q", "c"), "APPROVED", &None);
    let other_verdict =
        compute_entry_hash("t", &action("A", "p", "c"), "REJECTED: r", &None);
    let other_prev = compute_entry_hash(
        "t",
        &action("A", "p", "c"),
        "APPROVED",
        &Some("00".to_string()),
    );
    assert_ne!(base, other_payload);
    assert_ne!(base, other_verdict);
    assert_ne!(base, other_prev);
    assert_eq!(base.len(), 64);
    assert!(base.chars().all(|c| c.is_ascii_hexdigit()));
}

#[test]
fn test_ledger_records_verdict_text() {
    let mut ledger = TamperProofLedger::new();
    ledger.record_approval(action("T", "ok", "plain"));
    ledger.record_violation(action("T", "bad", "plain"), "the reason".to_string());
    let entries = ledger.entries();
    assert_eq!(entries[0].verdict, "APPROVED");
    assert_eq!(entries[1].verdict, "REJECTED: the reason");
    let (approved, total) = ledger.calculate_compliance_score();
    assert_eq!((approved, total), (1, 2));
}

#[test]
fn test_empty_ledger_counts() {
    let ledger = TamperProofLedger::new();
    let (approved, total) = ledger.calculate_compliance_score();
    assert_eq!((approved, total), (0, 0));
    assert!(ledger.entries().is_empty());
}
