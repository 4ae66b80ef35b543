//! The two master law evaluators. Law 1 (safety and sovereignty, absolute)
//! rejects payloads that carry sensitive-data markers without a protective
//! context and data exports without compliance approval. Law 2 (improvement
//! and integrity, strict) rejects destructive payloads without a backup or
//! rollback marker and non-emergency shutdowns. Matching is case-sensitive
//! literal substring containment; the first matching rule, in the fixed
//! order below, supplies the reported description.

use vstd::prelude::*;

use crate::text::{contains_seq, contains_substr, lemma_contains_middle, str_eq};
use crate::verdicts::{ActionView, SystemAction};

verus! {

/// The view of an optional description.
pub open spec fn opt_str_view(o: Option<String>) -> Option<Seq<char>> {
    match o {
        Some(s) => Some(s@),
        None => None,
    }
}

/// `m` is one of the fixed sensitive-data markers of law 1.
pub open spec fn is_sensitive_marker(m: Seq<char>) -> bool {
    ||| m == "password"@
    ||| m == "ssn"@
    ||| m == "credit_card"@
    ||| m == "private_key"@
    ||| m == "secret"@
    ||| m == "token"@
    ||| m == "api_key"@
}

/// `m` is one of the fixed destructive-operation markers of law 2.
pub open spec fn is_destructive_marker(m: Seq<char>) -> bool {
    ||| m == "drop table"@
    ||| m == "rm -rf"@
    ||| m == "delete from"@
    ||| m == "truncate"@
    ||| m == "format"@
    ||| m == "wipe"@
    ||| m == "erase"@
}

/// The context marks the data as encrypted or audited, which exempts the
/// payload from the sensitive-data rule.
pub open spec fn context_protects_sensitive_data(context: Seq<char>) -> bool {
    contains_seq(context, "encrypted"@) || contains_seq(context, "audit"@)
}

/// The payload announces a backup or rollback path, which exempts it from
/// the destructive-operation rule.
pub open spec fn payload_has_rollback_marker(payload: Seq<char>) -> bool {
    contains_seq(payload, "backup"@) || contains_seq(payload, "rollback"@)
}

/// The description reported when sensitive marker `m` is found unprotected.
pub open spec fn sensitive_data_message(m: Seq<char>) -> Seq<char> {
    "Sensitive data '"@ + m + "' without proper protection"@
}

/// The description reported when destructive marker `m` is found without a
/// rollback marker.
pub open spec fn destructive_action_message(m: Seq<char>) -> Seq<char> {
    "Destructive action '"@ + m + "' without rollback"@
}

/// What law 1 reports of an action: the description of the first matching
/// rule, or nothing when no rule matches.
pub open spec fn spec_check_law_1(a: ActionView) -> Option<Seq<char>> {
    let unprotected = !context_protects_sensitive_data(a.context);
    if unprotected && contains_seq(a.payload, "password"@) {
        Some(sensitive_data_message("password"@))
    } else if unprotected && contains_seq(a.payload, "ssn"@) {
        Some(sensitive_data_message("ssn"@))
    } else if unprotected && contains_seq(a.payload, "credit_card"@) {
        Some(sensitive_data_message("credit_card"@))
    } else if unprotected && contains_seq(a.payload, "private_key"@) {
        Some(sensitive_data_message("private_key"@))
    } else if unprotected && contains_seq(a.payload, "secret"@) {
        Some(sensitive_data_message("secret"@))
    } else if unprotected && contains_seq(a.payload, "token"@) {
        Some(sensitive_data_message("token"@))
    } else if unprotected && contains_seq(a.payload, "api_key"@) {
        Some(sensitive_data_message("api_key"@))
    } else if a.action_type == "DATA_EXPORT"@ && !contains_seq(a.context, "compliance_approved"@) {
        Some("Data export without compliance approval"@)
    } else {
        None
    }
}

/// What law 2 reports of an action: the description of the first matching
/// rule, or nothing when no rule matches.
pub open spec fn spec_check_law_2(a: ActionView) -> Option<Seq<char>> {
    let no_rollback = !payload_has_rollback_marker(a.payload);
    if no_rollback && contains_seq(a.payload, "drop table"@) {
        Some(destructive_action_message("drop table"@))
    } else if no_rollback && contains_seq(a.payload, "rm -rf"@) {
        Some(destructive_action_message("rm -rf"@))
    } else if no_rollback && contains_seq(a.payload, "delete from"@) {
        Some(destructive_action_message("delete from"@))
    } else if no_rollback && contains_seq(a.payload, "truncate"@) {
        Some(destructive_action_message("truncate"@))
    } else if no_rollback && contains_seq(a.payload, "format"@) {
        Some(destructive_action_message("format"@))
    } else if no_rollback && contains_seq(a.payload, "wipe"@) {
        Some(destructive_action_message("wipe"@))
    } else if no_rollback && contains_seq(a.payload, "erase"@) {
        Some(destructive_action_message("erase"@))
    } else if a.action_type == "SYSTEM_SHUTDOWN"@ && !contains_seq(a.context, "emergency"@) {
        Some("Non-emergency system shutdown"@)
    } else {
        None
    }
}

/// The pair of master laws. Both evaluators are pure: they read the action
/// and report the first violated rule's description, if any.
#[derive(Debug, Clone)]
pub struct MasterPair;

fn sensitive_message(marker: &str) -> (r: String)
    ensures
        r@ == sensitive_data_message(marker@),
{
    let mut s = String::from_str("Sensitive data '");
    s.append(marker);
    s.append("' without proper protection");
    s
}

fn destructive_message(marker: &str) -> (r: String)
    ensures
        r@ == destructive_action_message(marker@),
{
    let mut s = String::from_str("Destructive action '");
    s.append(marker);
    s.append("' without rollback");
    s
}

impl MasterPair {
    /// Law 1: never compromise user safety or data sovereignty.
    pub fn check_law_1(&self, action: &SystemAction) -> (r: Option<String>)
        ensures
            opt_str_view(r) == spec_check_law_1(action@),
    {
        let protected = contains_substr(&action.context, "encrypted") || contains_substr(
            &action.context,
            "audit",
        );
        if !protected {
            if contains_substr(&action.payload, "password") {
                return Some(sensitive_message("password"));
            }
            if contains_substr(&action.payload, "ssn") {
                return Some(sensitive_message("ssn"));
            }
            if contains_substr(&action.payload, "credit_card") {
                return Some(sensitive_message("credit_card"));
            }
            if contains_substr(&action.payload, "private_key") {
                return Some(sensitive_message("private_key"));
            }
            if contains_substr(&action.payload, "secret") {
                return Some(sensitive_message("secret"));
            }
            if contains_substr(&action.payload, "token") {
                return Some(sensitive_message("token"));
            }
            if contains_substr(&action.payload, "api_key") {
                return Some(sensitive_message("api_key"));
            }
        }
        if str_eq(action.action_type.as_str(), "DATA_EXPORT") && !contains_substr(
            &action.context,
            "compliance_approved",
        ) {
            return Some(String::from_str("Data export without compliance approval"));
        }
        None
    }

    /// Law 2: continuously improve while maintaining integrity.
    pub fn check_law_2(&self, action: &SystemAction) -> (r: Option<String>)
        ensures
            opt_str_view(r) == spec_check_law_2(action@),
    {
        let has_rollback = contains_substr(&action.payload, "backup") || contains_substr(
            &action.payload,
            "rollback",
        );
        if !has_rollback {
            if contains_substr(&action.payload, "drop table") {
                return Some(destructive_message("drop table"));
            }
            if contains_substr(&action.payload, "rm -rf") {
                return Some(destructive_message("rm -rf"));
            }
            if contains_substr(&action.payload, "delete from") {
                return Some(destructive_message("delete from"));
            }
            if contains_substr(&action.payload, "truncate") {
                return Some(destructive_message("truncate"));
            }
            if contains_substr(&action.payload, "format") {
                return Some(destructive_message("format"));
            }
            if contains_substr(&action.payload, "wipe") {
                return Some(destructive_message("wipe"));
            }
            if contains_substr(&action.payload, "erase") {
                return Some(destructive_message("erase"));
            }
        }
        if str_eq(action.action_type.as_str(), "SYSTEM_SHUTDOWN") && !contains_substr(
            &action.context,
            "emergency",
        ) {
            return Some(String::from_str("Non-emergency system shutdown"));
        }
        None
    }
}

impl Default for MasterPair {
    fn default() -> (r: Self)
        ensures
            r == (MasterPair),
    {
        MasterPair
    }
}

/// Law: an action whose payload contains a sensitive-data marker and whose
/// context carries neither protective marker is reported by law 1, and the
/// reported description mentions a sensitive marker that the payload
/// contains.
pub proof fn lemma_sensitive_data_reported(a: ActionView, m: Seq<char>) -> (w: Seq<char>)
    requires
        is_sensitive_marker(m),
        contains_seq(a.payload, m),
        !context_protects_sensitive_data(a.context),
    ensures
        spec_check_law_1(a) is Some,
        is_sensitive_marker(w),
        contains_seq(a.payload, w),
        contains_seq(spec_check_law_1(a)->Some_0, w),
{
    lemma_contains_middle("Sensitive data '"@, "password"@, "' without proper protection"@);
    lemma_contains_middle("Sensitive data '"@, "ssn"@, "' without proper protection"@);
    lemma_contains_middle("Sensitive data '"@, "credit_card"@, "' without proper protection"@);
    lemma_contains_middle("Sensitive data '"@, "private_key"@, "' without proper protection"@);
    lemma_contains_middle("Sensitive data '"@, "secret"@, "' without proper protection"@);
    lemma_contains_middle("Sensitive data '"@, "token"@, "' without proper protection"@);
    lemma_contains_middle("Sensitive data '"@, "api_key"@, "' without proper protection"@);
    if contains_seq(a.payload, "password"@) {
        "password"@
    } else if contains_seq(a.payload, "ssn"@) {
        "ssn"@
    } else if contains_seq(a.payload, "credit_card"@) {
        "credit_card"@
    } else if contains_seq(a.payload, "private_key"@) {
        "private_key"@
    } else if contains_seq(a.payload, "secret"@) {
        "secret"@
    } else if contains_seq(a.payload, "token"@) {
        "token"@
    } else {
        "api_key"@
    }
}

/// Law: an action of type "DATA_EXPORT" whose context lacks the
/// compliance-approval marker is reported by law 1.
pub proof fn lemma_unapproved_export_reported(a: ActionView)
    requires
        a.action_type == "DATA_EXPORT"@,
        !contains_seq(a.context, "compliance_approved"@),
    ensures
        spec_check_law_1(a) is Some,
{
}

/// Law: an action whose payload contains a destructive marker and no backup
/// or rollback marker is reported by law 2, and the reported description
/// mentions a destructive marker that the payload contains.
pub proof fn lemma_destructive_action_reported(a: ActionView, m: Seq<char>) -> (w: Seq<char>)
    requires
        is_destructive_marker(m),
        contains_seq(a.payload, m),
        !payload_has_rollback_marker(a.payload),
    ensures
        spec_check_law_2(a) is Some,
        is_destructive_marker(w),
        contains_seq(a.payload, w),
        contains_seq(spec_check_law_2(a)->Some_0, w),
{
    lemma_contains_middle("Destructive action '"@, "drop table"@, "' without rollback"@);
    lemma_contains_middle("Destructive action '"@, "rm -rf"@, "' without rollback"@);
    lemma_contains_middle("Destructive action '"@, "delete from"@, "' without rollback"@);
    lemma_contains_middle("Destructive action '"@, "truncate"@, "' without rollback"@);
    lemma_contains_middle("Destructive action '"@, "format"@, "' without rollback"@);
    lemma_contains_middle("Destructive action '"@, "wipe"@, "' without rollback"@);
    lemma_contains_middle("Destructive action '"@, "erase"@, "' without rollback"@);
    if contains_seq(a.payload, "drop table"@) {
        "drop table"@
    } else if contains_seq(a.payload, "rm -rf"@) {
        "rm -rf"@
    } else if contains_seq(a.payload, "delete from"@) {
        "delete from"@
    } else if contains_seq(a.payload, "truncate"@) {
        "truncate"@
    } else if contains_seq(a.payload, "format"@) {
        "format"@
    } else if contains_seq(a.payload, "wipe"@) {
        "wipe"@
    } else {
        "erase"@
    }
}

} // verus!
