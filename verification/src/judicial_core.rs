//! The decision core: one verdict per submitted action. Law 1 is checked
//! first and is absolute: its violations are rejected outright and bypass
//! everything else. Law 2 is strict: its violations are rejected with a
//! fixed remediation suggestion. An action violating neither is approved.
//! Every decision, whatever its outcome, appends exactly one entry to the
//! owned hash-chained ledger.

use vstd::prelude::*;

use crate::ledger::{
    ledger_wf, spec_approved_count, LedgerEntryView, TamperProofLedger,
};
use crate::master_pair::{
    context_protects_sensitive_data, is_destructive_marker, is_sensitive_marker,
    lemma_destructive_action_reported, lemma_sensitive_data_reported,
    lemma_unapproved_export_reported, payload_has_rollback_marker, spec_check_law_1,
    spec_check_law_2, MasterPair,
};
use crate::text::{contains_seq, matches_at};
use crate::verdicts::{ActionView, SystemAction, Verdict, VerdictView};

verus! {

/// The fixed remediation suggestion attached to every strict-tier
/// rejection.
pub open spec fn spec_suggestion() -> Seq<char> {
    "Provide rollback mechanism or sandbox execution."@
}

/// The verdict the core owes an action: the first law 1 violation is an
/// outright rejection; else the first law 2 violation is a rejection with
/// the fixed suggestion; else approval.
pub open spec fn spec_rule_verdict(a: ActionView) -> VerdictView {
    match spec_check_law_1(a) {
        Some(reason) => VerdictView::Rejected(reason),
        None => match spec_check_law_2(a) {
            Some(reason) => VerdictView::RejectedWithSuggestion(reason, spec_suggestion()),
            None => VerdictView::Approved,
        },
    }
}

/// The verdict text the ledger records for an action: "REJECTED: " and the
/// reason for either rejection, "APPROVED" otherwise.
pub open spec fn spec_verdict_text(a: ActionView) -> Seq<char> {
    match spec_check_law_1(a) {
        Some(reason) => "REJECTED: "@ + reason,
        None => match spec_check_law_2(a) {
            Some(reason) => "REJECTED: "@ + reason,
            None => "APPROVED"@,
        },
    }
}

/// The decision core: the pair of master laws and the ledger it owns for
/// its lifetime. The ledger is the only state that outlives a call.
#[derive(Debug)]
pub struct JudicialCore {
    master_pair: MasterPair,
    ledger: TamperProofLedger,
}

impl View for JudicialCore {
    type V = Seq<LedgerEntryView>;

    closed spec fn view(&self) -> Seq<LedgerEntryView> {
        self.ledger@
    }
}

impl JudicialCore {
    /// The core invariant: the owned ledger is a well-formed hash chain.
    pub open spec fn wf(&self) -> bool {
        ledger_wf(self@)
    }

    /// A fresh core with an empty ledger.
    pub fn new() -> (r: JudicialCore)
        ensures
            r@ =~= Seq::<LedgerEntryView>::empty(),
            r.wf(),
    {
        JudicialCore { master_pair: MasterPair, ledger: TamperProofLedger::new() }
    }

    /// Renders the verdict over one action and records it: exactly one
    /// entry is appended to the ledger, holding the action and the
    /// rendered verdict's text, and no prior entry changes.
    pub fn rule(&mut self, action: SystemAction) -> (v: Verdict)
        requires
            old(self).wf(),
        ensures
            final(self).wf(),
            v@ == spec_rule_verdict(action@),
            final(self)@.len() == old(self)@.len() + 1,
            final(self)@.take(old(self)@.len() as int) == old(self)@,
            final(self)@.last().action == action@,
            final(self)@.last().verdict == spec_verdict_text(action@),
    {
        if let Some(violation) = self.master_pair.check_law_1(&action) {
            let reason = violation.clone();
            self.ledger.record_violation(action, violation);
            return Verdict::Rejected(reason);
        }
        if let Some(violation) = self.master_pair.check_law_2(&action) {
            let reason = violation.clone();
            self.ledger.record_violation(action, violation);
            return Verdict::RejectedWithSuggestion(
                reason,
                String::from_str("Provide rollback mechanism or sandbox execution."),
            );
        }
        self.ledger.record_approval(action);
        Verdict::Approved
    }

    /// The compliance counts over the whole history: how many recorded
    /// verdicts start with "APPROVED", and the total number of decisions.
    /// The compliance score is their quotient, taken as full (1) for an
    /// empty ledger.
    pub fn get_compliance_score(&self) -> (r: (usize, usize))
        ensures
            r.0 == spec_approved_count(self@),
            r.1 == self@.len(),
            r.0 <= r.1,
    {
        self.ledger.calculate_compliance_score()
    }

    /// The owned ledger, for audit and export.
    pub fn ledger(&self) -> (r: &TamperProofLedger)
        ensures
            r@ == self@,
    {
        &self.ledger
    }
}

impl Default for JudicialCore {
    fn default() -> (r: JudicialCore)
        ensures
            r@ =~= Seq::<LedgerEntryView>::empty(),
            r.wf(),
    {
        JudicialCore::new()
    }
}

/// Law: an action whose payload contains a sensitive-data marker and whose
/// context carries neither protective marker is rejected outright, and the
/// rejection reason mentions a sensitive marker that the payload contains.
pub proof fn lemma_rule_rejects_sensitive_data(a: ActionView, m: Seq<char>) -> (w: Seq<char>)
    requires
        is_sensitive_marker(m),
        contains_seq(a.payload, m),
        !context_protects_sensitive_data(a.context),
    ensures
        spec_rule_verdict(a) is Rejected,
        is_sensitive_marker(w),
        contains_seq(a.payload, w),
        contains_seq(spec_rule_verdict(a)->Rejected_0, w),
{
    lemma_sensitive_data_reported(a, m)
}

/// Law: an action of type "DATA_EXPORT" whose context lacks the
/// compliance-approval marker is rejected outright.
pub proof fn lemma_rule_rejects_unapproved_export(a: ActionView)
    requires
        a.action_type == "DATA_EXPORT"@,
        !contains_seq(a.context, "compliance_approved"@),
    ensures
        spec_rule_verdict(a) is Rejected,
{
    lemma_unapproved_export_reported(a);
}

/// Law: an action that law 1 lets pass, whose payload contains a
/// destructive marker and no backup or rollback marker, is rejected with
/// the fixed suggestion, the reason mentions a destructive marker that the
/// payload contains, and the suggestion mentions a rollback mechanism. (An
/// unprotected sensitive payload is rejected outright by law 1 first, so
/// those inputs are excluded here.)
pub proof fn lemma_rule_rejects_destructive_action(a: ActionView, m: Seq<char>) -> (w: Seq<char>)
    requires
        spec_check_law_1(a) is None,
        is_destructive_marker(m),
        contains_seq(a.payload, m),
        !payload_has_rollback_marker(a.payload),
    ensures
        spec_rule_verdict(a) is RejectedWithSuggestion,
        is_destructive_marker(w),
        contains_seq(a.payload, w),
        contains_seq(spec_rule_verdict(a)->RejectedWithSuggestion_0, w),
        spec_rule_verdict(a)->RejectedWithSuggestion_1 == spec_suggestion(),
        contains_seq(spec_suggestion(), "rollback"@),
{
    lemma_suggestion_mentions_rollback();
    lemma_destructive_action_reported(a, m)
}

/// Law: compliance counting. Across one ruling the ledger grows by one
/// entry, and the approved count rises by exactly one for an approval and
/// not at all for either rejection — so after `a` approvals and `r`
/// rejections the counts are `a` approved of `a + r` in all, and the
/// compliance score is their quotient.
pub proof fn lemma_compliance_after_rule(
    pre: Seq<LedgerEntryView>,
    post: Seq<LedgerEntryView>,
    a: ActionView,
)
    requires
        post.len() == pre.len() + 1,
        post.take(pre.len() as int) == pre,
        post.last().verdict == spec_verdict_text(a),
    ensures
        spec_approved_count(post) == spec_approved_count(pre) + if spec_rule_verdict(a)
            is Approved {
            1nat
        } else {
            0nat
        },
{
    assert(post =~= pre.push(post.last()));
    match spec_check_law_1(a) {
        Some(reason) => {
            crate::ledger::lemma_approved_count_after_rejection(pre, post.last(), reason);
        },
        None => match spec_check_law_2(a) {
            Some(reason) => {
                crate::ledger::lemma_approved_count_after_rejection(pre, post.last(), reason);
            },
            None => {
                crate::ledger::lemma_approved_count_after_approval(pre, post.last());
            },
        },
    }
}

/// Law: the fixed strict-tier suggestion mentions a rollback mechanism.
pub proof fn lemma_suggestion_mentions_rollback()
    ensures
        contains_seq(spec_suggestion(), "rollback"@),
{
    reveal_strlit("Provide rollback mechanism or sandbox execution.");
    reveal_strlit("rollback");
    assert(matches_at(spec_suggestion(), "rollback"@, 8));
}

} // verus!
