//! The conflict resolver: given an action and the set of simultaneously
//! violated law ids, it decides the effective resolution using priority
//! scores and recognized conflict patterns, and keeps an append-only
//! history of every multi-law resolution together with aggregate counts.

use vstd::prelude::*;

use crate::priorities::{
    registry_wf, is_highest_priority_result, PriorityRegistry, RegistryView,
};
use crate::text::{contains_seq, contains_substr};
use crate::verdicts::{ActionView, SystemAction};

verus! {

/// The id of the emergency-shutdown law, deferred to under an emergency
/// context.
pub const EMERGENCY_LAW: u32 = 110;

/// One recorded conflict: the violated law ids, the triggering action, and
/// the resolution reached. Immutable once created.
#[derive(Debug, Clone)]
pub struct LawConflict {
    pub conflicting_laws: Vec<u32>,
    pub action: SystemAction,
    pub resolution: ConflictResolution,
}

/// The effective resolution of a conflict.
#[derive(Debug, Clone, Copy, PartialEq, Eq, Structural)]
pub enum ConflictResolution {
    /// The action is allowed despite the conflict.
    Allow,
    /// The action is denied.
    Deny,
    /// The named law governs the outcome.
    DeferTo(u32),
    /// The conflict requires out-of-band human intervention.
    HumanReview,
}

/// The mathematical value of a `LawConflict`.
pub ghost struct LawConflictView {
    pub conflicting_laws: Seq<u32>,
    pub action: ActionView,
    pub resolution: ConflictResolution,
}

impl View for LawConflict {
    type V = LawConflictView;

    open spec fn view(&self) -> LawConflictView {
        LawConflictView {
            conflicting_laws: self.conflicting_laws@,
            action: self.action@,
            resolution: self.resolution,
        }
    }
}

/// `l` belongs to the security-category subset of the seeded laws:
/// encryption, rate limiting, user consent.
pub open spec fn is_security_law(l: u32) -> bool {
    l == 101 || l == 104 || l == 109
}

/// `l` belongs to the performance and resource subset of the seeded laws:
/// health checks, disk space, memory limits.
pub open spec fn is_performance_law(l: u32) -> bool {
    l == 102 || l == 103 || l == 105
}

/// `l` belongs to the data-protection subset: encryption, user consent.
pub open spec fn is_data_safety_law(l: u32) -> bool {
    l == 101 || l == 109
}

/// `l` belongs to the operations and shutdown subset: health checks, disk
/// space, emergency shutdown.
pub open spec fn is_system_ops_law(l: u32) -> bool {
    l == 102 || l == 103 || l == EMERGENCY_LAW
}

/// Some violated id is a security law.
pub open spec fn has_security_law(s: Seq<u32>) -> bool {
    exists|i: int| 0 <= i < s.len() && is_security_law(#[trigger] s[i])
}

/// Some violated id is a performance law.
pub open spec fn has_performance_law(s: Seq<u32>) -> bool {
    exists|i: int| 0 <= i < s.len() && is_performance_law(#[trigger] s[i])
}

/// Some violated id is a data-safety law.
pub open spec fn has_data_safety_law(s: Seq<u32>) -> bool {
    exists|i: int| 0 <= i < s.len() && is_data_safety_law(#[trigger] s[i])
}

/// Some violated id is a system-operations law.
pub open spec fn has_system_ops_law(s: Seq<u32>) -> bool {
    exists|i: int| 0 <= i < s.len() && is_system_ops_law(#[trigger] s[i])
}

/// `r` is the correct outcome of pattern analysis over a violated set:
/// the recognized patterns are checked in order and the first match wins.
/// Security-versus-performance and data-safety-versus-operations conflicts,
/// and the default, defer to the highest-priority law of the whole set; an
/// emergency context with the emergency law among the violated ids defers
/// to that law specifically. Escalation to human review is owed only to an
/// empty violated set, for which no highest-priority law exists.
pub open spec fn is_pattern_resolution(
    a: ActionView,
    laws: Seq<u32>,
    reg: RegistryView,
    r: ConflictResolution,
) -> bool {
    if has_security_law(laws) && has_performance_law(laws) {
        match r {
            ConflictResolution::DeferTo(h) => is_highest_priority_result(reg, laws, Some(h)),
            _ => false,
        }
    } else if contains_seq(a.context, "emergency"@) && laws.contains(EMERGENCY_LAW) {
        r == ConflictResolution::DeferTo(EMERGENCY_LAW)
    } else if has_data_safety_law(laws) && has_system_ops_law(laws) {
        match r {
            ConflictResolution::DeferTo(h) => is_highest_priority_result(reg, laws, Some(h)),
            _ => false,
        }
    } else {
        match r {
            ConflictResolution::DeferTo(h) => is_highest_priority_result(reg, laws, Some(h)),
            ConflictResolution::HumanReview => laws.len() == 0,
            _ => false,
        }
    }
}

/// The number of recorded conflicts that were resolved without human
/// review.
pub open spec fn spec_auto_resolved_count(h: Seq<LawConflictView>) -> nat
    decreases h.len(),
{
    if h.len() == 0 {
        0
    } else {
        spec_auto_resolved_count(h.drop_last()) + if h.last().resolution
            is HumanReview {
            0nat
        } else {
            1nat
        }
    }
}

/// Aggregate statistics over the resolution history: how many conflicts
/// were recorded and how many of them were resolved without human review.
/// Their ratio is the resolution rate, taken as full when no conflict has
/// been recorded yet.
#[derive(Debug, Clone, Copy, PartialEq, Eq, Structural)]
pub struct ConflictStatistics {
    pub total_conflicts: usize,
    pub auto_resolved: usize,
}

/// The conflict resolution engine. Its history grows monotonically: a
/// record is appended for every multi-law resolution and never edited or
/// removed.
pub struct ConflictResolver {
    pub resolution_history: Vec<LawConflict>,
}

impl View for ConflictResolver {
    type V = Seq<LawConflictView>;

    open spec fn view(&self) -> Seq<LawConflictView> {
        self.resolution_history@.map_values(|c: LawConflict| c@)
    }
}

fn contains_id(laws: &Vec<u32>, id: u32) -> (r: bool)
    ensures
        r == laws@.contains(id),
{
    let n = laws.len();
    let mut i: usize = 0;
    while i < n
        invariant
            n == laws@.len(),
            0 <= i <= n,
            forall|k: int| 0 <= k < i ==> laws@[k] != id,
        decreases n - i,
    {
        if laws[i] == id {
            return true;
        }
        i += 1;
    }
    false
}

fn has_security_law_exec(laws: &Vec<u32>) -> (r: bool)
    ensures
        r == has_security_law(laws@),
{
    let n = laws.len();
    let mut i: usize = 0;
    while i < n
        invariant
            n == laws@.len(),
            0 <= i <= n,
            forall|k: int| 0 <= k < i ==> !is_security_law(#[trigger] laws@[k]),
        decreases n - i,
    {
        let l = laws[i];
        if l == 101 || l == 104 || l == 109 {
            return true;
        }
        i += 1;
    }
    false
}

fn has_performance_law_exec(laws: &Vec<u32>) -> (r: bool)
    ensures
        r == has_performance_law(laws@),
{
    let n = laws.len();
    let mut i: usize = 0;
    while i < n
        invariant
            n == laws@.len(),
            0 <= i <= n,
            forall|k: int| 0 <= k < i ==> !is_performance_law(#[trigger] laws@[k]),
        decreases n - i,
    {
        let l = laws[i];
        if l == 102 || l == 103 || l == 105 {
            return true;
        }
        i += 1;
    }
    false
}

fn has_data_safety_law_exec(laws: &Vec<u32>) -> (r: bool)
    ensures
        r == has_data_safety_law(laws@),
{
    let n = laws.len();
    let mut i: usize = 0;
    while i < n
        invariant
            n == laws@.len(),
            0 <= i <= n,
            forall|k: int| 0 <= k < i ==> !is_data_safety_law(#[trigger] laws@[k]),
        decreases n - i,
    {
        let l = laws[i];
        if l == 101 || l == 109 {
            return true;
        }
        i += 1;
    }
    false
}

fn has_system_ops_law_exec(laws: &Vec<u32>) -> (r: bool)
    ensures
        r == has_system_ops_law(laws@),
{
    let n = laws.len();
    let mut i: usize = 0;
    while i < n
        invariant
            n == laws@.len(),
            0 <= i <= n,
            forall|k: int| 0 <= k < i ==> !is_system_ops_law(#[trigger] laws@[k]),
        decreases n - i,
    {
        let l = laws[i];
        if l == 102 || l == 103 || l == EMERGENCY_LAW {
            return true;
        }
        i += 1;
    }
    false
}

impl ConflictResolver {
    /// A fresh resolver with an empty history.
    pub fn new() -> (r: ConflictResolver)
        ensures
            r@ =~= Seq::<LawConflictView>::empty(),
    {
        ConflictResolver { resolution_history: Vec::new() }
    }

    /// Classifies the violated set against the recognized patterns, first
    /// match wins.
    fn analyze_conflict_patterns(
        &self,
        action: &SystemAction,
        law_numbers: &Vec<u32>,
        priority_registry: &PriorityRegistry,
    ) -> (r: ConflictResolution)
        requires
            registry_wf(priority_registry@),
        ensures
            is_pattern_resolution(action@, law_numbers@, priority_registry@, r),
    {
        let has_security = has_security_law_exec(law_numbers);
        let has_performance = has_performance_law_exec(law_numbers);
        if has_security && has_performance {
            if let Some(highest) = priority_registry.get_highest_priority_law(
                law_numbers.as_slice(),
            ) {
                return ConflictResolution::DeferTo(highest);
            }
        }
        if contains_substr(&action.context, "emergency") {
            if contains_id(law_numbers, EMERGENCY_LAW) {
                return ConflictResolution::DeferTo(EMERGENCY_LAW);
            }
        }
        let has_data_safety = has_data_safety_law_exec(law_numbers);
        let has_system_ops = has_system_ops_law_exec(law_numbers);
        if has_data_safety && has_system_ops {
            if let Some(highest) = priority_registry.get_highest_priority_law(
                law_numbers.as_slice(),
            ) {
                return ConflictResolution::DeferTo(highest);
            }
        }
        match priority_registry.get_highest_priority_law(law_numbers.as_slice()) {
            Some(highest) => ConflictResolution::DeferTo(highest),
            None => ConflictResolution::HumanReview,
        }
    }

    /// Resolves a violated set. Exactly one violated law is no conflict:
    /// the resolution is denial, no pattern is consulted, and no history
    /// record is made. Otherwise the set is classified against the
    /// recognized patterns and the resolution, win or escalate, is appended
    /// to the history.
    pub fn resolve_conflicts(
        &mut self,
        action: &SystemAction,
        violating_laws: Vec<u32>,
        priority_registry: &PriorityRegistry,
    ) -> (r: ConflictResolution)
        requires
            registry_wf(priority_registry@),
        ensures
            violating_laws@.len() == 1 ==> r == ConflictResolution::Deny
                && final(self)@ == old(self)@,
            violating_laws@.len() != 1 ==> is_pattern_resolution(
                action@,
                violating_laws@,
                priority_registry@,
                r,
            ) && final(self)@ == old(self)@.push(
                (LawConflictView {
                    conflicting_laws: violating_laws@,
                    action: action@,
                    resolution: r,
                }),
            ),
    {
        if violating_laws.len() == 1 {
            return ConflictResolution::Deny;
        }
        let resolution = self.analyze_conflict_patterns(action, &violating_laws, priority_registry);
        let conflict = LawConflict {
            conflicting_laws: violating_laws,
            action: action.clone(),
            resolution: resolution,
        };
        let ghost pre = self@;
        let ghost cv = conflict@;
        self.resolution_history.push(conflict);
        proof {
            assert(self@ =~= pre.push(cv));
        }
        resolution
    }

    /// The aggregate counts over the history: total conflicts recorded and
    /// how many were resolved without human review.
    pub fn get_conflict_stats(&self) -> (r: ConflictStatistics)
        ensures
            r.total_conflicts == self@.len(),
            r.auto_resolved == spec_auto_resolved_count(self@),
            r.auto_resolved <= r.total_conflicts,
    {
        let n = self.resolution_history.len();
        let ghost hist = self@;
        let mut auto_resolved: usize = 0;
        let mut i: usize = 0;
        proof {
            assert(hist.take(0) =~= Seq::<LawConflictView>::empty());
        }
        while i < n
            invariant
                n == self@.len(),
                hist == self@,
                0 <= i <= n,
                auto_resolved == spec_auto_resolved_count(hist.take(i as int)),
                auto_resolved <= i,
            decreases n - i,
        {
            proof {
                assert(hist.take(i + 1).drop_last() =~= hist.take(i as int));
                assert(hist.take(i + 1).last() == hist[i as int]);
            }
            match self.resolution_history[i].resolution {
                ConflictResolution::HumanReview => {},
                _ => {
                    auto_resolved += 1;
                },
            }
            i += 1;
        }
        proof {
            assert(hist.take(n as int) =~= hist);
        }
        ConflictStatistics { total_conflicts: n, auto_resolved }
    }
}

impl Default for ConflictResolver {
    fn default() -> (r: ConflictResolver)
        ensures
            r@ =~= Seq::<LawConflictView>::empty(),
    {
        ConflictResolver::new()
    }
}

/// Law: pattern resolution is deterministic. For one action, one violated
/// set and one registry, any two correct outcomes are the same resolution.
pub proof fn lemma_pattern_resolution_deterministic(
    a: ActionView,
    laws: Seq<u32>,
    reg: RegistryView,
    r1: ConflictResolution,
    r2: ConflictResolution,
)
    requires
        is_pattern_resolution(a, laws, reg, r1),
        is_pattern_resolution(a, laws, reg, r2),
    ensures
        r1 == r2,
{
    if has_security_law(laws) && has_performance_law(laws) {
        let h1 = r1->DeferTo_0;
        let h2 = r2->DeferTo_0;
        crate::priorities::lemma_highest_priority_order_independent(
            reg,
            laws,
            laws,
            Some(h1),
            Some(h2),
        );
    } else if contains_seq(a.context, "emergency"@) && laws.contains(EMERGENCY_LAW) {
    } else if has_data_safety_law(laws) && has_system_ops_law(laws) {
        let h1 = r1->DeferTo_0;
        let h2 = r2->DeferTo_0;
        crate::priorities::lemma_highest_priority_order_independent(
            reg,
            laws,
            laws,
            Some(h1),
            Some(h2),
        );
    } else {
        match (r1, r2) {
            (ConflictResolution::DeferTo(h1), ConflictResolution::DeferTo(h2)) => {
                crate::priorities::lemma_highest_priority_order_independent(
                    reg,
                    laws,
                    laws,
                    Some(h1),
                    Some(h2),
                );
            },
            _ => {},
        }
    }
}

} // verus!
