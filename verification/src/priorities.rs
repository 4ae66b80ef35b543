//! The priority registry: a catalogue of law metadata (id, priority tier,
//! category, fine-grained weight) and a deterministic scoring and comparison
//! function over law ids.
//!
//! Weights are fixed-point integers: a law's fine weight and a category's
//! multiplier are both expressed in hundredths, so a score is
//! `tier weight x multiplier(hundredths) x fine weight(hundredths)`,
//! i.e. ten thousand times the corresponding fractional score. Unknown law
//! ids fall back to the Medium tier's base weight with no multiplier.

use vstd::prelude::*;

use core::cmp::Ordering;

verus! {

/// The domain a law governs. The closed set of ten categories.
#[derive(Debug, Clone, Copy, PartialEq, Eq, Hash, Structural)]
pub enum LawCategory {
    DataGovernance,
    AgentBehavior,
    SystemOperations,
    SecurityProtocols,
    ResourceManagement,
    CommunicationEthics,
    LearningEvolution,
    ErrorHandling,
    UserInteraction,
    EmergencyProtocols,
}

/// What `LawCategory::description` returns for each category.
pub open spec fn spec_category_description(c: LawCategory) -> Seq<char> {
    match c {
        LawCategory::DataGovernance => "Governs data handling, privacy, and sovereignty"@,
        LawCategory::AgentBehavior => "Defines expected agent behaviors and interactions"@,
        LawCategory::SystemOperations => "Rules for system maintenance and health"@,
        LawCategory::SecurityProtocols => "Security, protection, and threat response"@,
        LawCategory::ResourceManagement => "CPU, memory, storage allocation and limits"@,
        LawCategory::CommunicationEthics => "How agents communicate internally and externally"@,
        LawCategory::LearningEvolution => "Self-improvement, adaptation, and growth"@,
        LawCategory::ErrorHandling => "Failure recovery and error management"@,
        LawCategory::UserInteraction => "Human-AI interaction protocols"@,
        LawCategory::EmergencyProtocols => "Crisis response and emergency procedures"@,
    }
}

impl LawCategory {
    /// A human-readable description of the category.
    pub fn description(&self) -> (r: &'static str)
        ensures
            r@ == spec_category_description(*self),
    {
        match self {
            LawCategory::DataGovernance => "Governs data handling, privacy, and sovereignty",
            LawCategory::AgentBehavior => "Defines expected agent behaviors and interactions",
            LawCategory::SystemOperations => "Rules for system maintenance and health",
            LawCategory::SecurityProtocols => "Security, protection, and threat response",
            LawCategory::ResourceManagement => "CPU, memory, storage allocation and limits",
            LawCategory::CommunicationEthics => "How agents communicate internally and externally",
            LawCategory::LearningEvolution => "Self-improvement, adaptation, and growth",
            LawCategory::ErrorHandling => "Failure recovery and error management",
            LawCategory::UserInteraction => "Human-AI interaction protocols",
            LawCategory::EmergencyProtocols => "Crisis response and emergency procedures",
        }
    }
}

/// A priority tier with a fixed base weight.
#[derive(Debug, Clone, Copy, PartialEq, Eq, Structural)]
pub enum PriorityLevel {
    Critical,
    High,
    Medium,
    Low,
    Advisory,
}

impl PriorityLevel {
    /// The fixed numeric weight of the tier.
    pub open spec fn spec_base_weight(self) -> u64 {
        match self {
            PriorityLevel::Critical => 100,
            PriorityLevel::High => 80,
            PriorityLevel::Medium => 60,
            PriorityLevel::Low => 40,
            PriorityLevel::Advisory => 20,
        }
    }

    /// The fixed numeric weight of the tier: 100, 80, 60, 40 or 20.
    pub fn base_weight(&self) -> (r: u64)
        ensures
            r == self.spec_base_weight(),
    {
        match self {
            PriorityLevel::Critical => 100,
            PriorityLevel::High => 80,
            PriorityLevel::Medium => 60,
            PriorityLevel::Low => 40,
            PriorityLevel::Advisory => 20,
        }
    }
}

/// One law's priority record: its id, tier, category, and fine-grained
/// weight in hundredths (0 to 100, standing for the fraction 0.00 to 1.00).
#[derive(Debug, Clone, Copy, PartialEq, Eq, Structural)]
pub struct LawPriority {
    pub law_number: u32,
    pub priority: PriorityLevel,
    pub category: LawCategory,
    pub weight: u32,
}

impl LawPriority {
    /// A record is well formed when its weight is a valid fraction.
    pub open spec fn wf(self) -> bool {
        self.weight <= 100
    }
}

/// The mathematical value of a `PriorityRegistry`: the law records in
/// insertion order and the category multiplier table, multipliers in
/// hundredths.
pub ghost struct RegistryView {
    pub priorities: Seq<LawPriority>,
    pub category_weights: Seq<(LawCategory, u32)>,
}

/// The first record for `law`, if any. The registry keeps at most one
/// record per law id, so this is the record for `law`.
pub open spec fn spec_find_priority(ps: Seq<LawPriority>, law: u32) -> Option<LawPriority>
    decreases ps.len(),
{
    if ps.len() == 0 {
        None
    } else if ps[0].law_number == law {
        Some(ps[0])
    } else {
        spec_find_priority(ps.drop_first(), law)
    }
}

/// The multiplier of category `c` in hundredths: the first entry for `c`,
/// or 100 (that is, 1.00) when the table has none.
pub open spec fn spec_category_multiplier(cws: Seq<(LawCategory, u32)>, c: LawCategory) -> u64
    decreases cws.len(),
{
    if cws.len() == 0 {
        100
    } else if cws[0].0 == c {
        cws[0].1 as u64
    } else {
        spec_category_multiplier(cws.drop_first(), c)
    }
}

/// A known law's score is its tier weight times its category's multiplier
/// times its fine weight; an unknown law falls back to the Medium tier's
/// base weight with neither multiplier nor fine weight (both at 1.00).
pub open spec fn spec_score(reg: RegistryView, law: u32) -> int {
    match spec_find_priority(reg.priorities, law) {
        Some(p) => p.priority.spec_base_weight() * spec_category_multiplier(
            reg.category_weights,
            p.category,
        ) * p.weight,
        None => PriorityLevel::Medium.spec_base_weight() * 100 * 100,
    }
}

/// `a` ranks no higher than `b`: lower score, or an equal score and an id
/// no larger. Equal scores are broken by the larger law id, so the ranking
/// is total and independent of any input order.
pub open spec fn spec_ranks_le(reg: RegistryView, a: u32, b: u32) -> bool {
    ||| spec_score(reg, a) < spec_score(reg, b)
    ||| (spec_score(reg, a) == spec_score(reg, b) && a <= b)
}

/// `r` is the correct outcome of `highest_priority` over the ids in `s`:
/// nothing for an empty input, else a member that every member ranks no
/// higher than.
pub open spec fn is_highest_priority_result(reg: RegistryView, s: Seq<u32>, r: Option<u32>) -> bool {
    match r {
        Some(x) => s.contains(x) && forall|y: u32| s.contains(y) ==> spec_ranks_le(reg, y, x),
        None => s.len() == 0,
    }
}

/// The registry invariant: every fine weight is a valid fraction, law ids
/// are unique, and every multiplier is bounded by the largest seeded one.
pub open spec fn registry_wf(reg: RegistryView) -> bool {
    &&& forall|i: int|
        0 <= i < reg.priorities.len() ==> (#[trigger] reg.priorities[i]).wf()
    &&& forall|i: int, j: int|
        0 <= i < j < reg.priorities.len() ==> (#[trigger] reg.priorities[i]).law_number != (
        #[trigger] reg.priorities[j]).law_number
    &&& forall|i: int|
        0 <= i < reg.category_weights.len() ==> (#[trigger] reg.category_weights[i]).1 <= 150
}

/// The ten seeded law records.
pub open spec fn default_priorities() -> Seq<LawPriority> {
    seq![
        (LawPriority {
            law_number: 101,
            priority: PriorityLevel::Critical,
            category: LawCategory::DataGovernance,
            weight: 95,
        }),
        (LawPriority {
            law_number: 102,
            priority: PriorityLevel::High,
            category: LawCategory::SystemOperations,
            weight: 80,
        }),
        (LawPriority {
            law_number: 103,
            priority: PriorityLevel::Medium,
            category: LawCategory::ResourceManagement,
            weight: 70,
        }),
        (LawPriority {
            law_number: 104,
            priority: PriorityLevel::High,
            category: LawCategory::SecurityProtocols,
            weight: 85,
        }),
        (LawPriority {
            law_number: 105,
            priority: PriorityLevel::Medium,
            category: LawCategory::ResourceManagement,
            weight: 60,
        }),
        (LawPriority {
            law_number: 106,
            priority: PriorityLevel::Medium,
            category: LawCategory::CommunicationEthics,
            weight: 50,
        }),
        (LawPriority {
            law_number: 107,
            priority: PriorityLevel::High,
            category: LawCategory::LearningEvolution,
            weight: 90,
        }),
        (LawPriority {
            law_number: 108,
            priority: PriorityLevel::Medium,
            category: LawCategory::ErrorHandling,
            weight: 60,
        }),
        (LawPriority {
            law_number: 109,
            priority: PriorityLevel::Critical,
            category: LawCategory::DataGovernance,
            weight: 98,
        }),
        (LawPriority {
            law_number: 110,
            priority: PriorityLevel::Critical,
            category: LawCategory::EmergencyProtocols,
            weight: 99,
        }),
    ]
}

/// The seeded category multipliers, in hundredths.
pub open spec fn default_category_weights() -> Seq<(LawCategory, u32)> {
    seq![
        (LawCategory::SecurityProtocols, 120u32),
        (LawCategory::DataGovernance, 110u32),
        (LawCategory::EmergencyProtocols, 150u32),
        (LawCategory::SystemOperations, 100u32),
        (LawCategory::AgentBehavior, 90u32),
        (LawCategory::ResourceManagement, 80u32),
        (LawCategory::CommunicationEthics, 70u32),
        (LawCategory::LearningEvolution, 60u32),
        (LawCategory::ErrorHandling, 100u32),
        (LawCategory::UserInteraction, 80u32),
    ]
}

/// The catalogue of law priority records and category multipliers. At most
/// one record exists per law id: inserting a duplicate id replaces the
/// prior record.
pub struct PriorityRegistry {
    priorities: Vec<LawPriority>,
    category_weights: Vec<(LawCategory, u32)>,
}

impl View for PriorityRegistry {
    type V = RegistryView;

    closed spec fn view(&self) -> RegistryView {
        RegistryView { priorities: self.priorities@, category_weights: self.category_weights@ }
    }
}

proof fn lemma_find_priority_at(ps: Seq<LawPriority>, law: u32, i: int)
    requires
        0 <= i < ps.len(),
        forall|k: int| 0 <= k < i ==> (#[trigger] ps[k]).law_number != law,
        ps[i].law_number == law,
    ensures
        spec_find_priority(ps, law) == Some(ps[i]),
    decreases i,
{
    if i > 0 {
        lemma_find_priority_at(ps.drop_first(), law, i - 1);
    }
}

proof fn lemma_find_priority_none(ps: Seq<LawPriority>, law: u32)
    requires
        forall|k: int| 0 <= k < ps.len() ==> (#[trigger] ps[k]).law_number != law,
    ensures
        spec_find_priority(ps, law) is None,
    decreases ps.len(),
{
    if ps.len() > 0 {
        lemma_find_priority_none(ps.drop_first(), law);
    }
}

proof fn lemma_find_priority_push(ps: Seq<LawPriority>, p: LawPriority, x: u32)
    requires
        x != p.law_number,
    ensures
        spec_find_priority(ps.push(p), x) == spec_find_priority(ps, x),
    decreases ps.len(),
{
    reveal_with_fuel(spec_find_priority, 3);
    if ps.len() == 0 {
        assert(ps.push(p)[0] == p);
    } else {
        assert(ps.push(p)[0] == ps[0]);
        if ps[0].law_number != x {
            assert(ps.push(p).drop_first() =~= ps.drop_first().push(p));
            lemma_find_priority_push(ps.drop_first(), p, x);
        }
    }
}

proof fn lemma_find_priority_update(ps: Seq<LawPriority>, i: int, p: LawPriority)
    requires
        0 <= i < ps.len(),
        ps[i].law_number == p.law_number,
        forall|a: int, b: int|
            0 <= a < b < ps.len() ==> (#[trigger] ps[a]).law_number != (
            #[trigger] ps[b]).law_number,
    ensures
        spec_find_priority(ps.update(i, p), p.law_number) == Some(p),
        forall|x: u32|
            x != p.law_number ==> #[trigger] spec_find_priority(ps.update(i, p), x)
                == spec_find_priority(ps, x),
    decreases ps.len(),
{
    let new = ps.update(i, p);
    if i == 0 {
        assert(new[0] == p);
        assert(new.drop_first() =~= ps.drop_first());
    } else {
        assert(new[0] == ps[0]);
        assert(ps[0].law_number != p.law_number);
        assert(new.drop_first() =~= ps.drop_first().update(i - 1, p));
        assert forall|a: int, b: int|
            0 <= a < b < ps.drop_first().len() implies (#[trigger] ps.drop_first()[a]).law_number
            != (#[trigger] ps.drop_first()[b]).law_number by {
            assert(ps.drop_first()[a] == ps[a + 1]);
            assert(ps.drop_first()[b] == ps[b + 1]);
        }
        lemma_find_priority_update(ps.drop_first(), i - 1, p);
        assert forall|x: u32| x != p.law_number implies #[trigger] spec_find_priority(new, x)
            == spec_find_priority(ps, x) by {
            if ps[0].law_number != x {
                assert(spec_find_priority(new, x) == spec_find_priority(new.drop_first(), x));
            }
        }
    }
}

proof fn lemma_category_multiplier_at(cws: Seq<(LawCategory, u32)>, c: LawCategory, i: int)
    requires
        0 <= i < cws.len(),
        forall|k: int| 0 <= k < i ==> (#[trigger] cws[k]).0 != c,
        cws[i].0 == c,
    ensures
        spec_category_multiplier(cws, c) == cws[i].1 as u64,
    decreases i,
{
    if i > 0 {
        lemma_category_multiplier_at(cws.drop_first(), c, i - 1);
    }
}

proof fn lemma_category_multiplier_none(cws: Seq<(LawCategory, u32)>, c: LawCategory)
    requires
        forall|k: int| 0 <= k < cws.len() ==> (#[trigger] cws[k]).0 != c,
    ensures
        spec_category_multiplier(cws, c) == 100,
    decreases cws.len(),
{
    if cws.len() > 0 {
        lemma_category_multiplier_none(cws.drop_first(), c);
    }
}

impl PriorityRegistry {
    /// A fresh registry holding the seeded law records and category
    /// multipliers.
    pub fn new() -> (r: PriorityRegistry)
        ensures
            r@.priorities == default_priorities(),
            r@.category_weights == default_category_weights(),
            registry_wf(r@),
    {
        let mut priorities: Vec<LawPriority> = Vec::new();
        priorities.push(
            LawPriority {
                law_number: 101,
                priority: PriorityLevel::Critical,
                category: LawCategory::DataGovernance,
                weight: 95,
            },
        );
        priorities.push(
            LawPriority {
                law_number: 102,
                priority: PriorityLevel::High,
                category: LawCategory::SystemOperations,
                weight: 80,
            },
        );
        priorities.push(
            LawPriority {
                law_number: 103,
                priority: PriorityLevel::Medium,
                category: LawCategory::ResourceManagement,
                weight: 70,
            },
        );
        priorities.push(
            LawPriority {
                law_number: 104,
                priority: PriorityLevel::High,
                category: LawCategory::SecurityProtocols,
                weight: 85,
            },
        );
        priorities.push(
            LawPriority {
                law_number: 105,
                priority: PriorityLevel::Medium,
                category: LawCategory::ResourceManagement,
                weight: 60,
            },
        );
        priorities.push(
            LawPriority {
                law_number: 106,
                priority: PriorityLevel::Medium,
                category: LawCategory::CommunicationEthics,
                weight: 50,
            },
        );
        priorities.push(
            LawPriority {
                law_number: 107,
                priority: PriorityLevel::High,
                category: LawCategory::LearningEvolution,
                weight: 90,
            },
        );
        priorities.push(
            LawPriority {
                law_number: 108,
                priority: PriorityLevel::Medium,
                category: LawCategory::ErrorHandling,
                weight: 60,
            },
        );
        priorities.push(
            LawPriority {
                law_number: 109,
                priority: PriorityLevel::Critical,
                category: LawCategory::DataGovernance,
                weight: 98,
            },
        );
        priorities.push(
            LawPriority {
                law_number: 110,
                priority: PriorityLevel::Critical,
                category: LawCategory::EmergencyProtocols,
                weight: 99,
            },
        );
        let mut category_weights: Vec<(LawCategory, u32)> = Vec::new();
        category_weights.push((LawCategory::SecurityProtocols, 120));
        category_weights.push((LawCategory::DataGovernance, 110));
        category_weights.push((LawCategory::EmergencyProtocols, 150));
        category_weights.push((LawCategory::SystemOperations, 100));
        category_weights.push((LawCategory::AgentBehavior, 90));
        category_weights.push((LawCategory::ResourceManagement, 80));
        category_weights.push((LawCategory::CommunicationEthics, 70));
        category_weights.push((LawCategory::LearningEvolution, 60));
        category_weights.push((LawCategory::ErrorHandling, 100));
        category_weights.push((LawCategory::UserInteraction, 80));
        let r = PriorityRegistry { priorities, category_weights };
        proof {
            assert(r@.priorities =~= default_priorities());
            assert(r@.category_weights =~= default_category_weights());
        }
        r
    }

    /// The index of the record for `law`, if the registry holds one.
    fn find_index(&self, law: u32) -> (r: Option<usize>)
        ensures
            match r {
                Some(i) => i < self@.priorities.len() && self@.priorities[i as int].law_number
                    == law && spec_find_priority(self@.priorities, law) == Some(
                    self@.priorities[i as int],
                ),
                None => spec_find_priority(self@.priorities, law) is None && forall|k: int|
                    0 <= k < self@.priorities.len() ==> (#[trigger] self@.priorities[k]).law_number
                        != law,
            },
    {
        let n = self.priorities.len();
        let mut i: usize = 0;
        while i < n
            invariant
                n == self@.priorities.len(),
                0 <= i <= n,
                forall|k: int| 0 <= k < i ==> (#[trigger] self@.priorities[k]).law_number != law,
            decreases n - i,
        {
            if self.priorities[i].law_number == law {
                proof {
                    lemma_find_priority_at(self@.priorities, law, i as int);
                }
                return Some(i);
            }
            i += 1;
        }
        proof {
            lemma_find_priority_none(self@.priorities, law);
        }
        None
    }

    /// The multiplier of category `c`, in hundredths.
    fn category_multiplier(&self, c: LawCategory) -> (r: u64)
        ensures
            r == spec_category_multiplier(self@.category_weights, c),
            registry_wf(self@) ==> r <= 150,
    {
        let n = self.category_weights.len();
        let mut i: usize = 0;
        while i < n
            invariant
                n == self@.category_weights.len(),
                0 <= i <= n,
                forall|k: int| 0 <= k < i ==> (#[trigger] self@.category_weights[k]).0 != c,
            decreases n - i,
        {
            if self.category_weights[i].0 == c {
                proof {
                    lemma_category_multiplier_at(self@.category_weights, c, i as int);
                }
                return self.category_weights[i].1 as u64;
            }
            i += 1;
        }
        proof {
            lemma_category_multiplier_none(self@.category_weights, c);
        }
        100
    }

    /// The deterministic priority score of `law`, ten thousand times the
    /// fractional score.
    pub fn get_priority_score(&self, law_number: u32) -> (r: u64)
        requires
            registry_wf(self@),
        ensures
            r == spec_score(self@, law_number),
            r <= 1_500_000,
    {
        match self.find_index(law_number) {
            Some(i) => {
                let p = self.priorities[i];
                proof {
                    assert(self@.priorities[i as int].wf());
                }
                let base = p.priority.base_weight();
                let multiplier = self.category_multiplier(p.category);
                proof {
                    assert(base <= 100 && multiplier <= 150 && p.weight <= 100);
                    assert(base * multiplier * (p.weight as u64) <= 1_500_000)
                        by (nonlinear_arith)
                        requires
                            base <= 100,
                            multiplier <= 150,
                            p.weight <= 100,
                    ;
                }
                base * multiplier * p.weight as u64
            },
            None => 60 * 100 * 100,
        }
    }

    /// A total order on law ids by score; ids of equal score compare equal.
    pub fn compare_priorities(&self, law_a: u32, law_b: u32) -> (r: Ordering)
        requires
            registry_wf(self@),
        ensures
            r == Ordering::Less <==> spec_score(self@, law_a) < spec_score(self@, law_b),
            r == Ordering::Equal <==> spec_score(self@, law_a) == spec_score(self@, law_b),
            r == Ordering::Greater <==> spec_score(self@, law_a) > spec_score(self@, law_b),
    {
        let score_a = self.get_priority_score(law_a);
        let score_b = self.get_priority_score(law_b);
        if score_a < score_b {
            Ordering::Less
        } else if score_a == score_b {
            Ordering::Equal
        } else {
            Ordering::Greater
        }
    }

    /// The id with the highest score among `law_numbers`; an equal score is
    /// broken in favour of the larger id, so the outcome does not depend on
    /// the order of the input. Nothing is returned only for empty input.
    pub fn get_highest_priority_law(&self, law_numbers: &[u32]) -> (r: Option<u32>)
        requires
            registry_wf(self@),
        ensures
            is_highest_priority_result(self@, law_numbers@, r),
    {
        let n = law_numbers.len();
        if n == 0 {
            return None;
        }
        let mut best: u32 = law_numbers[0];
        let mut best_score: u64 = self.get_priority_score(law_numbers[0]);
        let mut i: usize = 1;
        proof {
            assert(law_numbers@.contains(law_numbers@[0]));
        }
        while i < n
            invariant
                registry_wf(self@),
                n == law_numbers@.len(),
                1 <= i <= n,
                best_score == spec_score(self@, best),
                law_numbers@.contains(best),
                forall|k: int|
                    0 <= k < i ==> spec_ranks_le(self@, #[trigger] law_numbers@[k], best),
            decreases n - i,
        {
            let candidate = law_numbers[i];
            let candidate_score = self.get_priority_score(candidate);
            if candidate_score > best_score || (candidate_score == best_score && candidate > best) {
                best = candidate;
                best_score = candidate_score;
                proof {
                    assert(law_numbers@.contains(law_numbers@[i as int]));
                }
            }
            i += 1;
        }
        proof {
            assert forall|y: u32| law_numbers@.contains(y) implies spec_ranks_le(
                self@,
                y,
                best,
            ) by {
                let k = choose|k: int| 0 <= k < law_numbers@.len() && law_numbers@[k] == y;
                assert(spec_ranks_le(self@, law_numbers@[k], best));
            }
        }
        Some(best)
    }

    /// Replaces the tier and fine weight of the record for `law_number`,
    /// clamping the weight to a valid fraction; reports whether a record
    /// was found. No other record changes.
    pub fn update_priority(&mut self, law_number: u32, new_priority: PriorityLevel, new_weight: u32) -> (r:
        bool)
        requires
            registry_wf(old(self)@),
        ensures
            registry_wf(final(self)@),
            final(self)@.category_weights == old(self)@.category_weights,
            final(self)@.priorities.len() == old(self)@.priorities.len(),
            r == (spec_find_priority(old(self)@.priorities, law_number) is Some),
            forall|j: int|
                0 <= j < old(self)@.priorities.len() && (#[trigger] old(
                    self,
                )@.priorities[j]).law_number != law_number ==> final(self)@.priorities[j] == old(
                    self,
                )@.priorities[j],
            forall|j: int|
                0 <= j < old(self)@.priorities.len() && (#[trigger] old(
                    self,
                )@.priorities[j]).law_number == law_number ==> final(self)@.priorities[j] == (LawPriority {
                    law_number: law_number,
                    priority: new_priority,
                    category: old(self)@.priorities[j].category,
                    weight: if new_weight <= 100 {
                        new_weight
                    } else {
                        100
                    },
                }),
    {
        match self.find_index(law_number) {
            Some(i) => {
                let clamped = if new_weight <= 100 {
                    new_weight
                } else {
                    100
                };
                let updated = LawPriority {
                    law_number: self.priorities[i].law_number,
                    priority: new_priority,
                    category: self.priorities[i].category,
                    weight: clamped,
                };
                self.priorities[i] = updated;
                proof {
                    let ps = old(self)@.priorities;
                    let new = self@.priorities;
                    assert forall|k: int|
                        0 <= k < self@.category_weights.len() implies (
                    #[trigger] self@.category_weights[k]).1 <= 150 by {
                        assert(self@.category_weights[k] == old(self)@.category_weights[k]);
                    }
                    assert forall|a: int, b: int| 0 <= a < b < new.len() implies (
                    #[trigger] new[a]).law_number != (#[trigger] new[b]).law_number by {
                        assert(ps[a].law_number != ps[b].law_number);
                    }
                    assert forall|j: int|
                        0 <= j < ps.len() && (#[trigger] ps[j]).law_number == law_number implies
                        new[j] == updated by {
                        if j != i {
                            assert(ps[if j < i {
                                j
                            } else {
                                i as int
                            }].law_number != ps[if j < i {
                                i as int
                            } else {
                                j
                            }].law_number);
                        }
                    }
                }
                true
            },
            None => false,
        }
    }

    /// Inserts `law_priority`, replacing any prior record with the same law
    /// id: the registry keeps at most one record per id. Records for other
    /// law ids are untouched.
    pub fn add_custom_priority(&mut self, law_priority: LawPriority)
        requires
            registry_wf(old(self)@),
            law_priority.wf(),
        ensures
            registry_wf(final(self)@),
            final(self)@.category_weights == old(self)@.category_weights,
            spec_find_priority(final(self)@.priorities, law_priority.law_number) == Some(
                law_priority,
            ),
            forall|x: u32|
                x != law_priority.law_number ==> #[trigger] spec_find_priority(
                    final(self)@.priorities,
                    x,
                ) == spec_find_priority(old(self)@.priorities, x),
    {
        match self.find_index(law_priority.law_number) {
            Some(i) => {
                self.priorities[i] = law_priority;
                proof {
                    let ps = old(self)@.priorities;
                    let new = self@.priorities;
                    assert forall|k: int|
                        0 <= k < self@.category_weights.len() implies (
                    #[trigger] self@.category_weights[k]).1 <= 150 by {
                        assert(self@.category_weights[k] == old(self)@.category_weights[k]);
                    }
                    assert(new == ps.update(i as int, law_priority));
                    lemma_find_priority_update(ps, i as int, law_priority);
                    assert forall|a: int, b: int| 0 <= a < b < new.len() implies (
                    #[trigger] new[a]).law_number != (#[trigger] new[b]).law_number by {
                        assert(ps[a].law_number != ps[b].law_number);
                    }
                }
            },
            None => {
                self.priorities.push(law_priority);
                proof {
                    let ps = old(self)@.priorities;
                    let new = self@.priorities;
                    assert forall|k: int|
                        0 <= k < self@.category_weights.len() implies (
                    #[trigger] self@.category_weights[k]).1 <= 150 by {
                        assert(self@.category_weights[k] == old(self)@.category_weights[k]);
                    }
                    assert(forall|k: int| 0 <= k < ps.len() ==> new[k] == ps[k]);
                    lemma_find_priority_at(new, law_priority.law_number, new.len() - 1);
                    assert forall|x: u32| x != law_priority.law_number implies #[trigger] spec_find_priority(
                        new,
                        x,
                    ) == spec_find_priority(ps, x) by {
                        lemma_find_priority_push(ps, law_priority, x);
                    }
                    assert forall|a: int, b: int| 0 <= a < b < new.len() implies (
                    #[trigger] new[a]).law_number != (#[trigger] new[b]).law_number by {
                        if b == new.len() - 1 {
                            assert(ps[a].law_number != law_priority.law_number);
                        } else {
                            assert(ps[a].law_number != ps[b].law_number);
                        }
                    }
                }
            },
        }
    }
}

impl PriorityRegistry {
    /// The law records, in insertion order, for inspection and export.
    pub fn priorities(&self) -> (r: &Vec<LawPriority>)
        ensures
            r@ == self@.priorities,
    {
        &self.priorities
    }
}

impl Default for PriorityRegistry {
    fn default() -> (r: PriorityRegistry)
        ensures
            r@.priorities == default_priorities(),
            r@.category_weights == default_category_weights(),
            registry_wf(r@),
    {
        PriorityRegistry::new()
    }
}

/// Law: `highest_priority` is order-independent. Two correct outcomes over
/// inputs holding the same set of law ids are the same id (or both nothing).
pub proof fn lemma_highest_priority_order_independent(
    reg: RegistryView,
    s1: Seq<u32>,
    s2: Seq<u32>,
    r1: Option<u32>,
    r2: Option<u32>,
)
    requires
        s1.to_set() == s2.to_set(),
        is_highest_priority_result(reg, s1, r1),
        is_highest_priority_result(reg, s2, r2),
    ensures
        r1 == r2,
{
    broadcast use vstd::set::group_set_axioms;

    match (r1, r2) {
        (Some(x1), Some(x2)) => {
            assert(s1.to_set().contains(x1));
            assert(s2.contains(x1));
            assert(s2.to_set().contains(x2));
            assert(s1.contains(x2));
            assert(spec_ranks_le(reg, x1, x2));
            assert(spec_ranks_le(reg, x2, x1));
        },
        (Some(x1), None) => {
            assert(s1.to_set().contains(x1));
            assert(s2.contains(x1));
        },
        (None, Some(x2)) => {
            assert(s2.to_set().contains(x2));
            assert(s1.contains(x2));
        },
        (None, None) => {},
    }
}

} // verus!
