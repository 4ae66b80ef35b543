//! The tamper-evident ledger: an append-only, hash-chained record of every
//! decision, and the running compliance count derived from it.
//!
//! Each entry's hash is the SHA-256 digest, hex-encoded, of a fixed
//! serialization of its fields: the timestamp, the action's three fields
//! and the verdict text, joined by `'|'`, followed by the previous entry's
//! hex hash (empty for the first entry). Entry `n + 1` stores entry `n`'s
//! hash as its `previous_hash`; the first entry has none. No entry is ever
//! mutated or removed after creation.

use vstd::prelude::*;

use crate::digest::{hex_encode, sha256_digest, sha256_of, spec_hex_of};
use crate::text::{starts_with, starts_with_seq};
use crate::verdicts::{ActionView, SystemAction};

verus! {

/// One ledger record: when it was made, the action submitted, the verdict
/// text rendered over it, its own content hash, and the hash of the entry
/// before it.
#[derive(Debug, Clone)]
pub struct LedgerEntry {
    pub timestamp: String,
    pub action: SystemAction,
    pub verdict: String,
    pub hash: String,
    pub previous_hash: Option<String>,
}

/// The mathematical value of a `LedgerEntry`.
pub ghost struct LedgerEntryView {
    pub timestamp: Seq<char>,
    pub action: ActionView,
    pub verdict: Seq<char>,
    pub hash: Seq<char>,
    pub previous_hash: Option<Seq<char>>,
}

impl View for LedgerEntry {
    type V = LedgerEntryView;

    open spec fn view(&self) -> LedgerEntryView {
        LedgerEntryView {
            timestamp: self.timestamp@,
            action: self.action@,
            verdict: self.verdict@,
            hash: self.hash@,
            previous_hash: match self.previous_hash {
                Some(p) => Some(p@),
                None => None,
            },
        }
    }
}

/// The fixed serialization of the hashed tuple: the timestamp, the
/// action's three fields and the verdict joined by `'|'`, then the
/// previous hash (empty for the first entry). This layout is part of the
/// audit contract.
pub open spec fn spec_entry_preimage(
    timestamp: Seq<char>,
    action: ActionView,
    verdict: Seq<char>,
    previous_hash: Option<Seq<char>>,
) -> Seq<char> {
    timestamp + "|"@ + action.action_type + "|"@ + action.payload + "|"@ + action.context + "|"@
        + verdict + "|"@ + match previous_hash {
        Some(p) => p,
        None => Seq::empty(),
    }
}

/// An entry's hash: the hex-encoded SHA-256 digest of its serialized
/// fields.
pub open spec fn spec_entry_hash(
    timestamp: Seq<char>,
    action: ActionView,
    verdict: Seq<char>,
    previous_hash: Option<Seq<char>>,
) -> Seq<char> {
    spec_hex_of(sha256_of(spec_entry_preimage(timestamp, action, verdict, previous_hash)))
}

/// An entry is well formed when its stored hash is the hash of its own
/// recorded fields.
pub open spec fn entry_wf(e: LedgerEntryView) -> bool {
    e.hash == spec_entry_hash(e.timestamp, e.action, e.verdict, e.previous_hash)
}

/// The ledger invariant: every entry's hash is reproducible from its
/// fields, the first entry has no previous hash, and every later entry
/// stores the hash of the entry before it.
pub open spec fn ledger_wf(entries: Seq<LedgerEntryView>) -> bool {
    &&& forall|i: int| 0 <= i < entries.len() ==> entry_wf(#[trigger] entries[i])
    &&& entries.len() > 0 ==> entries[0].previous_hash is None
    &&& forall|i: int|
        1 <= i < entries.len() ==> (#[trigger] entries[i]).previous_hash == Some(
            entries[i - 1].hash,
        )
}

/// The number of entries whose verdict text starts with "APPROVED".
pub open spec fn spec_approved_count(entries: Seq<LedgerEntryView>) -> nat
    decreases entries.len(),
{
    if entries.len() == 0 {
        0
    } else {
        spec_approved_count(entries.drop_last()) + if starts_with_seq(
            entries.last().verdict,
            "APPROVED"@,
        ) {
            1nat
        } else {
            0nat
        }
    }
}

fn build_preimage(
    timestamp: &str,
    action: &SystemAction,
    verdict: &str,
    previous_hash: &Option<String>,
) -> (r: String)
    ensures
        r@ == spec_entry_preimage(
            timestamp@,
            action@,
            verdict@,
            match previous_hash {
                Some(p) => Some(p@),
                None => None,
            },
        ),
{
    let mut s = String::from_str(timestamp);
    s.append("|");
    s.append(action.action_type.as_str());
    s.append("|");
    s.append(action.payload.as_str());
    s.append("|");
    s.append(action.context.as_str());
    s.append("|");
    s.append(verdict);
    s.append("|");
    match previous_hash {
        Some(p) => {
            s.append(p.as_str());
        },
        None => {},
    }
    s
}

/// Recomputes the hash an entry with these fields must store: the
/// hex-encoded SHA-256 digest of their fixed serialization. An auditor can
/// re-derive any recorded entry's hash with this alone.
pub fn compute_entry_hash(
    timestamp: &str,
    action: &SystemAction,
    verdict: &str,
    previous_hash: &Option<String>,
) -> (r: String)
    ensures
        r@ == spec_entry_hash(
            timestamp@,
            action@,
            verdict@,
            match previous_hash {
                Some(p) => Some(p@),
                None => None,
            },
        ),
{
    let preimage = build_preimage(timestamp, action, verdict, previous_hash);
    let digest = sha256_digest(preimage.as_str());
    hex_encode(&digest)
}

/// Relies on chrono's `Utc::now` and `DateTime::to_rfc3339` for the entry
/// timestamp. The clock is environmental, so nothing is promised of the
/// returned text.
#[verifier::external_body]
fn current_timestamp() -> (r: String) {
    chrono::Utc::now().to_rfc3339()
}

/// The append-only, hash-chained ledger of decisions.
#[derive(Debug)]
pub struct TamperProofLedger {
    entries: Vec<LedgerEntry>,
}

impl View for TamperProofLedger {
    type V = Seq<LedgerEntryView>;

    closed spec fn view(&self) -> Seq<LedgerEntryView> {
        self.entries@.map_values(|e: LedgerEntry| e@)
    }
}

impl TamperProofLedger {
    /// A fresh, empty ledger.
    pub fn new() -> (r: TamperProofLedger)
        ensures
            r@ =~= Seq::<LedgerEntryView>::empty(),
            ledger_wf(r@),
    {
        let r = TamperProofLedger { entries: Vec::new() };
        proof {
            assert(r@ =~= Seq::<LedgerEntryView>::empty());
        }
        r
    }

    /// Appends one entry with the given verdict text. The previous entries
    /// are untouched; the new entry is stamped with the current time,
    /// linked to the last entry's hash, and hashed over its own fields.
    fn record_entry(&mut self, action: SystemAction, verdict: String)
        requires
            ledger_wf(old(self)@),
        ensures
            ledger_wf(final(self)@),
            final(self)@.len() == old(self)@.len() + 1,
            final(self)@.take(old(self)@.len() as int) == old(self)@,
            final(self)@.last().action == action@,
            final(self)@.last().verdict == verdict@,
            final(self)@.last().previous_hash == (if old(self)@.len() == 0 {
                Option::<Seq<char>>::None
            } else {
                Some(old(self)@.last().hash)
            }),
    {
        let timestamp = current_timestamp();
        let previous_hash: Option<String> = if self.entries.len() == 0 {
            None
        } else {
            Some(self.entries[self.entries.len() - 1].hash.clone())
        };
        let hash = compute_entry_hash(
            timestamp.as_str(),
            &action,
            verdict.as_str(),
            &previous_hash,
        );
        let entry = LedgerEntry { timestamp, action, verdict, hash, previous_hash };
        let ghost pre = self@;
        let ghost ev = entry@;
        self.entries.push(entry);
        proof {
            assert(self@ =~= pre.push(ev));
            assert(self@.take(pre.len() as int) =~= pre);
            assert forall|i: int| 0 <= i < self@.len() implies entry_wf(#[trigger] self@[i]) by {
                if i < pre.len() {
                    assert(entry_wf(pre[i]));
                }
            }
        }
    }

    /// Records a rejected action: the verdict text is "REJECTED: " followed
    /// by the reason.
    pub fn record_violation(&mut self, action: SystemAction, reason: String)
        requires
            ledger_wf(old(self)@),
        ensures
            ledger_wf(final(self)@),
            final(self)@.len() == old(self)@.len() + 1,
            final(self)@.take(old(self)@.len() as int) == old(self)@,
            final(self)@.last().action == action@,
            final(self)@.last().verdict == "REJECTED: "@ + reason@,
    {
        let mut verdict = String::from_str("REJECTED: ");
        verdict.append(reason.as_str());
        self.record_entry(action, verdict);
    }

    /// Records an approved action: the verdict text is "APPROVED".
    pub fn record_approval(&mut self, action: SystemAction)
        requires
            ledger_wf(old(self)@),
        ensures
            ledger_wf(final(self)@),
            final(self)@.len() == old(self)@.len() + 1,
            final(self)@.take(old(self)@.len() as int) == old(self)@,
            final(self)@.last().action == action@,
            final(self)@.last().verdict == "APPROVED"@,
    {
        self.record_entry(action, String::from_str("APPROVED"));
    }

    /// The compliance counts: how many recorded verdicts start with
    /// "APPROVED", and how many entries there are in all. The compliance
    /// score is their quotient, taken as full (1) for an empty ledger.
    pub fn calculate_compliance_score(&self) -> (r: (usize, usize))
        ensures
            r.0 == spec_approved_count(self@),
            r.1 == self@.len(),
            r.0 <= r.1,
    {
        let n = self.entries.len();
        let ghost entries = self@;
        let mut approved: usize = 0;
        let mut i: usize = 0;
        proof {
            assert(entries.take(0) =~= Seq::<LedgerEntryView>::empty());
        }
        while i < n
            invariant
                n == entries.len(),
                entries == self@,
                0 <= i <= n,
                approved == spec_approved_count(entries.take(i as int)),
                approved <= i,
            decreases n - i,
        {
            proof {
                assert(entries.take(i + 1).drop_last() =~= entries.take(i as int));
                assert(entries.take(i + 1).last() == entries[i as int]);
            }
            if starts_with(self.entries[i].verdict.as_str(), "APPROVED") {
                approved += 1;
            }
            i += 1;
        }
        proof {
            assert(entries.take(n as int) =~= entries);
        }
        (approved, n)
    }

    /// The full entry list, in insertion order.
    pub fn entries(&self) -> (r: &Vec<LedgerEntry>)
        ensures
            r@.map_values(|e: LedgerEntry| e@) == self@,
    {
        &self.entries
    }
}

/// Law: ledger chain integrity. In a well-formed ledger, entry `n`'s
/// `previous_hash` is entry `n - 1`'s hash for every `n >= 1`, the first
/// entry has none, and re-hashing any entry's recorded fields reproduces
/// its stored hash.
pub proof fn lemma_chain_integrity(entries: Seq<LedgerEntryView>, n: int)
    requires
        ledger_wf(entries),
        0 <= n < entries.len(),
    ensures
        n >= 1 ==> entries[n].previous_hash == Some(entries[n - 1].hash),
        n == 0 ==> entries[n].previous_hash is None,
        entries[n].hash == spec_entry_hash(
            entries[n].timestamp,
            entries[n].action,
            entries[n].verdict,
            entries[n].previous_hash,
        ),
{
    assert(entry_wf(entries[n]));
}

/// Law: recording an approval raises the approved count by exactly one.
pub proof fn lemma_approved_count_after_approval(
    entries: Seq<LedgerEntryView>,
    e: LedgerEntryView,
)
    requires
        e.verdict == "APPROVED"@,
    ensures
        spec_approved_count(entries.push(e)) == spec_approved_count(entries) + 1,
{
    assert(entries.push(e).drop_last() =~= entries);
    assert(starts_with_seq(e.verdict, "APPROVED"@)) by {
        assert(crate::text::matches_at(e.verdict, "APPROVED"@, 0));
    }
}

/// Law: recording a rejection leaves the approved count unchanged,
/// whatever the reason.
pub proof fn lemma_approved_count_after_rejection(
    entries: Seq<LedgerEntryView>,
    e: LedgerEntryView,
    reason: Seq<char>,
)
    requires
        e.verdict == "REJECTED: "@ + reason,
    ensures
        spec_approved_count(entries.push(e)) == spec_approved_count(entries),
{
    assert(entries.push(e).drop_last() =~= entries);
    reveal_strlit("REJECTED: ");
    reveal_strlit("APPROVED");
    assert(e.verdict[0] == 'R');
    assert(!starts_with_seq(e.verdict, "APPROVED"@)) by {
        if crate::text::matches_at(e.verdict, "APPROVED"@, 0) {
            assert(e.verdict[0] == "APPROVED"@[0]);
        }
    }
}

} // verus!
