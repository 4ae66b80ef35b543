//! A policy-decision engine: proposed system actions are evaluated against an
//! ordered set of laws, a verdict is rendered, and every decision is recorded
//! in a tamper-evident, hash-chained, append-only ledger from which a running
//! compliance score is derived.

pub mod conflict_resolution;
pub mod digest;
pub mod judicial_core;
pub mod ledger;
pub mod master_pair;
pub mod priorities;
pub mod text;
pub mod verdicts;

pub use crate::judicial_core::JudicialCore;
pub use crate::master_pair::MasterPair;
pub use crate::verdicts::{SystemAction, Verdict};
