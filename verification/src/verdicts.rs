//! The value types exchanged between callers and the decision core: the
//! action submitted for evaluation and the verdict rendered over it.

use vstd::prelude::*;

verus! {

/// A proposed operation submitted for policy evaluation: a free-text type
/// tag, a payload, and a context tag. Any strings are valid; equality is
/// structural.
#[derive(Debug)]
pub struct SystemAction {
    pub action_type: String,
    pub payload: String,
    pub context: String,
}

impl Clone for SystemAction {
    fn clone(&self) -> (r: Self)
        ensures
            r@ == self@,
    {
        SystemAction {
            action_type: self.action_type.clone(),
            payload: self.payload.clone(),
            context: self.context.clone(),
        }
    }
}

/// The mathematical value of a `SystemAction`: its three fields as
/// character sequences.
pub ghost struct ActionView {
    pub action_type: Seq<char>,
    pub payload: Seq<char>,
    pub context: Seq<char>,
}

impl View for SystemAction {
    type V = ActionView;

    open spec fn view(&self) -> ActionView {
        ActionView {
            action_type: self.action_type@,
            payload: self.payload@,
            context: self.context@,
        }
    }
}

/// The outcome of evaluating one action: approved, rejected with a reason,
/// or rejected with a reason and a remediation suggestion. Produced exactly
/// once per submitted action.
#[derive(Debug, Clone)]
pub enum Verdict {
    Approved,
    Rejected(String),
    RejectedWithSuggestion(String, String),
}

/// The mathematical value of a `Verdict`, with reasons and suggestions as
/// character sequences.
pub ghost enum VerdictView {
    Approved,
    Rejected(Seq<char>),
    RejectedWithSuggestion(Seq<char>, Seq<char>),
}

impl View for Verdict {
    type V = VerdictView;

    open spec fn view(&self) -> VerdictView {
        match self {
            Verdict::Approved => VerdictView::Approved,
            Verdict::Rejected(reason) => VerdictView::Rejected(reason@),
            Verdict::RejectedWithSuggestion(reason, suggestion) => VerdictView::RejectedWithSuggestion(
                reason@,
                suggestion@,
            ),
        }
    }
}

} // verus!
