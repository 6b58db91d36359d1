//! The abstraction of a reading-text preprocessing rule.
//!
//! One `TextRule` can both rewrite the text and stop it from being read at
//! all; both are expressed by `RuleOutcome`. `RulePipeline` chains rules.

use vstd::prelude::*;

verus! {

/// The result of applying one rule.
pub enum RuleOutcome {
    /// Go on to the next rule with this text.
    Continue(String),
    /// Do not read this message (the whole pipeline stops).
    Skip,
}

impl View for RuleOutcome {
    type V = Option<Seq<char>>;

    /// `Some` of the text to go on with, or `None` for `Skip`.
    open spec fn view(&self) -> Option<Seq<char>> {
        match self {
            RuleOutcome::Continue(s) => Some(s@),
            RuleOutcome::Skip => None,
        }
    }
}

/// A preprocessing rule for the text to be read aloud.
///
/// A new rule implements this trait and is added to a `RulePipeline`.
pub trait TextRule: Send + Sync {
    /// What the rule gives for `text`: `Some` of the text to go on with, or
    /// `None` when the message is not to be read.
    spec fn outcome(&self, text: Seq<char>) -> Option<Seq<char>>;

    /// The rule's name (for logs).
    fn name(&self) -> &'static str;

    /// Applies the rule to `text`.
    fn apply(&self, text: &str) -> (r: RuleOutcome)
        ensures
            r@ == self.outcome(text@),
    ;
}

} // verus!
