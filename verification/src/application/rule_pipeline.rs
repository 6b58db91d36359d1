//! The pipeline of reading-text preprocessing rules.

use vstd::prelude::*;

use crate::domain::text_rule::{RuleOutcome, TextRule};
use crate::text::{chars_of, is_white_space, lemma_trim_bounds, string_of, trim, trim_chars};

verus! {

/// `text` passed through `rules` in order: `None` as soon as one rule skips.
pub open spec fn apply_rules<R: TextRule>(rules: Seq<R>, text: Seq<char>) -> Option<Seq<char>>
    decreases rules.len(),
{
    if rules.len() == 0 {
        Some(text)
    } else {
        match rules[0].outcome(text) {
            None => None,
            Some(t) => apply_rules(rules.drop_first(), t),
        }
    }
}

/// What is read aloud of `input`: the text after all rules, trimmed; nothing
/// when a rule skips or only white space is left.
pub open spec fn read_text<R: TextRule>(rules: Seq<R>, input: Seq<char>) -> Option<Seq<char>> {
    match apply_rules(rules, input) {
        None => None,
        Some(t) => if trim(t).len() == 0 {
            None
        } else {
            Some(trim(t))
        },
    }
}

/// Applies several `TextRule`s in order.
pub struct RulePipeline<R> {
    rules: Vec<R>,
}

impl<R: TextRule> RulePipeline<R> {
    /// The rules, in the order they are applied.
    pub closed spec fn rules(&self) -> Seq<R> {
        self.rules@
    }

    /// A pipeline applying `rules` in the order of the `Vec`.
    pub fn new(rules: Vec<R>) -> (p: Self)
        ensures
            p.rules() == rules@,
    {
        RulePipeline { rules }
    }

    /// Applies every rule to `input`.
    ///
    /// Returns `None` (do not read) when a rule returns `Skip` or when only
    /// white space is left; otherwise the trimmed result.
    pub fn run(&self, input: &str) -> (r: Option<String>)
        ensures
            r matches Some(s) ==> read_text(self.rules(), input@) == Some(s@),
            r is None ==> read_text(self.rules(), input@) is None,
    {
        let mut current = input.to_owned();
        let n = self.rules.len();
        let mut i: usize = 0;
        assert(self.rules@.skip(0) == self.rules@);
        while i < n
            invariant
                n == self.rules@.len(),
                i <= n,
                apply_rules(self.rules@, input@) == apply_rules(self.rules@.skip(i as int), current@),
            decreases n - i,
        {
            let ghost rest = self.rules@.skip(i as int);
            assert(rest[0] == self.rules@[i as int]);
            assert(rest.drop_first() == self.rules@.skip(i + 1));
            match self.rules[i].apply(current.as_str()) {
                RuleOutcome::Skip => {
                    return None;
                },
                RuleOutcome::Continue(text) => {
                    current = text;
                },
            }
            i = i + 1;
        }
        assert(self.rules@.skip(n as int).len() == 0);
        let trimmed = trim_chars(&chars_of(current.as_str()));
        if trimmed.len() == 0 {
            None
        } else {
            Some(string_of(&trimmed))
        }
    }
}

} // verus!

verus! {

/// What is read aloud is never empty and neither starts nor ends with white
/// space.
pub proof fn lemma_read_text_is_trimmed<R: TextRule>(rules: Seq<R>, input: Seq<char>)
    ensures
        read_text(rules, input) matches Some(t) ==> t.len() > 0 && !is_white_space(t[0])
            && !is_white_space(t.last()),
{
    match apply_rules(rules, input) {
        Some(t) => lemma_trim_bounds(t),
        None => {},
    }
}

/// A pipeline without rules reads the input trimmed, or nothing when it is
/// only white space.
pub proof fn lemma_empty_pipeline_trims<R: TextRule>(rules: Seq<R>, input: Seq<char>)
    requires
        rules.len() == 0,
    ensures
        read_text(rules, input) == if trim(input).len() == 0 {
            None
        } else {
            Some(trim(input))
        },
{
}

} // verus!
