//! Testing a candidate string against one ban, or against a list of bans.

use vstd::prelude::*;

use regex::Regex;

use crate::rule::Ban;
use crate::text::{contains, is_substring};

verus! {

#[verifier::external_type_specification]
#[verifier::external_body]
pub struct ExRegex(regex::Regex);

/// Whether `pattern` compiles as a regular expression.
pub uninterp spec fn regex_compiles(pattern: Seq<char>) -> bool;

/// Whether the regular expression `pattern` matches somewhere in `text`.
pub uninterp spec fn regex_finds(pattern: Seq<char>, text: Seq<char>) -> bool;

/// Relies on regex::Regex::new: it returns `Ok` exactly when the pattern is a
/// valid regular expression (within the crate's default size limits).
#[verifier::external_body]
fn compile_regex(pattern: &str) -> (r: Option<Regex>)
    ensures
        r is Some <==> regex_compiles(pattern@),
{
    Regex::new(pattern).ok()
}

/// A regular expression together with the pattern it was compiled from.
pub struct CompiledPattern {
    regex: Regex,
    source: Ghost<Seq<char>>,
}

impl CompiledPattern {
    /// The pattern this regular expression was compiled from.
    pub closed spec fn source(&self) -> Seq<char> {
        self.source@
    }

    /// Compiles `pattern`; `None` when it is not a valid regular expression.
    pub fn compile(pattern: &str) -> (r: Option<CompiledPattern>)
        ensures
            r is Some <==> regex_compiles(pattern@),
            r matches Some(p) ==> p.source() == pattern@,
    {
        match compile_regex(pattern) {
            Some(regex) => Some(CompiledPattern { regex, source: Ghost(pattern@) }),
            None => None,
        }
    }

    /// Relies on regex::Regex::captures: it returns `Some` exactly when the
    /// regular expression matches somewhere in `text`. The regex held here was
    /// compiled from `source`, as only `compile` builds a `CompiledPattern`.
    #[verifier::external_body]
    fn search(&self, text: &str) -> (r: bool)
        ensures
            r == regex_finds(self.source(), text@),
    {
        self.regex.captures(text).is_some()
    }
}

/// Whether `rule` fires on `candidate`: a plain rule when its pattern occurs in
/// the candidate, a regular-expression rule when its pattern compiles and
/// matches somewhere in the candidate.
pub open spec fn rule_matches(rule: Ban, candidate: Seq<char>) -> bool {
    if rule.regex {
        regex_compiles(rule.content@) && regex_finds(rule.content@, candidate)
    } else {
        is_substring(candidate, rule.content@)
    }
}

/// Whether some rule of `rules` fires on `candidate`.
pub open spec fn any_rule_matches(rules: Seq<Ban>, candidate: Seq<char>) -> bool {
    exists|i: int| 0 <= i < rules.len() && #[trigger] rule_matches(rules[i], candidate)
}

/// Whether `rule` fires on `candidate`. A pattern that does not compile never
/// fires.
pub fn matches_rule(rule: &Ban, candidate: &str) -> (r: bool)
    ensures
        r == rule_matches(*rule, candidate@),
{
    if !rule.regex {
        return contains(candidate, rule.content.as_str());
    }
    match CompiledPattern::compile(rule.content.as_str()) {
        Some(p) => p.search(candidate),
        None => false,
    }
}

/// Whether some rule of `rules` fires on `candidate`, stopping at the first.
pub fn matches_any(rules: &Vec<Ban>, candidate: &str) -> (r: bool)
    ensures
        r == any_rule_matches(rules@, candidate@),
{
    let mut i: usize = 0;
    while i < rules.len()
        invariant
            i <= rules@.len(),
            forall|j: int| 0 <= j < i ==> !rule_matches(#[trigger] rules@[j], candidate@),
        decreases rules@.len() - i,
    {
        if matches_rule(&rules[i], candidate) {
            return true;
        }
        i = i + 1;
    }
    false
}

} // verus!
