//! The exclusion rules: patterns that name the windows in which a selection
//! is left alone.

use vstd::prelude::*;
use vstd::string::StringExecFns;
use crate::text::{contains, has_infix, lowercase, texts_of, to_lowercase};

verus! {

/// What is put before a rule to make the regular expression that ignores
/// case.
pub const IGNORE_CASE: &'static str = "(?i)";

/// What the `regex` crate makes of `pattern` and `text`: `None` where
/// `pattern` does not compile to a regular expression, else whether the
/// expression matches anywhere in `text`.
pub uninterp spec fn regex_search(pattern: Seq<char>, text: Seq<char>) -> Option<bool>;

/// Compiles `pattern` with `regex::Regex::new` and, where that succeeds, asks
/// `Regex::is_match` whether the expression is found in `text`. Both depend on
/// their arguments alone.
#[verifier::external_body]
fn search(pattern: &str, text: &str) -> (r: Option<bool>)
    ensures
        r == regex_search(pattern@, text@),
{
    match regex::Regex::new(pattern) {
        Ok(expression) => Some(expression.is_match(text)),
        Err(_) => None,
    }
}

/// Whether a rule applies to `text`, given what the search for the rule as a
/// regular expression brought: where the rule is an expression, whether it
/// was found; where it is none, whether the rule in lowercase occurs in the
/// text in lowercase.
pub open spec fn rule_verdict(found: Option<bool>, text: Seq<char>, rule: Seq<char>) -> bool {
    match found {
        Some(found) => found,
        None => has_infix(lowercase(text), lowercase(rule)),
    }
}

/// Whether `rule` applies to `text`: as a regular expression that ignores
/// case or, where it is no regular expression, as plain text that ignores
/// case.
pub open spec fn rule_matches(text: Seq<char>, rule: Seq<char>) -> bool {
    rule_verdict(regex_search(IGNORE_CASE@ + rule, text), text, rule)
}

/// Decides whether `rule` applies to `text` once the search for it as a
/// regular expression has brought `found`.
pub fn rule_applies(found: Option<bool>, text: &str, rule: &str) -> (r: bool)
    ensures
        r == rule_verdict(found, text@, rule@),
{
    match found {
        Some(found) => found,
        None => {
            let text = to_lowercase(text);
            let rule = to_lowercase(rule);
            contains(text.as_str(), rule.as_str())
        },
    }
}

/// Whether `pattern` applies to `text`.
pub fn contains_text_or_regex_ignore_case(text: &str, pattern: &str) -> (r: bool)
    ensures
        r == rule_matches(text@, pattern@),
{
    let expression = String::from_str(IGNORE_CASE).concat(pattern);
    let found = search(expression.as_str(), text);
    rule_applies(found, text, pattern)
}

/// `at` is the first of `rules` that applies to `text`.
pub open spec fn first_hit(text: Seq<char>, rules: Seq<Seq<char>>, at: int) -> bool {
    &&& 0 <= at < rules.len()
    &&& rule_matches(text, rules[at])
    &&& forall|i: int| 0 <= i < at ==> !rule_matches(text, #[trigger] rules[i])
}

/// None of `rules` applies to `text`.
pub open spec fn no_hit(text: Seq<char>, rules: Seq<Seq<char>>) -> bool {
    forall|i: int| 0 <= i < rules.len() ==> !rule_matches(text, #[trigger] rules[i])
}

/// The position of the first rule that applies to `text`.
pub fn first_matching_rule(text: &str, rules: &Vec<String>) -> (r: Option<usize>)
    ensures
        match r {
            Some(at) => first_hit(text@, texts_of(rules@), at as int),
            None => no_hit(text@, texts_of(rules@)),
        },
{
    let mut i: usize = 0;
    while i < rules.len()
        invariant
            i <= rules.len(),
            forall|j: int|
                0 <= j < i ==> !rule_matches(text@, #[trigger] texts_of(rules@)[j]),
        decreases rules.len() - i,
    {
        if contains_text_or_regex_ignore_case(text, rules[i].as_str()) {
            return Some(i);
        }
        i += 1;
    }
    None
}

} // verus!
