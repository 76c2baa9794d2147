//! Matching text against a regular expression.

use vstd::prelude::*;

verus! {

#[verifier::external_type_specification]
#[verifier::external_body]
pub struct ExRegexError(regex::Error);

/// Whether `regex::Regex::new` accepts `pattern`: the pattern is well
/// formed and what it compiles to stays within the limit on size that
/// `Regex::new` sets.
pub uninterp spec fn pattern_accepted(pattern: Seq<char>) -> bool;

/// What the first match of the regular expression `pattern` in `haystack`
/// captures in its group named `group`: `None` where the pattern matches
/// nowhere; `Some(None)` where it matches and the group took no part, or
/// where the pattern has no group of that name; else the text that the
/// group matched.
pub uninterp spec fn named_capture(
    pattern: Seq<char>,
    group: Seq<char>,
    haystack: Seq<char>,
) -> Option<Option<Seq<char>>>;

/// Compiles `pattern` with `regex::Regex::new`, searches `haystack` with
/// `Regex::captures` and reads the group with `Captures::name`. Nothing is
/// proved of it. The contract claims that it fails exactly where
/// `Regex::new` refuses the pattern, which `pattern_accepted` names, and
/// that the answer is else the one that these calls give for the three
/// texts, which `named_capture` names.
#[verifier::external_body]
pub(crate) fn capture_named(pattern: &str, group: &str, haystack: &str) -> (r: Result<
    Option<Option<String>>,
    regex::Error,
>)
    ensures
        r is Ok <==> pattern_accepted(pattern@),
        r matches Ok(found) ==> found.deep_view() == named_capture(pattern@, group@, haystack@),
{
    let re = regex::Regex::new(pattern)?;
    Ok(re.captures(haystack).map(|caps| caps.name(group).map(|m| m.as_str().to_string())))
}

} // verus!
