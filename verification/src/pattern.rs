//! Line patterns, matched by the `regex` crate.
//!
//! What a regular expression matches is the `regex` crate's to decide; this
//! module only names those results, so that the rest of the library can say
//! exactly what it does with them.

use vstd::prelude::*;

verus! {

#[verifier::external_type_specification]
#[verifier::external_body]
pub struct ExRegex(regex::Regex);

#[verifier::external_type_specification]
#[verifier::external_body]
pub struct ExRegexError(regex::Error);

/// Whether `regex::Regex::new` accepts `pattern`: the pattern is valid and
/// the compiled regex stays within the crate's default size limit.
pub uninterp spec fn regex_compiles(pattern: Seq<char>) -> bool;

/// What `regex::Regex::captures` gives for the regex compiled from
/// `pattern` on `haystack`: `None` where the regex does not match, and
/// otherwise the text of each capture group of the leftmost-first match, in
/// the order of the groups' opening parentheses (the whole match first),
/// with `None` for a group that took no part in the match.
pub uninterp spec fn regex_captures(pattern: Seq<char>, haystack: Seq<char>) -> Option<
    Seq<Option<Seq<char>>>,
>;

/// A compiled regular expression, kept together with the pattern it was
/// compiled from. Only `compile_pattern` builds one.
pub struct LinePattern {
    re: regex::Regex,
    source: String,
}

impl View for LinePattern {
    type V = Seq<char>;

    /// The pattern the regex was compiled from.
    closed spec fn view(&self) -> Seq<char> {
        self.source@
    }
}

/// Compiles `pattern` with `regex::Regex::new`.
///
/// Trusted: the call succeeds exactly when `regex_compiles` holds of the
/// pattern, and the value it gives is kept with that pattern.
#[verifier::external_body]
pub fn compile_pattern(pattern: &str) -> (r: Result<LinePattern, regex::Error>)
    ensures
        r is Ok <==> regex_compiles(pattern@),
        r matches Ok(p) ==> p@ == pattern@,
{
    match regex::Regex::new(pattern) {
        Ok(re) => Ok(LinePattern { re, source: pattern.to_string() }),
        Err(e) => Err(e),
    }
}

/// Matches `haystack` with `regex::Regex::captures`, and hands out the text
/// of every capture group.
///
/// Trusted: the groups are those that `regex_captures` names for the
/// pattern and the haystack.
#[verifier::external_body]
pub fn captures(p: &LinePattern, haystack: &str) -> (r: Option<Vec<Option<String>>>)
    ensures
        r.deep_view() == regex_captures(p@, haystack@),
{
    match p.re.captures(haystack) {
        Some(caps) => {
            let mut groups: Vec<Option<String>> = Vec::new();
            for m in caps.iter() {
                groups.push(
                    match m {
                        Some(m) => Some(m.as_str().to_string()),
                        None => None,
                    },
                );
            }
            Some(groups)
        },
        None => None,
    }
}

} // verus!
