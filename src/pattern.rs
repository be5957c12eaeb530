//! The head-branch pattern: a regular expression that the head branch of a
//! pull request has to match.
use vstd::prelude::*;

verus! {

#[verifier::external_type_specification]
#[verifier::external_body]
pub struct ExRegex(regex::Regex);

#[verifier::external_type_specification]
#[verifier::external_body]
pub struct ExRegexError(regex::Error);

/// Whether `pattern` compiles to a regular expression under the default
/// limits of the regex crate.
pub uninterp spec fn regex_accepts(pattern: Seq<char>) -> bool;

/// Whether the regular expression `pattern` matches somewhere in `haystack`.
pub uninterp spec fn regex_finds(pattern: Seq<char>, haystack: Seq<char>) -> bool;

/// Relies on `regex::Regex::new`: it succeeds exactly on the patterns that
/// are valid and fit the default size limit, which depends on the pattern
/// alone.
#[verifier::external_body]
fn compile(pattern: &str) -> (r: Result<regex::Regex, regex::Error>)
    ensures
        r is Ok <==> regex_accepts(pattern@),
{
    regex::Regex::new(pattern)
}

/// Relies on `regex::Regex::is_match`: whether the expression compiled from
/// `p`'s source matches anywhere in `haystack`.
#[verifier::external_body]
fn find_in(p: &HeadPattern, haystack: &str) -> (r: bool)
    ensures
        r == regex_finds(p.pattern(), haystack@),
{
    p.re.is_match(haystack)
}

/// A compiled head-branch pattern together with its source text.
#[derive(Debug)]
pub struct HeadPattern {
    re: regex::Regex,
    source: String,
}

impl HeadPattern {
    /// The source text of the pattern.
    pub closed spec fn pattern(&self) -> Seq<char> {
        self.source@
    }

    /// Compiles `pattern`; fails exactly when the regex crate refuses it.
    pub fn new(pattern: &str) -> (r: Result<HeadPattern, String>)
        ensures
            r is Ok <==> regex_accepts(pattern@),
            r matches Ok(p) ==> p.pattern() == pattern@,
            r matches Err(e) ==> e@ == "a valid regex is needed"@,
    {
        match compile(pattern) {
            Ok(re) => Ok(HeadPattern { re, source: pattern.to_string() }),
            Err(_) => Err(String::from_str("a valid regex is needed")),
        }
    }

    /// Whether the pattern matches `head`.
    pub fn is_match(&self, head: &str) -> (r: bool)
        ensures
            r == regex_finds(self.pattern(), head@),
    {
        find_in(self, head)
    }

    /// The source text of the pattern.
    pub fn as_str(&self) -> (r: &str)
        ensures
            r@ == self.pattern(),
    {
        self.source.as_str()
    }
}

} // verus!
