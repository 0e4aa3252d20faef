//! Regular expressions, from the `regex` crate.  What a pattern matches takes
//! the whole regex grammar to state, so the results are named here and the
//! logic around them is stated over those names.
use vstd::prelude::*;

verus! {

#[verifier::external_type_specification]
#[verifier::external_body]
pub struct ExRegex(regex::Regex);

/// The message of the error `regex::Regex::new` returns for `pattern`, or
/// `None` when it compiles the pattern.
pub uninterp spec fn regex_compile_error(pattern: Seq<char>) -> Option<Seq<char>>;

/// The text of the first (leftmost) match of `pattern` in `haystack`, as
/// `regex::Regex::find` reports it, or `None`.
pub uninterp spec fn regex_first_match(pattern: Seq<char>, haystack: Seq<char>) -> Option<
    Seq<char>,
>;

/// The texts of the successive non-overlapping matches of `pattern` in
/// `haystack`, as `regex::Regex::find_iter` yields them.
pub uninterp spec fn regex_all_matches(pattern: Seq<char>, haystack: Seq<char>) -> Seq<Seq<char>>;

/// A compiled regular expression, with the pattern it was compiled from.
pub struct Pattern {
    re: regex::Regex,
    source: Ghost<Seq<char>>,
}

impl View for Pattern {
    type V = Seq<char>;

    /// The pattern this regular expression was compiled from.
    closed spec fn view(&self) -> Seq<char> {
        self.source@
    }
}

/// `regex::Regex::new`: compiles `pattern`, or gives the message of the
/// error (`Display` of `regex::Error`).  Whether it compiles, and the message,
/// are named by `regex_compile_error`.
#[verifier::external_body]
pub(crate) fn compile(pattern: &str) -> (r: Result<Pattern, String>)
    ensures
        r is Ok <==> regex_compile_error(pattern@) is None,
        r matches Ok(p) ==> p@ == pattern@,
        r matches Err(e) ==> regex_compile_error(pattern@) == Some(e@),
{
    match regex::Regex::new(pattern) {
        Ok(re) => Ok(Pattern { re, source: Ghost(pattern@) }),
        Err(err) => Err(err.to_string()),
    }
}

/// `regex::Regex::find`, read back as the matched text.  The match is named
/// by `regex_first_match`; the crate documents it as a substring of the
/// haystack, which this contract does not restate.
#[verifier::external_body]
pub(crate) fn first_match(p: &Pattern, haystack: &str) -> (r: Option<String>)
    ensures
        match regex_first_match(p@, haystack@) {
            Some(m) => r matches Some(t) && t@ == m,
            None => r is None,
        },
{
    match p.re.find(haystack) {
        Some(m) => Some(m.as_str().to_string()),
        None => None,
    }
}

/// `regex::Regex::find_iter`, read back as the matched texts in order; they
/// are named by `regex_all_matches`.
#[verifier::external_body]
pub(crate) fn all_matches(p: &Pattern, haystack: &str) -> (r: Vec<String>)
    ensures
        r@.map_values(|s: String| s@) == regex_all_matches(p@, haystack@),
{
    p.re.find_iter(haystack).map(|m| m.as_str().to_string()).collect()
}

} // verus!
