//! Regular expressions, compiled by the `regex` crate, known by their source text.

use vstd::prelude::*;
use vstd::string::*;

verus! {

/// `regex::Regex`, a compiled regular expression
#[verifier::external_type_specification]
#[verifier::external_body]
pub struct ExRegex(regex::Regex);

/// Whether `regex::Regex::new` compiles the pattern.
pub uninterp spec fn regex_compiles(pattern: Seq<char>) -> bool;

/// Whether the regular expression compiled from `pattern` matches somewhere in `text`.
pub uninterp spec fn regex_is_match(pattern: Seq<char>, text: Seq<char>) -> bool;

/// `regex::Regex::new`: compiles the pattern, or fails; which of the two
/// `regex_compiles` names.
#[verifier::external_body]
fn compile(pattern: &str) -> (r: Option<regex::Regex>)
    ensures
        r is Some <==> regex_compiles(pattern@),
{
    regex::Regex::new(pattern).ok()
}

/// A regular expression together with the pattern it was compiled from
#[derive(Debug)]
pub struct Pattern {
    source: String,
    regex: regex::Regex,
}

/// `regex::Regex::is_match` on the expression of a pattern, which `Pattern::new`
/// compiled from the pattern's source: whether it matches somewhere in `text`,
/// as `regex_is_match` names it.
#[verifier::external_body]
fn pattern_is_match(pattern: &Pattern, text: &str) -> (b: bool)
    ensures
        b == regex_is_match(pattern@, text@),
{
    pattern.regex.is_match(text)
}

impl View for Pattern {
    type V = Seq<char>;

    /// The pattern the expression was compiled from.
    closed spec fn view(&self) -> Seq<char> {
        self.source@
    }
}

impl Pattern {
    /// Compile a pattern
    pub fn new(source: &str) -> (r: Option<Pattern>)
        ensures
            r is Some <==> regex_compiles(source@),
            r matches Some(p) ==> p@ == source@,
    {
        match compile(source) {
            Some(regex) => Some(Pattern { source: String::from_str(source), regex }),
            None => None,
        }
    }

    /// Whether the expression matches somewhere in `text`
    pub fn is_match(&self, text: &str) -> (b: bool)
        ensures
            b == regex_is_match(self@, text@),
    {
        pattern_is_match(self, text)
    }

    /// The pattern the expression was compiled from, as its `Display` writes it
    pub fn as_str(&self) -> (s: &str)
        ensures
            s@ == self@,
    {
        self.source.as_str()
    }
}

} // verus!
