//! Compiled search patterns.

use vstd::prelude::*;
use regex::Regex;

verus! {

/// `regex::Regex`, opaque.
#[verifier::external_type_specification]
#[verifier::external_body]
pub struct ExRegex(Regex);

/// `regex::Error`, opaque.
#[verifier::external_type_specification]
#[verifier::external_body]
pub struct ExRegexError(regex::Error);

/// What `Regex::new` returns for `pattern`.
pub uninterp spec fn regex_compilation(pattern: Seq<char>) -> Result<Regex, regex::Error>;

/// What `Regex::is_match` returns for `regex` on `text`.
pub uninterp spec fn regex_is_match(regex: Regex, text: Seq<char>) -> bool;

/// The pattern is a well-formed expression.
pub open spec fn pattern_is_valid(pattern: Seq<char>) -> bool {
    regex_compilation(pattern) is Ok
}

/// The pattern is well formed and `text` satisfies it.
pub open spec fn pattern_matches(pattern: Seq<char>, text: Seq<char>) -> bool {
    regex_compilation(pattern) matches Ok(regex) && regex_is_match(regex, text)
}

/// `Regex::new`: the outcome of compiling a pattern depends on the pattern
/// alone.
#[verifier::external_body]
fn compile_regex(pattern: &str) -> (r: Result<Regex, regex::Error>)
    ensures
        r == regex_compilation(pattern@),
{
    Regex::new(pattern)
}

/// `Regex::is_match`: whether a text matches depends on the compiled
/// expression and the text alone.
#[verifier::external_body]
fn regex_accepts(regex: &Regex, text: &str) -> (matched: bool)
    ensures
        matched == regex_is_match(*regex, text@),
{
    regex.is_match(text)
}

/// The pattern is not a well-formed expression.
#[derive(Debug, Clone, Copy, PartialEq, Eq)]
pub struct InvalidPatternError {}

/// A pattern, compiled once. Testing a text needs no more than a shared
/// reference, so one matcher serves any number of workers.
pub struct Matcher {
    pattern: String,
    regex: Regex,
}

impl View for Matcher {
    type V = Seq<char>;

    /// The pattern that the matcher was compiled from.
    closed spec fn view(&self) -> Seq<char> {
        self.pattern@
    }
}

impl Matcher {
    #[verifier::type_invariant]
    spec fn inv(self) -> bool {
        regex_compilation(self.pattern@) == Ok::<Regex, regex::Error>(self.regex)
    }

    /// Compiles `pattern`, or fails when it is not well formed.
    pub fn compile(pattern: &str) -> (r: Result<Matcher, InvalidPatternError>)
        ensures
            r is Ok <==> pattern_is_valid(pattern@),
            r matches Ok(matcher) ==> matcher@ == pattern@,
    {
        match compile_regex(pattern) {
            Ok(regex) => Ok(Matcher { pattern: pattern.to_owned(), regex }),
            Err(_) => Err(InvalidPatternError {}),
        }
    }

    /// Whether `address_hex` satisfies the pattern.
    pub fn test(&self, address_hex: &str) -> (matched: bool)
        ensures
            matched == pattern_matches(self@, address_hex@),
    {
        proof {
            use_type_invariant(self);
        }
        regex_accepts(&self.regex, address_hex)
    }

    /// The pattern as it was given.
    pub fn pattern(&self) -> (text: &str)
        ensures
            text@ == self@,
    {
        self.pattern.as_str()
    }
}

} // verus!
