//! Filter patterns: regular expressions, compiled and matched by the `regex`
//! crate.

use vstd::prelude::*;
use crate::err::SensuError;

verus! {

#[verifier::external_type_specification]
#[verifier::external_body]
pub struct ExRegex(regex::Regex);

/// The pattern text that a compiled expression holds (`Regex::as_str`).
pub uninterp spec fn regex_source(re: regex::Regex) -> Seq<char>;

/// The two limits that a compiled expression was built under: that on the
/// size of the compiled program and that on the cache of the lazy
/// automaton, in bytes.
pub uninterp spec fn regex_limits(re: regex::Regex) -> (usize, usize);

/// Whether a compiled expression has a match anywhere in `text`.
pub uninterp spec fn regex_accepts(re: regex::Regex, text: Seq<char>) -> bool;

/// The limit on the size of a compiled pattern, in bytes.
pub const SIZE_LIMIT: usize = 8192;

/// The limit on the cache of the matcher's lazy automaton, in bytes.
pub const DFA_SIZE_LIMIT: usize = 8192;

/// `RegexBuilder::new(pattern).size_limit(..).dfa_size_limit(..).build()`,
/// a failure by its message. Trusted: an expression that comes back holds
/// `pattern` as its text and was built under the two limits that were
/// handed in. Nothing is claimed about when compiling fails:
/// that depends on the pattern's syntax and on how large the compiled
/// program is on this machine.
#[verifier::external_body]
fn compile(pattern: &str, size_limit: usize, dfa_size_limit: usize) -> (r: Result<
    regex::Regex,
    String,
>)
    ensures
        r matches Ok(re) ==> regex_source(re) == pattern@ && regex_limits(re) == (
            size_limit,
            dfa_size_limit,
        ),
{
    match regex::RegexBuilder::new(pattern).size_limit(size_limit).dfa_size_limit(
        dfa_size_limit,
    ).build() {
        Ok(re) => Ok(re),
        Err(e) => Err(e.to_string()),
    }
}

/// `Regex::is_match`. Trusted: the answer is the one that `regex_accepts`
/// names for the expression and `text`.
#[verifier::external_body]
fn is_match(re: &regex::Regex, text: &str) -> (b: bool)
    ensures
        b == regex_accepts(*re, text@),
{
    re.is_match(text)
}

/// A compiled filter pattern.
#[derive(Debug)]
pub struct Pattern {
    regex: regex::Regex,
}

impl Pattern {
    /// The pattern's text.
    pub closed spec fn source(&self) -> Seq<char> {
        regex_source(self.regex)
    }

    /// The limits that the pattern was compiled under: on the size of the
    /// compiled program, and on the cache of the lazy automaton.
    pub closed spec fn limits(&self) -> (usize, usize) {
        regex_limits(self.regex)
    }

    /// Whether the pattern has a match anywhere in `text`.
    pub closed spec fn accepts(&self, text: Seq<char>) -> bool {
        regex_accepts(self.regex, text)
    }

    /// Compiles `pattern` under the size limits. A pattern that is refused
    /// gives the failure that carries the compiler's message.
    pub fn compile(pattern: &str) -> (r: Result<Pattern, SensuError>)
        ensures
            match r {
                Ok(p) => p.source() == pattern@ && p.limits() == (SIZE_LIMIT, DFA_SIZE_LIMIT),
                Err(e) => e@ is Message,
            },
    {
        match compile(pattern, SIZE_LIMIT, DFA_SIZE_LIMIT) {
            Ok(regex) => Ok(Pattern { regex }),
            Err(message) => Err(SensuError::new_string(message)),
        }
    }

    /// Compiles the pattern that the operator gave, or the pattern `.*`,
    /// which matches everything, where none was given.
    pub fn compile_or_any(pattern: &Option<String>) -> (r: Result<Pattern, SensuError>)
        ensures
            match r {
                Ok(p) => p.limits() == (SIZE_LIMIT, DFA_SIZE_LIMIT) && p.source() == match pattern {
                    Some(text) => text@,
                    None => ".*"@,
                },
                Err(e) => e@ is Message,
            },
    {
        match pattern {
            Some(text) => Pattern::compile(text.as_str()),
            None => Pattern::compile(".*"),
        }
    }

    /// Whether the pattern has a match anywhere in `text`.
    pub fn is_match(&self, text: &str) -> (b: bool)
        ensures
            b == self.accepts(text@),
    {
        is_match(&self.regex, text)
    }
}

} // verus!
