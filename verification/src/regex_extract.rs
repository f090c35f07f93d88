//! Extracting one capture group of a regular expression from a text.
use vstd::prelude::*;
use regex::Regex;
use crate::text::{contains_seq, opt_view};

verus! {

#[verifier::external_type_specification]
#[verifier::external_body]
pub struct ExRegex(regex::Regex);

#[verifier::external_type_specification]
#[verifier::external_body]
pub struct ExRegexError(regex::Error);

/// Whether `regex` accepts the pattern (its syntax is valid and it compiles
/// within the default size limits).
pub uninterp spec fn regex_compiles(pattern: Seq<char>) -> bool;

/// The text of capture group `group` of the leftmost-first match of `pattern`
/// in `text`: `None` if there is no match or the group did not take part.
pub uninterp spec fn regex_capture(pattern: Seq<char>, text: Seq<char>, group: nat) -> Option<
    Seq<char>,
>;

/// `Regex::new`: succeeds exactly on the patterns that compile.
#[verifier::external_body]
fn compile_regex(pattern: &str) -> (compiled: Result<Regex, regex::Error>)
    ensures
        compiled is Ok == regex_compiles(pattern@),
{
    Regex::new(pattern)
}

/// `Regex::clone`: a copy of the compiled expression (nothing is stated of it).
pub assume_specification[ <regex::Regex as Clone>::clone ](re: &Regex) -> Regex;

/// Why a `RegexExtract` could not be built.
#[derive(Debug, PartialEq)]
pub enum RegexExtractError {
    /// The pattern is not a valid regular expression: the error `Regex::new`
    /// reported for it.
    InvalidPattern(regex::Error),
}

/// A compiled pattern and the capture group to extract with it.
#[derive(Debug, Clone)]
pub struct RegexExtract {
    re: Regex,
    pattern: String,
    group_position: usize,
}

/// `Regex::captures` followed by `Captures::get` on the extractor's group: the
/// text of that group in the first match. The text is part of the haystack.
#[verifier::external_body]
fn capture_group(extract: &RegexExtract, text: &str) -> (group: Option<String>)
    ensures
        opt_view(group) == regex_capture(extract.source(), text@, extract.group() as nat),
        group matches Some(g) ==> contains_seq(text@, g@),
{
    extract.re.captures(text).and_then(|c| c.get(extract.group_position)).map(
        |m| m.as_str().to_string(),
    )
}

impl RegexExtract {
    /// The pattern the expression was compiled from.
    pub closed spec fn source(&self) -> Seq<char> {
        self.pattern@
    }

    /// The capture group that is extracted.
    pub closed spec fn group(&self) -> usize {
        self.group_position
    }

    /// Compiles the pattern; fails exactly when it is not a valid regular
    /// expression, with the error `Regex::new` gave.
    pub fn new(pattern: String, group_position: usize) -> (extract: Result<Self, RegexExtractError>)
        ensures
            match extract {
                Ok(e) => {
                    &&& regex_compiles(pattern@)
                    &&& e.source() == pattern@
                    &&& e.group() == group_position
                },
                Err(err) => !regex_compiles(pattern@) && err is InvalidPattern,
            },
    {
        match compile_regex(pattern.as_str()) {
            Ok(re) => Ok(RegexExtract { re, pattern, group_position }),
            Err(error) => Err(RegexExtractError::InvalidPattern(error)),
        }
    }

    /// The pattern and the group position.
    pub fn extract(&self) -> (parts: (String, usize))
        ensures
            parts.0@ == self.source(),
            parts.1 == self.group(),
    {
        (self.pattern.clone(), self.group_position)
    }

    /// The capture group that is extracted.
    pub fn group_position(&self) -> (group: usize)
        ensures
            group == self.group(),
    {
        self.group_position
    }

    /// The text of the capture group in the first match, `None` if there is no
    /// match or the group did not take part in it.
    pub fn extract_group(&self, text: &str) -> (group: Option<String>)
        ensures
            opt_view(group) == regex_capture(self.source(), text@, self.group() as nat),
            group matches Some(g) ==> contains_seq(text@, g@),
    {
        capture_group(self, text)
    }
}

} // verus!
