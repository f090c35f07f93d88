//! Matching a search text against track names.
use vstd::prelude::*;
use fuzzy_matcher::FuzzyMatcher;
use fuzzy_matcher::skim::SkimMatcherV2;
use std::time::Duration;
use crate::text::{ascii_lower, ascii_lower_seq, chars_of, contains_chars, contains_seq, lower_chars};

verus! {

/// Whether two characters match, exactly or ignoring ASCII case.
pub open spec fn chars_match(a: char, b: char, case_sensitive: bool) -> bool {
    if case_sensitive {
        a == b
    } else {
        ascii_lower(a) == ascii_lower(b)
    }
}

/// The pattern's characters occur in the choice in order (not necessarily
/// adjacent), each matched to the earliest possible character.
pub open spec fn in_order_match(choice: Seq<char>, pattern: Seq<char>, case_sensitive: bool) -> bool
    decreases choice.len(),
{
    if pattern.len() == 0 {
        true
    } else if choice.len() == 0 {
        false
    } else if chars_match(choice[0], pattern[0], case_sensitive) {
        in_order_match(choice.drop_first(), pattern.drop_first(), case_sensitive)
    } else {
        in_order_match(choice.drop_first(), pattern, case_sensitive)
    }
}

/// The text holds an ASCII upper-case letter.
pub open spec fn has_ascii_upper(s: Seq<char>) -> bool {
    exists|i: int| 0 <= i < s.len() && 'A' <= #[trigger] s[i] && s[i] <= 'Z'
}

/// Whether the default skim matcher finds the pattern in the choice: the empty
/// pattern always matches; otherwise the pattern's characters must occur in
/// order, compared case-sensitively when the pattern holds an ASCII upper-case
/// letter and ignoring ASCII case otherwise ("smart case").
pub open spec fn skim_matches(choice: Seq<char>, pattern: Seq<char>) -> bool {
    pattern.len() == 0 || in_order_match(choice, pattern, has_ascii_upper(pattern))
}

/// `SkimMatcherV2::default().fuzzy_match(choice, pattern)`: a score exactly when
/// the matcher finds the pattern in the choice.
#[verifier::external_body]
fn skim_fuzzy_match(choice: &str, pattern: &str) -> (score: Option<i64>)
    ensures
        score is Some == skim_matches(choice@, pattern@),
{
    SkimMatcherV2::default().fuzzy_match(choice, pattern)
}

/// Fuzzy search: the search text's characters occur in order in the value
/// (smart case, see `skim_matches`).
pub fn search_match_fuzzy(search: &str, value: &str) -> (found: bool)
    ensures
        found == skim_matches(value@, search@),
{
    skim_fuzzy_match(value, search).is_some()
}

/// Exact search: the search text occurs in the value.
pub fn search_match_exact(search: &str, value: &str) -> (found: bool)
    ensures
        found == contains_seq(value@, search@),
{
    let haystack = chars_of(value);
    let needle = chars_of(search);
    contains_chars(&haystack, &needle)
}

/// Case-insensitive search: the search text occurs in the value once both are
/// lower-cased (ASCII letters only).
pub fn search_match_exact_lower(search: &str, value: &str) -> (found: bool)
    ensures
        found == contains_seq(ascii_lower_seq(value@), ascii_lower_seq(search@)),
{
    let haystack = lower_chars(&chars_of(value));
    let needle = lower_chars(&chars_of(search));
    contains_chars(&haystack, &needle)
}

/// How a search text is matched against track names.
#[derive(Debug, Clone, Copy, PartialEq, Eq, Structural)]
pub enum SearchMatchingStrategy {
    Fuzzy,
    ContainsExact,
    ContainsLowercase,
}

impl Default for SearchMatchingStrategy {
    fn default() -> (strategy: Self)
        ensures
            strategy == SearchMatchingStrategy::Fuzzy,
    {
        SearchMatchingStrategy::Fuzzy
    }
}

/// Whether the search text matches the value under a strategy.
pub open spec fn strategy_matches(
    strategy: SearchMatchingStrategy,
    search: Seq<char>,
    value: Seq<char>,
) -> bool {
    match strategy {
        SearchMatchingStrategy::Fuzzy => skim_matches(value, search),
        SearchMatchingStrategy::ContainsExact => contains_seq(value, search),
        SearchMatchingStrategy::ContainsLowercase => contains_seq(
            ascii_lower_seq(value),
            ascii_lower_seq(search),
        ),
    }
}

/// The name shown for a strategy.
pub open spec fn strategy_label(strategy: SearchMatchingStrategy) -> Seq<char> {
    match strategy {
        SearchMatchingStrategy::Fuzzy => "Fuzzy"@,
        SearchMatchingStrategy::ContainsExact => "Contains (exact)"@,
        SearchMatchingStrategy::ContainsLowercase => "Contains (lowercase)"@,
    }
}

/// A search predicate, fixed to one strategy.
#[derive(Debug, Clone, Copy)]
pub struct Matcher {
    strategy: SearchMatchingStrategy,
}

impl Matcher {
    /// The strategy this matcher applies.
    pub closed spec fn strategy(&self) -> SearchMatchingStrategy {
        self.strategy
    }

    /// Whether the search text matches the value.
    pub fn matches(&self, search: &str, value: &str) -> (found: bool)
        ensures
            found == strategy_matches(self.strategy(), search@, value@),
    {
        match self.strategy {
            SearchMatchingStrategy::Fuzzy => search_match_fuzzy(search, value),
            SearchMatchingStrategy::ContainsExact => search_match_exact(search, value),
            SearchMatchingStrategy::ContainsLowercase => search_match_exact_lower(search, value),
        }
    }
}

impl SearchMatchingStrategy {
    /// The search predicate of this strategy.
    pub fn get_matcher(&self) -> (matcher: Matcher)
        ensures
            matcher.strategy() == *self,
    {
        Matcher { strategy: *self }
    }

    /// The name shown for this strategy.
    pub fn label(&self) -> (text: &'static str)
        ensures
            text@ == strategy_label(*self),
    {
        match self {
            SearchMatchingStrategy::Fuzzy => "Fuzzy",
            SearchMatchingStrategy::ContainsExact => "Contains (exact)",
            SearchMatchingStrategy::ContainsLowercase => "Contains (lowercase)",
        }
    }
}

/// Search settings.
#[derive(Debug, Clone, Copy)]
pub struct SearchConfig {
    pub strategy: SearchMatchingStrategy,
}

impl Default for SearchConfig {
    fn default() -> (config: Self)
        ensures
            config.strategy == SearchMatchingStrategy::Fuzzy,
    {
        SearchConfig { strategy: SearchMatchingStrategy::Fuzzy }
    }
}

/// The state of the track search box.
#[derive(Debug, Clone)]
pub struct TrackSearch {
    pub text: String,
    pub previous_text: Option<String>,
    pub changed: bool,
    pub focused: bool,
    pub focus_requested: bool,
    pub duration: Option<Duration>,
    pub yielded_results: usize,
    pub matcher: Matcher,
}

impl TrackSearch {
    /// An empty search that matches with the configured strategy.
    pub fn new(config: &SearchConfig) -> (search: Self)
        ensures
            search.text@ == Seq::<char>::empty(),
            search.previous_text is None,
            !search.changed,
            !search.focused,
            !search.focus_requested,
            search.duration is None,
            search.yielded_results == 0,
            search.matcher.strategy() == config.strategy,
    {
        TrackSearch {
            text: String::new(),
            previous_text: None,
            changed: false,
            focused: false,
            focus_requested: false,
            duration: None,
            yielded_results: 0,
            matcher: config.strategy.get_matcher(),
        }
    }

    /// Whether a track with this name is listed: everything is listed while the
    /// search text is empty, otherwise what the matcher accepts.
    pub fn accepts(&self, name: &str) -> (listed: bool)
        ensures
            listed == listed_by(*self, name@),
    {
        let text = self.text.as_str();
        if text.is_empty() {
            true
        } else {
            self.matcher.matches(text, name)
        }
    }
}

/// Whether the search lists a track of this name.
pub open spec fn listed_by(search: TrackSearch, name: Seq<char>) -> bool {
    search.text@.len() == 0 || strategy_matches(search.matcher.strategy(), search.text@, name)
}

/// The empty search text is found in every value, by every strategy.
pub proof fn lemma_empty_search_matches(strategy: SearchMatchingStrategy, value: Seq<char>)
    ensures
        strategy_matches(strategy, Seq::<char>::empty(), value),
{
    let empty = Seq::<char>::empty();
    assert(value.subrange(0, 0) =~= empty);
    assert(crate::text::occurs_at(value, empty, 0));
    assert(ascii_lower_seq(empty) =~= empty);
    assert(ascii_lower_seq(value).subrange(0, 0) =~= empty);
    assert(crate::text::occurs_at(ascii_lower_seq(value), ascii_lower_seq(empty), 0));
}

} // verus!
