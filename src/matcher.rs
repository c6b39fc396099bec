use crate::dedup::views;
use vstd::prelude::*;

verus! {

#[verifier::external_type_specification]
#[verifier::external_body]
pub struct ExRegex(regex::Regex);

#[verifier::external_type_specification]
#[verifier::external_body]
pub struct ExRegexError(regex::Error);

/// Whether a pattern compiles to a matcher (valid syntax, within the
/// default size limit).
pub uninterp spec fn pattern_compiles(pattern: Seq<char>) -> bool;

/// The successive non-overlapping matches of a compiled pattern in a text.
pub uninterp spec fn pattern_matches(pattern: Seq<char>, text: Seq<char>) -> Seq<Seq<char>>;

/// Each of `ms` stands in `text`, after the one before it, without
/// overlapping it.
pub open spec fn appear_in_order(text: Seq<char>, ms: Seq<Seq<char>>) -> bool
    decreases ms.len(),
{
    if ms.len() == 0 {
        true
    } else {
        exists|k: int|
            0 <= k && k + ms[0].len() <= text.len() && #[trigger] text.subrange(k, k + ms[0].len())
                == ms[0] && appear_in_order(
                text.subrange(k + ms[0].len(), text.len() as int),
                ms.drop_first(),
            )
    }
}

/// A flag pattern, compiled once and shared by every worker.
pub struct FlagMatcher {
    pattern: String,
    re: regex::Regex,
}

impl View for FlagMatcher {
    type V = Seq<char>;

    closed spec fn view(&self) -> Seq<char> {
        self.pattern@
    }
}

/// Relies on regex::Regex::new: it compiles the pattern, or fails when the
/// pattern is invalid or too large; which of the two depends on the pattern
/// alone.
#[verifier::external_body]
fn compile(pattern: &str) -> (r: Result<regex::Regex, regex::Error>)
    ensures
        r is Ok == pattern_compiles(pattern@),
{
    regex::Regex::new(pattern)
}

/// Relies on regex::Regex::find_iter and regex::Match::as_str: the
/// successive non-overlapping matches, left to right, each the piece of the
/// text that matched. `m.re` is always compiled from `m.pattern`.
#[verifier::external_body]
fn find_all(m: &FlagMatcher, text: &str) -> (r: Vec<String>)
    ensures
        views(r@) == pattern_matches(m.pattern@, text@),
        appear_in_order(text@, views(r@)),
{
    m.re.find_iter(text).map(|x| x.as_str().to_string()).collect()
}

impl FlagMatcher {
    /// Compiles `pattern`; `None` when it does not compile.
    pub fn new(pattern: &str) -> (r: Option<FlagMatcher>)
        ensures
            r is Some == pattern_compiles(pattern@),
            r matches Some(m) ==> m@ == pattern@,
    {
        match compile(pattern) {
            Ok(re) => Some(FlagMatcher { pattern: pattern.to_string(), re }),
            Err(_) => None,
        }
    }

    /// The pattern this matcher was compiled from.
    pub fn pattern(&self) -> (r: &str)
        ensures
            r@ == self@,
    {
        self.pattern.as_str()
    }

    /// The flags in `text`: exactly the pattern's matches, one entry per
    /// match, in the order in which they stand in the text.
    pub fn extract(&self, text: &str) -> (r: Vec<String>)
        ensures
            views(r@) == pattern_matches(self@, text@),
            appear_in_order(text@, views(r@)),
    {
        find_all(self, text)
    }
}

} // verus!
