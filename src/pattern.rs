//! The compiled search pattern and the regex engine behind it.

use vstd::prelude::*;

verus! {

#[verifier::external_type_specification]
#[verifier::external_body]
pub struct ExRegex(regex::Regex);

#[verifier::external_type_specification]
#[verifier::external_body]
pub struct ExRegexError(regex::Error);

/// Whether the regex engine accepts a pattern.
pub uninterp spec fn compiles(pattern: Seq<char>) -> bool;

/// Whether a pattern matches somewhere in a text.
pub uninterp spec fn finds(pattern: Seq<char>, text: Seq<char>) -> bool;

/// The text with the pattern's leftmost-first match replaced by the
/// template, capture references expanded.
pub uninterp spec fn replaced(pattern: Seq<char>, text: Seq<char>, template: Seq<char>) -> Seq<
    char,
>;

/// Relies on `regex::Regex::new`: it fails exactly on patterns the engine
/// rejects, a property of the pattern text alone.
#[verifier::external_body]
fn regex_new(pattern: &str) -> (r: Result<regex::Regex, regex::Error>)
    ensures
        r is Ok <==> compiles(pattern@),
{
    regex::Regex::new(pattern)
}

/// A pattern that compiled, together with its text.
pub struct Pattern {
    re: regex::Regex,
    source: String,
}

impl View for Pattern {
    type V = Seq<char>;

    /// The text the pattern was compiled from.
    closed spec fn view(&self) -> Seq<char> {
        self.source@
    }
}

/// Relies on `regex::Regex::is_match`: true if and only if the regex matches
/// anywhere in the text. A `Pattern` is only built by `Pattern::new`, so its
/// regex is the one compiled from `p@`.
#[verifier::external_body]
fn regex_is_match(p: &Pattern, text: &str) -> (r: bool)
    ensures
        r == finds(p@, text@),
{
    p.re.is_match(text)
}

/// Relies on `regex::Regex::replace`: the leftmost-first match is replaced by
/// the expanded template, and a text without a match comes back unchanged.
/// A `Pattern` is only built by `Pattern::new`, so its regex is the one
/// compiled from `p@`.
#[verifier::external_body]
fn regex_replace(p: &Pattern, text: &str, template: &str) -> (r: String)
    ensures
        r@ == replaced(p@, text@, template@),
        !finds(p@, text@) ==> r@ == text@,
{
    p.re.replace(text, template).into_owned()
}

impl Pattern {
    /// Compiles a pattern; fails with the engine's error on a pattern it
    /// rejects.
    pub fn new(text: &str) -> (r: Result<Pattern, regex::Error>)
        ensures
            r is Ok <==> compiles(text@),
            r matches Ok(p) ==> p@ == text@,
    {
        match regex_new(text) {
            Ok(re) => Ok(Pattern { re, source: text.to_owned() }),
            Err(e) => Err(e),
        }
    }

    /// Whether the pattern matches anywhere in `text`.
    pub fn find(&self, text: &str) -> (r: bool)
        ensures
            r == finds(self@, text@),
    {
        regex_is_match(self, text)
    }

    /// `text` with the first match replaced by `template`, capture
    /// references expanded; `text` itself where nothing matches.
    pub fn substitute(&self, text: &str, template: &str) -> (r: String)
        ensures
            r@ == replaced(self@, text@, template@),
            !finds(self@, text@) ==> r@ == text@,
    {
        regex_replace(self, text, template)
    }
}

} // verus!
