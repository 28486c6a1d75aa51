//! Regular-expression search, as the matcher needs it.

use vstd::prelude::*;

verus! {

/// What a case-insensitive search for `pattern` anywhere in `text` gives:
/// `None` where the pattern is no valid regular expression, else whether it
/// matches somewhere in the text.
pub uninterp spec fn pattern_search(pattern: Seq<char>, text: Seq<char>) -> Option<bool>;

/// Whether `pattern` is a valid regular expression. Compiling a pattern
/// looks at no text, so any text serves to ask.
pub open spec fn compiles(pattern: Seq<char>) -> bool {
    pattern_search(pattern, Seq::empty()) is Some
}

/// `regex::RegexBuilder::new(pattern).case_insensitive(true).build()`,
/// followed on success by `Regex::is_match(text)`. The result is named, not
/// described. Beyond the name the contract claims only that whether the
/// pattern compiles does not depend on the text, since `build` never sees it.
#[verifier::external_body]
pub(crate) fn search(pattern: &str, text: &str) -> (outcome: Option<bool>)
    ensures
        outcome == pattern_search(pattern@, text@),
        outcome is Some <==> compiles(pattern@),
{
    match regex::RegexBuilder::new(pattern).case_insensitive(true).build() {
        Ok(re) => Some(re.is_match(text)),
        Err(_) => None,
    }
}

/// Whether `pattern` is a valid regular expression.
pub fn is_valid(pattern: &str) -> (valid: bool)
    ensures
        valid == compiles(pattern@),
{
    search(pattern, "").is_some()
}

} // verus!
