//! The compiled line matcher that recognises a test declaration.

use vstd::prelude::*;
use crate::naming::{declaration_pattern, declaration_pattern_of};

verus! {

#[verifier::external_type_specification]
#[verifier::external_body]
pub struct ExRegexMatcher(grep_regex::RegexMatcher);

#[verifier::external_type_specification]
#[verifier::external_body]
pub struct ExRegexError(grep_regex::Error);

/// Whether grep_regex accepts `pattern` as a line-oriented regular expression.
pub uninterp spec fn line_pattern_compiles(pattern: Seq<char>) -> bool;

/// Relies on grep_regex::RegexMatcher::new_line_matcher: it builds a matcher
/// with `\n` as line terminator, and whether that succeeds depends on the
/// pattern alone.
#[verifier::external_body]
fn new_line_matcher(pattern: &str) -> (r: Result<grep_regex::RegexMatcher, grep_regex::Error>)
    ensures
        r.is_ok() == line_pattern_compiles(pattern@),
{
    grep_regex::RegexMatcher::new_line_matcher(pattern)
}

/// Why no matcher could be built for a test name.
pub enum PatternError {
    /// The declaration pattern built from the name is not a valid line regex.
    Invalid { pattern: String },
}

/// Compiles the declaration pattern of test function `name` once, for use
/// on every candidate file of a search.
pub fn declaration_matcher(name: &str) -> (r: Result<grep_regex::RegexMatcher, PatternError>)
    ensures
        r.is_ok() == line_pattern_compiles(declaration_pattern_of(name@)),
        r matches Err(PatternError::Invalid { pattern }) ==> pattern@ == declaration_pattern_of(
            name@,
        ),
{
    let pattern = declaration_pattern(name);
    match new_line_matcher(pattern.as_str()) {
        Ok(m) => Ok(m),
        Err(_) => Err(PatternError::Invalid { pattern }),
    }
}

} // verus!
