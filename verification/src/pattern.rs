//! The regex engine behind a substitution step. Compiling a pattern and
//! substituting its matches are the `regex` crate's work; this module names
//! what the crate returns and proves the rest from those names.

use vstd::prelude::*;

verus! {

/// `regex::Regex`, a compiled pattern. Nothing inside it is visible here.
#[verifier::external_type_specification]
#[verifier::external_body]
pub struct ExRegex(regex::Regex);

/// `regex::Error`, the reason why a pattern did not compile. Nothing inside
/// it is visible here.
#[verifier::external_type_specification]
#[verifier::external_body]
pub struct ExRegexError(regex::Error);

/// What `Regex::new` returns for a pattern: the compiled regex, or the error
/// that says why the pattern cannot be compiled.
pub uninterp spec fn compile_outcome(pattern: Seq<char>) -> Result<regex::Regex, regex::Error>;

/// What `Regex::is_match` returns: whether the regex matches anywhere in the
/// text.
pub uninterp spec fn has_match(re: regex::Regex, text: Seq<char>) -> bool;

/// What `Regex::replace_all` returns: the text with every non-overlapping
/// match, leftmost first, replaced by the replacement, in which `$1`, `$2`
/// and so on stand for the groups that the match captured.
pub uninterp spec fn substituted(
    re: regex::Regex,
    text: Seq<char>,
    replacement: Seq<char>,
) -> Seq<char>;

/// What `to_string` returns for a compile error: its message.
pub uninterp spec fn error_message(error: regex::Error) -> Seq<char>;

/// The text after a substitution step with a compiled regex. A text in which
/// the regex matches nowhere is left as it is.
pub open spec fn replace_all_spec(
    re: regex::Regex,
    text: Seq<char>,
    replacement: Seq<char>,
) -> Seq<char> {
    if has_match(re, text) {
        substituted(re, text, replacement)
    } else {
        text
    }
}

/// A pattern's outcome as plain text on both sides: the substituted text
/// where the pattern compiles, the compile error's message where it does not.
pub open spec fn substitution_spec(
    pattern: Seq<char>,
    text: Seq<char>,
    replacement: Seq<char>,
) -> Result<Seq<char>, Seq<char>> {
    match compile_outcome(pattern) {
        Ok(re) => Ok(replace_all_spec(re, text, replacement)),
        Err(error) => Err(error_message(error)),
    }
}

/// The views of both sides of a textual outcome.
pub open spec fn outcome_view(outcome: Result<String, String>) -> Result<Seq<char>, Seq<char>> {
    match outcome {
        Ok(text) => Ok(text@),
        Err(message) => Err(message@),
    }
}

/// `Regex::new`: compiles the pattern with the default settings. The outcome
/// depends on the pattern alone, so the contract gives it a name and claims
/// no more.
#[verifier::external_body]
fn compile(pattern: &str) -> (outcome: Result<regex::Regex, regex::Error>)
    ensures
        outcome == compile_outcome(pattern@),
{
    regex::Regex::new(pattern)
}

/// `Regex::replace_all` with a string as the replacement, copied into an
/// owned string. The contract names the result and adds what the crate
/// documents of a text without a match: it comes back unchanged.
#[verifier::external_body]
fn replace_all(re: &regex::Regex, text: &str, replacement: &str) -> (out: String)
    ensures
        out@ == substituted(*re, text@, replacement@),
        !has_match(*re, text@) ==> out@ == text@,
{
    re.replace_all(text, replacement).into_owned()
}

/// `Regex::is_match`: whether the regex matches anywhere in the text. The
/// contract names the answer and claims no more.
#[verifier::external_body]
fn is_match(re: &regex::Regex, text: &str) -> (found: bool)
    ensures
        found == has_match(*re, text@),
{
    re.is_match(text)
}

/// `to_string` on a compile error: the message that its `Display` impl
/// writes. The contract names it and claims no more.
#[verifier::external_body]
fn error_text(error: &regex::Error) -> (out: String)
    ensures
        out@ == error_message(*error),
{
    error.to_string()
}

/// Whether `pattern` matches anywhere in `text`. A pattern that does not
/// compile gives the compile error's message.
pub fn pattern_matches(pattern: &str, text: &str) -> (out: Result<bool, String>)
    ensures
        match compile_outcome(pattern@) {
            Ok(re) => out == Ok::<bool, String>(has_match(re, text@)),
            Err(error) => out is Err && out->Err_0@ == error_message(error),
        },
{
    match compile(pattern) {
        Ok(re) => Ok(is_match(&re, text)),
        Err(error) => {
            let message = error_text(&error);
            Err(message)
        },
    }
}

/// Replaces every match of `pattern` in `text` by `replacement`. A pattern
/// that does not compile gives the compile error's message and touches
/// nothing.
pub fn substitute_matches(
    pattern: &str,
    text: &str,
    replacement: &str,
) -> (out: Result<String, String>)
    ensures
        outcome_view(out) == substitution_spec(pattern@, text@, replacement@),
{
    match compile(pattern) {
        Ok(re) => {
            let replaced = replace_all(&re, text, replacement);
            Ok(replaced)
        },
        Err(error) => {
            let message = error_text(&error);
            Err(message)
        },
    }
}

} // verus!
