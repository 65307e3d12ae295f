//! The log classifier: the severity of one line of the backend's error stream.

use crate::text::{chars_of, contains_chars, contains_text, to_uppercase, uppercase_of};
use vstd::prelude::*;

verus! {

/// How serious a line of output is taken to be.
#[derive(Debug, Clone, Copy, PartialEq, Eq, Structural)]
pub enum Severity {
    Info,
    Warning,
    Error,
}

/// An upper-case text holds one of the words that mark an error.
pub open spec fn marks_error(upper: Seq<char>) -> bool {
    ||| contains_text(upper, "ERROR"@)
    ||| contains_text(upper, "CRITICAL"@)
    ||| contains_text(upper, "EXCEPTION"@)
}

/// An upper-case text holds one of the words that mark a warning.
pub open spec fn marks_warning(upper: Seq<char>) -> bool {
    ||| contains_text(upper, "WARNING"@)
    ||| contains_text(upper, "WARN"@)
}

/// The severity of a line whose upper-case form is `upper`. The rules are tried in
/// order and the first that matches decides: an error word, then a warning word, else
/// the line is informational.
pub open spec fn severity_of_upper(upper: Seq<char>) -> Severity {
    if marks_error(upper) {
        Severity::Error
    } else if marks_warning(upper) {
        Severity::Warning
    } else {
        Severity::Info
    }
}

/// The severity of a line: that of its upper-case form, so that the words are found
/// in whatever case they are written.
pub open spec fn severity_of(line: Seq<char>) -> Severity {
    severity_of_upper(uppercase_of(line))
}

/// Classifies a line that is already in upper case.
pub fn classify_upper(upper: &str) -> (severity: Severity)
    ensures
        severity == severity_of_upper(upper@),
{
    let text = chars_of(upper);
    if contains_chars(&text, &chars_of("ERROR")) || contains_chars(&text, &chars_of("CRITICAL"))
        || contains_chars(&text, &chars_of("EXCEPTION")) {
        Severity::Error
    } else if contains_chars(&text, &chars_of("WARNING")) || contains_chars(
        &text,
        &chars_of("WARN"),
    ) {
        Severity::Warning
    } else {
        Severity::Info
    }
}

/// Classifies a line of the backend's error stream by the words it holds, in any case.
pub fn classify(line: &str) -> (severity: Severity)
    ensures
        severity == severity_of(line@),
{
    let upper = to_uppercase(line);
    classify_upper(upper.as_str())
}

/// Lines that differ only in case are classified alike.
pub proof fn classify_ignores_case(a: Seq<char>, b: Seq<char>)
    requires
        uppercase_of(a) == uppercase_of(b),
    ensures
        severity_of(a) == severity_of(b),
{
}

} // verus!
