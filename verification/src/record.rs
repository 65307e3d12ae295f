//! Log records: what the library hands to the application's log sink.

use crate::classify::Severity;
use vstd::prelude::*;

verus! {

/// One line for the log sink, with the severity it is to be logged at.
#[derive(Debug, Clone, PartialEq, Eq)]
pub struct LogRecord {
    pub severity: Severity,
    pub message: String,
}

/// A `LogRecord` with its message as plain text.
pub struct LogRecordView {
    pub severity: Severity,
    pub message: Seq<char>,
}

impl View for LogRecord {
    type V = LogRecordView;

    open spec fn view(&self) -> LogRecordView {
        LogRecordView { severity: self.severity, message: self.message@ }
    }
}

/// The record that a call produced, if any, with its message as plain text.
pub open spec fn record_view(record: Option<LogRecord>) -> Option<LogRecordView> {
    match record {
        Some(record) => Some(record@),
        None => None,
    }
}

/// The text `lead` followed by `detail`.
pub fn joined(lead: &str, detail: &str) -> (text: String)
    ensures
        text@ == lead@ + detail@,
{
    let mut text = String::from_str(lead);
    text.append(detail);
    text
}

impl LogRecord {
    /// The record of severity `severity` whose message is `lead` followed by `detail`.
    pub fn compose(severity: Severity, lead: &str, detail: &str) -> (record: LogRecord)
        ensures
            record@ == (LogRecordView { severity, message: lead@ + detail@ }),
    {
        LogRecord { severity, message: joined(lead, detail) }
    }
}

} // verus!
