//! The stream pump: what becomes of each line that the child writes, and when the
//! pump of a stream ends.
//!
//! Reading the stream is the application's part. It hands over what it read, one event at
//! a time or all that a stream gave, and logs the records it gets back.

use crate::classify::{classify, severity_of, Severity};
use crate::record::{record_view, LogRecord, LogRecordView};
use crate::text::{is_blank, trim, trimmed, trimmed_is_empty_iff_blank};
use vstd::prelude::*;

verus! {

/// Which of the child's output streams a pump drains.
#[derive(Debug, Clone, Copy, PartialEq, Eq, Structural)]
pub enum StreamKind {
    Stdout,
    Stderr,
}

/// What reading the next line of a stream gave.
#[derive(Debug, Clone, PartialEq, Eq)]
pub enum ReadEvent {
    /// A line of text.
    Line(String),
    /// The read failed; holds the system's message.
    Failed(String),
}

/// What a pump does with one event.
#[derive(Debug, Clone, PartialEq, Eq)]
pub struct PumpStep {
    /// The record to log, if the event gives one.
    pub record: Option<LogRecord>,
    /// Whether the pump ends here.
    pub finished: bool,
}

/// The severity that a line of a stream is logged at. The standard output is always
/// informational; only the error stream is classified.
pub open spec fn line_severity(kind: StreamKind, text: Seq<char>) -> Severity {
    match kind {
        StreamKind::Stdout => Severity::Info,
        StreamKind::Stderr => severity_of(text),
    }
}

/// The record for a line: none for a line that is blank once trimmed, and else the
/// trimmed line behind the tag that marks backend output.
pub open spec fn line_record(kind: StreamKind, line: Seq<char>) -> Option<LogRecordView> {
    let text = trimmed(line);
    if text.len() == 0 {
        None
    } else {
        Some(
            LogRecordView { severity: line_severity(kind, text), message: "[Backend] "@ + text },
        )
    }
}

/// The record for a read that failed.
pub open spec fn failure_record(kind: StreamKind, cause: Seq<char>) -> LogRecordView {
    LogRecordView {
        severity: Severity::Error,
        message: match kind {
            StreamKind::Stdout => "Error reading backend stdout: "@,
            StreamKind::Stderr => "Error reading backend stderr: "@,
        } + cause,
    }
}

/// The record that an event gives.
pub open spec fn event_record(kind: StreamKind, event: ReadEvent) -> Option<LogRecordView> {
    match event {
        ReadEvent::Line(line) => line_record(kind, line@),
        ReadEvent::Failed(cause) => Some(failure_record(kind, cause@)),
    }
}

/// All the records of a stream that gave `events`: those of its lines in order, up to and
/// with the first failed read, which ends the pump.
pub open spec fn pumped(kind: StreamKind, events: Seq<ReadEvent>) -> Seq<LogRecordView>
    decreases events.len(),
{
    if events.len() == 0 {
        Seq::empty()
    } else {
        let head = match event_record(kind, events.first()) {
            Some(record) => seq![record],
            None => Seq::empty(),
        };
        if events.first() is Failed {
            head
        } else {
            head + pumped(kind, events.drop_first())
        }
    }
}

/// The record for one line of a stream, if the line is not blank.
pub fn record_line(kind: StreamKind, line: &str) -> (record: Option<LogRecord>)
    ensures
        record_view(record) == line_record(kind, line@),
{
    let text = trim(line);
    if text.unicode_len() == 0 {
        return None;
    }
    let severity = match kind {
        StreamKind::Stdout => Severity::Info,
        StreamKind::Stderr => classify(text),
    };
    Some(LogRecord::compose(severity, "[Backend] ", text))
}

/// What a pump does with one event: a line is logged unless it is blank, and the pump
/// goes on; a failed read is logged once as an error, and the pump ends.
pub fn pump_step(kind: StreamKind, event: &ReadEvent) -> (step: PumpStep)
    ensures
        record_view(step.record) == event_record(kind, *event),
        step.finished == (*event is Failed),
{
    match event {
        ReadEvent::Line(line) => PumpStep {
            record: record_line(kind, line.as_str()),
            finished: false,
        },
        ReadEvent::Failed(cause) => {
            let lead = match kind {
                StreamKind::Stdout => "Error reading backend stdout: ",
                StreamKind::Stderr => "Error reading backend stderr: ",
            };
            PumpStep {
                record: Some(LogRecord::compose(Severity::Error, lead, cause.as_str())),
                finished: true,
            }
        },
    }
}

/// All the records of a stream that gave `events`, in the order in which they are logged.
/// Events after a failed read are not looked at.
pub fn pump(kind: StreamKind, events: &Vec<ReadEvent>) -> (records: Vec<LogRecord>)
    ensures
        records@.map_values(|record: LogRecord| record@) == pumped(kind, events@),
{
    let mut records: Vec<LogRecord> = Vec::new();
    let mut at: usize = 0;
    proof {
        assert(events@.skip(0) =~= events@);
    }
    while at < events.len()
        invariant
            at <= events.len(),
            pumped(kind, events@) == records@.map_values(|record: LogRecord| record@) + pumped(
                kind,
                events@.skip(at as int),
            ),
        decreases events.len() - at,
    {
        let ghost before = records@.map_values(|record: LogRecord| record@);
        let ghost rest = events@.skip(at as int);
        proof {
            assert(rest.first() == events@[at as int]);
            assert(rest.drop_first() =~= events@.skip(at + 1));
        }
        let step = pump_step(kind, &events[at]);
        if let Some(record) = step.record {
            records.push(record);
            proof {
                assert(records@.map_values(|record: LogRecord| record@) =~= before + seq![
                    record@,
                ]);
            }
        }
        if step.finished {
            proof {
                assert(records@.map_values(|record: LogRecord| record@) =~= pumped(
                    kind,
                    events@,
                ));
            }
            return records;
        }
        proof {
            let head = match event_record(kind, rest.first()) {
                Some(record) => seq![record],
                None => Seq::empty(),
            };
            assert(records@.map_values(|record: LogRecord| record@) =~= before + head);
            assert(before + (head + pumped(kind, rest.drop_first())) =~= (before + head) + pumped(
                kind,
                rest.drop_first(),
            ));
        }
        at += 1;
    }
    proof {
        assert(records@.map_values(|record: LogRecord| record@) =~= pumped(kind, events@));
    }
    records
}

/// A line gives no record exactly when it is blank: empty, or whitespace only.
pub proof fn blank_lines_are_dropped(kind: StreamKind, line: Seq<char>)
    ensures
        line_record(kind, line) is None <==> is_blank(line),
{
    trimmed_is_empty_iff_blank(line);
}

} // verus!
