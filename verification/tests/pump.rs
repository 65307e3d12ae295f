use backend_supervisor::classify::Severity;
use backend_supervisor::error::SupervisorError;
use backend_supervisor::paths::AppPath;
use backend_supervisor::pump::{pump, pump_step, record_line, PumpStep, ReadEvent, StreamKind};
use backend_supervisor::record::{joined, LogRecord};
use backend_supervisor::startup::{plan_startup, report_startup, STARTUP_DELAY_SECS};
use backend_supervisor::supervisor::{check_backend_status, BackendStatus, PollOutcome};

fn record(severity: Severity, message: &str) -> LogRecord {
    LogRecord { severity, message: message.to_string() }
}

fn line(text: &str) -> ReadEvent {
    ReadEvent::Line(text.to_string())
}

#[test]
fn empty_line_gives_no_record() {
    assert_eq!(record_line(StreamKind::Stderr, ""), None);
    assert_eq!(record_line(StreamKind::Stdout, ""), None);
}

#[test]
fn whitespace_only_line_gives_no_record() {
    for blank in ["   ", "\t", "\r\n", " \u{a0}\u{3000} "] {
        assert_eq!(record_line(StreamKind::Stderr, blank), None);
        assert_eq!(record_line(StreamKind::Stdout, blank), None);
    }
}

#[test]
fn stdout_line_is_info_whatever_it_says() {
    assert_eq!(
        record_line(StreamKind::Stdout, "ERROR: this is on stdout"),
        Some(record(Severity::Info, "[Backend] ERROR: this is on stdout"))
    );
    assert_eq!(
        record_line(StreamKind::Stdout, "  listening on 8000\n"),
        Some(record(Severity::Info, "[Backend] listening on 8000"))
    );
}

#[test]
fn stderr_line_is_classified() {
    assert_eq!(
        record_line(StreamKind::Stderr, "Something ERROR happened"),
        Some(record(Severity::Error, "[Backend] Something ERROR happened"))
    );
    assert_eq!(
        record_line(StreamKind::Stderr, "  low warning disk  "),
        Some(record(Severity::Warning, "[Backend] low warning disk"))
    );
    assert_eq!(
        record_line(StreamKind::Stderr, "INFO: started"),
        Some(record(Severity::Info, "[Backend] INFO: started"))
    );
}

#[test]
fn record_keeps_the_case_of_the_line() {
    assert_eq!(
        record_line(StreamKind::Stderr, "Traceback: Exception raised"),
        Some(record(Severity::Error, "[Backend] Traceback: Exception raised"))
    );
}

#[test]
fn step_on_a_line_goes_on() {
    assert_eq!(
        pump_step(StreamKind::Stderr, &line("critical failure")),
        PumpStep { record: Some(record(Severity::Error, "[Backend] critical failure")), finished: false }
    );
    assert_eq!(
        pump_step(StreamKind::Stdout, &line("  ")),
        PumpStep { record: None, finished: false }
    );
}

#[test]
fn step_on_a_failed_read_logs_once_and_ends() {
    assert_eq!(
        pump_step(StreamKind::Stdout, &ReadEvent::Failed("broken pipe".to_string())),
        PumpStep {
            record: Some(record(Severity::Error, "Error reading backend stdout: broken pipe")),
            finished: true,
        }
    );
    assert_eq!(
        pump_step(StreamKind::Stderr, &ReadEvent::Failed("invalid utf-8".to_string())),
        PumpStep {
            record: Some(record(Severity::Error, "Error reading backend stderr: invalid utf-8")),
            finished: true,
        }
    );
}

#[test]
fn pump_of_nothing_gives_nothing() {
    assert_eq!(pump(StreamKind::Stdout, &vec![]), vec![]);
}

#[test]
fn pump_logs_lines_in_order_and_drops_blank_ones() {
    let events = vec![line("starting"), line(""), line("Warning: slow disk"), line("   "), line("done")];
    assert_eq!(
        pump(StreamKind::Stderr, &events),
        vec![
            record(Severity::Info, "[Backend] starting"),
            record(Severity::Warning, "[Backend] Warning: slow disk"),
            record(Severity::Info, "[Backend] done"),
        ]
    );
    assert_eq!(
        pump(StreamKind::Stdout, &events),
        vec![
            record(Severity::Info, "[Backend] starting"),
            record(Severity::Info, "[Backend] Warning: slow disk"),
            record(Severity::Info, "[Backend] done"),
        ]
    );
}

#[test]
fn pump_ends_at_the_first_failed_read() {
    let events = vec![
        line("one"),
        ReadEvent::Failed("stream closed".to_string()),
        line("ERROR never seen"),
        ReadEvent::Failed("never seen".to_string()),
    ];
    assert_eq!(
        pump(StreamKind::Stderr, &events),
        vec![
            record(Severity::Info, "[Backend] one"),
            record(Severity::Error, "Error reading backend stderr: stream closed"),
        ]
    );
}

#[test]
fn pump_agrees_with_its_steps() {
    let events = vec![line(" a "), line(""), line("error b"), ReadEvent::Failed("x".to_string()), line("c")];
    let mut expected = Vec::new();
    for event in &events {
        let step = pump_step(StreamKind::Stderr, event);
        if let Some(record) = step.record {
            expected.push(record);
        }
        if step.finished {
            break;
        }
    }
    assert_eq!(pump(StreamKind::Stderr, &events), expected);
}

#[test]
fn sleeping_child_that_warns_is_running_and_logged_once() {
    let records = pump(StreamKind::Stderr, &vec![line("WARNING: low memory\n")]);
    assert_eq!(records, vec![record(Severity::Warning, "[Backend] WARNING: low memory")]);
    assert!(records[0].message.contains("WARNING: low memory"));
    let report = check_backend_status(Some(PollOutcome::Running));
    assert_eq!(report.reply, Ok(BackendStatus { running: true, port: 8000 }));
}

#[test]
fn joined_puts_one_text_behind_another() {
    assert_eq!(joined("ab", "cd"), "abcd");
    assert_eq!(joined("", "cd"), "cd");
    assert_eq!(joined("ab", ""), "ab");
    assert_eq!(
        LogRecord::compose(Severity::Warning, "lead: ", "detail"),
        record(Severity::Warning, "lead: detail")
    );
}

#[test]
fn startup_waits_one_second() {
    assert_eq!(STARTUP_DELAY_SECS, 1);
}

#[test]
fn startup_starts_the_backend_when_it_is_found() {
    let path = AppPath { root: "C:\\app".to_string(), segments: vec!["backend.exe"] };
    let plan = plan_startup(Ok(path.clone()), "\"C:\\\\app\\\\backend.exe\"");
    assert_eq!(plan.executable, Some(path));
    assert_eq!(
        plan.log,
        record(Severity::Info, "Found backend executable at: \"C:\\\\app\\\\backend.exe\"")
    );
}

#[test]
fn startup_warns_when_the_backend_is_not_found() {
    let path = AppPath { root: "C:\\app".to_string(), segments: vec!["backend.exe"] };
    let failures = vec![
        SupervisorError::ExecutableNotFound(path),
        SupervisorError::UnsupportedPlatform,
        SupervisorError::ExecutableDirUnknown,
    ];
    for failure in failures {
        let plan = plan_startup(Err(failure), "unused");
        assert_eq!(plan.executable, None);
        assert_eq!(
            plan.log,
            record(
                Severity::Warning,
                "Backend executable not found. Run 'python start_backend.py' separately for dev mode."
            )
        );
    }
}

#[test]
fn startup_logs_the_port_on_success() {
    let outcome = Ok(BackendStatus { running: true, port: 8000 });
    assert_eq!(
        report_startup(&outcome, ""),
        record(Severity::Info, "Backend started automatically on port 8000")
    );
    let other = Ok(BackendStatus { running: true, port: 65535 });
    assert_eq!(
        report_startup(&other, ""),
        record(Severity::Info, "Backend started automatically on port 65535")
    );
}

#[test]
fn startup_logs_a_failed_start_and_passes_nothing_on() {
    let outcome = Err(SupervisorError::SpawnFailed("access denied".to_string()));
    assert_eq!(
        report_startup(&outcome, ""),
        record(Severity::Error, "Failed to auto-start backend: Failed to start backend: access denied")
    );
    let early = Err(SupervisorError::ExitedEarly("exit status: 1".to_string()));
    assert_eq!(
        report_startup(&early, ""),
        record(
            Severity::Error,
            "Failed to auto-start backend: Backend process exited immediately with status: exit status: 1"
        )
    );
}
