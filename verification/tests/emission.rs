use exec_events::events::{
    ExecCommandExecuted, ExecEventsReceived, ExecFailedError, ExecTimeoutError,
};
use exec_events::record::{
    Emission, ExecDuration, Field, FieldValue, Label, LogRecord, MetricUpdate, MetricValue,
    Severity,
};
use exec_events::taxonomy::{io_error_code, OsError, COMMAND_FAILED, RECEIVING, TIMED_OUT, UNKNOWN};

fn label(key: &'static str, value: &str) -> Label {
    Label { key, value: value.to_string() }
}

fn text(key: &'static str, value: &str) -> Field {
    Field { key, value: FieldValue::Text(value.to_string()) }
}

fn number(key: &'static str, value: u64) -> Field {
    Field { key, value: FieldValue::Number(value) }
}

fn counter(name: &'static str, amount: u64, labels: Vec<Label>) -> MetricUpdate {
    MetricUpdate { name, value: MetricValue::Increment(amount), labels }
}

fn expired_wait() -> tokio::time::error::Elapsed {
    let runtime = tokio::runtime::Builder::new_current_thread().enable_time().build().unwrap();
    runtime
        .block_on(async {
            tokio::time::timeout(std::time::Duration::from_millis(1), std::future::pending::<()>())
                .await
        })
        .unwrap_err()
}

#[test]
fn received_batch_of_ten_events() {
    let out = ExecEventsReceived { count: 10, command: "echo", byte_size: 256 }.emit();
    let expected = Emission {
        log: LogRecord {
            severity: Severity::Trace,
            message: "Events received.".to_string(),
            fields: vec![number("count", 10), number("byte_size", 256), text("command", "echo")],
        },
        metrics: vec![
            counter("component_received_events_total", 10, vec![label("command", "echo")]),
            counter("component_received_event_bytes_total", 256, vec![label("command", "echo")]),
            counter("events_in_total", 10, vec![label("command", "echo")]),
        ],
    };
    assert_eq!(out, expected);
}

#[test]
fn empty_batch_is_still_emitted() {
    let out = ExecEventsReceived { count: 0, command: "true", byte_size: 0 }.emit();
    assert_eq!(out.log.message, "Events received.");
    assert_eq!(out.log.fields[0], number("count", 0));
    assert_eq!(out.log.fields[1], number("byte_size", 0));
    assert_eq!(out.metrics.len(), 3);
    for update in &out.metrics {
        assert_eq!(update.value, MetricValue::Increment(0));
        assert_eq!(update.labels, vec![label("command", "true")]);
    }
}

#[test]
fn received_batch_counts_events_and_bytes_apart() {
    let out = ExecEventsReceived { count: 3, command: "cat", byte_size: usize::MAX }.emit();
    assert_eq!(out.metrics[0].name, "component_received_events_total");
    assert_eq!(out.metrics[0].value, MetricValue::Increment(3));
    assert_eq!(out.metrics[1].name, "component_received_event_bytes_total");
    assert_eq!(out.metrics[1].value, MetricValue::Increment(usize::MAX as u64));
    assert_eq!(out.metrics[2].name, "events_in_total");
    assert_eq!(out.metrics[2].value, MetricValue::Increment(3));
}

#[test]
fn failed_run_with_platform_code() {
    let error = OsError {
        code: Some(2),
        description: "Os { code: 2, kind: NotFound, message: \"No such file or directory\" }"
            .to_string(),
    };
    let out = ExecFailedError { command: "missing", error }.emit();
    let expected = Emission {
        log: LogRecord {
            severity: Severity::Error,
            message: "Unable to exec.".to_string(),
            fields: vec![
                text("command", "missing"),
                text(
                    "error",
                    "Os { code: 2, kind: NotFound, message: \"No such file or directory\" }",
                ),
                text("error_type", "command_failed"),
                text("error_code", "2"),
                text("stage", "receiving"),
            ],
        },
        metrics: vec![
            counter(
                "component_errors_total",
                1,
                vec![
                    label("command", "missing"),
                    label("error_type", "command_failed"),
                    label("error_code", "2"),
                    label("stage", "receiving"),
                ],
            ),
            counter(
                "processing_errors_total",
                1,
                vec![
                    label("command", "missing"),
                    label("error_type", "command_failed"),
                    label("stage", "receiving"),
                ],
            ),
        ],
    };
    assert_eq!(out, expected);
}

#[test]
fn failed_run_without_platform_code_is_unknown() {
    let error = OsError { code: None, description: "Kind(UnexpectedEof)".to_string() };
    assert_eq!(io_error_code(&error), "unknown");
    let out = ExecFailedError { command: "cat", error }.emit();
    assert_eq!(out.log.severity, Severity::Error);
    assert_eq!(out.log.fields[3], text("error_code", "unknown"));
    assert_eq!(out.metrics[0].labels[2], label("error_code", "unknown"));
    assert_eq!(out.metrics[1].labels.len(), 3);
    assert!(out.metrics[1].labels.iter().all(|l| l.key != "error_code"));
}

#[test]
fn io_error_code_is_the_decimal_code() {
    let with = |code: Option<i32>| io_error_code(&OsError { code, description: String::new() });
    assert_eq!(with(Some(0)), "0");
    assert_eq!(with(Some(13)), "13");
    assert_eq!(with(Some(-4)), "-4");
    assert_eq!(with(Some(i32::MAX)), "2147483647");
    assert_eq!(with(Some(i32::MIN)), "-2147483648");
    assert_eq!(with(None), "unknown");
}

#[test]
fn taxonomy_words() {
    assert_eq!(RECEIVING, "receiving");
    assert_eq!(COMMAND_FAILED, "command_failed");
    assert_eq!(TIMED_OUT, "timed_out");
    assert_eq!(UNKNOWN, "unknown");
}

#[test]
fn timeout_carries_the_text_of_the_marker() {
    let shown = expired_wait().to_string();
    assert_eq!(shown, "deadline has elapsed");
    let out = ExecTimeoutError { command: "sleep", elapsed_seconds: 30, error: expired_wait() }
        .emit();
    let expected = Emission {
        log: LogRecord {
            severity: Severity::Error,
            message: "Timeout during exec.".to_string(),
            fields: vec![
                text("command", "sleep"),
                text("elapsed_seconds", "30"),
                text("error", &shown),
                text("error_type", "timed_out"),
                text("stage", "receiving"),
            ],
        },
        metrics: vec![
            counter(
                "component_errors_total",
                1,
                vec![
                    label("command", "sleep"),
                    label("error_type", "timed_out"),
                    label("stage", "receiving"),
                ],
            ),
            counter(
                "processing_errors_total",
                1,
                vec![
                    label("command", "sleep"),
                    label("error_type", "timed_out"),
                    label("stage", "receiving"),
                ],
            ),
        ],
    };
    assert_eq!(out, expected);
}

#[test]
fn timeout_is_classified_alike_for_any_time_allowed() {
    for seconds in [0u64, 1, 59, 86_400, u64::MAX] {
        let out =
            ExecTimeoutError { command: "sleep", elapsed_seconds: seconds, error: expired_wait() }
                .emit();
        assert_eq!(out.log.fields[1], text("elapsed_seconds", &seconds.to_string()));
        assert_eq!(out.metrics.len(), 2);
        assert_eq!(out.metrics[0].name, "component_errors_total");
        assert_eq!(out.metrics[1].name, "processing_errors_total");
        for update in &out.metrics {
            assert_eq!(update.value, MetricValue::Increment(1));
            assert_eq!(update.labels[1], label("error_type", "timed_out"));
            assert_eq!(update.labels[2], label("stage", "receiving"));
        }
    }
}

#[test]
fn completed_run_with_exit_status_zero() {
    let exec_duration = ExecDuration { secs: 2, subsec_nanos: 345_678_901 };
    let event = ExecCommandExecuted { command: "ls", exit_status: Some(0), exec_duration };
    assert_eq!(event.exit_status_string(), "0");
    let out = event.emit();
    let labels = || vec![label("command", "ls"), label("exit_status", "0")];
    let expected = Emission {
        log: LogRecord {
            severity: Severity::Trace,
            message: "Executed command.".to_string(),
            fields: vec![
                text("command", "ls"),
                text("exit_status", "0"),
                text("elapsed_millis", "2345"),
            ],
        },
        metrics: vec![
            counter("command_executed_total", 1, labels()),
            MetricUpdate {
                name: "command_execution_duration_seconds",
                value: MetricValue::Observation(exec_duration),
                labels: labels(),
            },
        ],
    };
    assert_eq!(out, expected);
}

#[test]
fn completed_run_without_exit_status_is_unknown() {
    let exec_duration = ExecDuration { secs: 0, subsec_nanos: 999_999 };
    let event = ExecCommandExecuted { command: "ls", exit_status: None, exec_duration };
    assert_eq!(event.exit_status_string(), "unknown");
    let out = event.emit();
    assert_eq!(out.log.fields[1], text("exit_status", "unknown"));
    assert_eq!(out.log.fields[2], text("elapsed_millis", "0"));
    assert_eq!(out.metrics[0].labels[1], label("exit_status", "unknown"));
    assert_eq!(out.metrics[1].labels[1], label("exit_status", "unknown"));
    assert_eq!(out.metrics[1].value, MetricValue::Observation(exec_duration));
}

#[test]
fn exit_status_string_of_other_codes() {
    let text_of = |exit_status: Option<i32>| {
        ExecCommandExecuted {
            command: "sh",
            exit_status,
            exec_duration: ExecDuration { secs: 0, subsec_nanos: 0 },
        }
        .exit_status_string()
    };
    assert_eq!(text_of(Some(1)), "1");
    assert_eq!(text_of(Some(127)), "127");
    assert_eq!(text_of(Some(-1)), "-1");
    assert_eq!(text_of(Some(i32::MIN)), i32::MIN.to_string());
    assert_eq!(text_of(Some(i32::MAX)), i32::MAX.to_string());
    assert!(!text_of(None).is_empty());
}

#[test]
fn duration_in_whole_milliseconds() {
    assert_eq!(ExecDuration { secs: 0, subsec_nanos: 0 }.as_millis(), 0);
    assert_eq!(ExecDuration { secs: 0, subsec_nanos: 999_999 }.as_millis(), 0);
    assert_eq!(ExecDuration { secs: 0, subsec_nanos: 1_000_000 }.as_millis(), 1);
    assert_eq!(ExecDuration { secs: 1, subsec_nanos: 500_000_000 }.as_millis(), 1500);
    assert_eq!(
        ExecDuration { secs: u64::MAX, subsec_nanos: 999_999_999 }.as_millis(),
        std::time::Duration::new(u64::MAX, 999_999_999).as_millis()
    );
    let out = ExecCommandExecuted {
        command: "ls",
        exit_status: Some(0),
        exec_duration: ExecDuration { secs: u64::MAX, subsec_nanos: 999_999_999 },
    }
    .emit();
    assert_eq!(out.log.fields[2], text("elapsed_millis", "18446744073709551615999"));
}
