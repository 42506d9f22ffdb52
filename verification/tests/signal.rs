use exec_events::record::{
    Emission, Field, FieldValue, Label, LogRecord, MetricUpdate, MetricValue, Severity,
};
use exec_events::{
    ExecCommandExecuted, ExecEventsReceived, ExecFailedError, ExecFailedToSignalChild,
    ExecFailedToSignalChildError, ExecTimeoutError,
};

trait AmbiguousIfClone<A> {
    fn witness() {}
}

impl<T: ?Sized> AmbiguousIfClone<()> for T {}

impl<T: ?Sized + Clone> AmbiguousIfClone<u8> for T {}

fn refused(errno: i32) -> ExecFailedToSignalChildError {
    ExecFailedToSignalChildError::SignalError {
        errno,
        description: nix::errno::Errno::from_raw(errno).to_string(),
    }
}

fn marshal_failure() -> ExecFailedToSignalChildError {
    let failed = i32::try_from(u32::MAX).unwrap_err();
    ExecFailedToSignalChildError::FailedToMarshalPid(failed.to_string())
}

#[test]
fn error_code_of_each_cause() {
    assert_eq!(refused(5).to_error_code(), "errno_5");
    assert_eq!(marshal_failure().to_error_code(), "failed_to_marshal_pid");
    assert_eq!(ExecFailedToSignalChildError::NoPid.to_error_code(), "no_pid");
}

#[test]
fn error_code_of_other_error_numbers() {
    assert_eq!(refused(0).to_error_code(), "errno_0");
    assert_eq!(refused(1).to_error_code(), "errno_1");
    assert_eq!(refused(3).to_error_code(), "errno_3");
    assert_eq!(refused(-7).to_error_code(), "errno_-7");
    assert_eq!(
        refused(i32::MAX).to_error_code(),
        "errno_2147483647"
    );
}

#[test]
fn message_of_each_cause() {
    assert_eq!(refused(5).message(), "errno: EIO: I/O error");
    assert_eq!(
        ExecFailedToSignalChildError::SignalError {
            errno: 3,
            description: "no such process".to_string(),
        }
        .message(),
        "errno: no such process"
    );
    assert_eq!(
        marshal_failure().message(),
        "failed to marshal pid to i32: out of range integral type conversion attempted"
    );
    assert_eq!(ExecFailedToSignalChildError::NoPid.message(), "child had no pid");
}

#[test]
fn signal_failure_is_counted_on_both_counters() {
    let command = "\"sh\" \"-c\" \"sleep 10\"";
    let out = ExecFailedToSignalChild {
        command,
        error: refused(5),
    }
    .emit();
    let text =
        |key: &'static str, value: &str| Field { key, value: FieldValue::Text(value.to_string()) };
    let label = |key: &'static str, value: &str| Label { key, value: value.to_string() };
    let expected = Emission {
        log: LogRecord {
            severity: Severity::Error,
            message: "Failed to send SIGTERM to child, aborting early: errno: EIO: I/O error"
                .to_string(),
            fields: vec![
                text("command", command),
                text("error_code", "errno_5"),
                text("error_type", "command_failed"),
                text("stage", "receiving"),
            ],
        },
        metrics: vec![
            MetricUpdate {
                name: "component_errors_total",
                value: MetricValue::Increment(1),
                labels: vec![
                    label("command", command),
                    label("error_type", "command_failed"),
                    label("error_code", "errno_5"),
                    label("stage", "receiving"),
                ],
            },
            MetricUpdate {
                name: "processing_errors_total",
                value: MetricValue::Increment(1),
                labels: vec![
                    label("command_code", command),
                    label("error", "errno_5"),
                    label("error_type", "command_failed"),
                    label("stage", "receiving"),
                ],
            },
        ],
    };
    assert_eq!(out, expected);
}

#[test]
fn signal_failure_without_pid() {
    let out =
        ExecFailedToSignalChild { command: "\"ls\"", error: ExecFailedToSignalChildError::NoPid }
            .emit();
    assert_eq!(
        out.log.message,
        "Failed to send SIGTERM to child, aborting early: child had no pid"
    );
    assert_eq!(out.metrics.len(), 2);
    assert_eq!(out.metrics[0].value, MetricValue::Increment(1));
    assert_eq!(out.metrics[1].value, MetricValue::Increment(1));
    assert_eq!(out.metrics[0].labels[2].value, "no_pid");
    assert_eq!(out.metrics[1].labels[1].key, "error");
    assert_eq!(out.metrics[1].labels[1].value, "no_pid");
}

#[test]
fn signal_failure_with_unmarshalled_pid() {
    let out = ExecFailedToSignalChild { command: "\"ls\"", error: marshal_failure() }.emit();
    assert_eq!(
        out.log.message,
        "Failed to send SIGTERM to child, aborting early: failed to marshal pid to i32: out of \
         range integral type conversion attempted"
    );
    assert_eq!(out.metrics[0].labels[2].value, "failed_to_marshal_pid");
    assert_eq!(out.metrics[1].labels[1].value, "failed_to_marshal_pid");
}

#[test]
fn codes_of_the_causes_differ() {
    let codes = [
        refused(5).to_error_code(),
        refused(6).to_error_code(),
        marshal_failure().to_error_code(),
        ExecFailedToSignalChildError::NoPid.to_error_code(),
    ];
    for (i, a) in codes.iter().enumerate() {
        for (j, b) in codes.iter().enumerate() {
            assert_eq!(i == j, a == b);
        }
    }
}

#[test]
fn emitting_takes_the_event_by_value() {
    let _received: fn(ExecEventsReceived<'static>) -> Emission = ExecEventsReceived::emit;
    let _failed: fn(ExecFailedError<'static>) -> Emission = ExecFailedError::emit;
    let _timeout: fn(ExecTimeoutError<'static>) -> Emission = ExecTimeoutError::emit;
    let _executed: fn(ExecCommandExecuted<'static>) -> Emission = ExecCommandExecuted::emit;
    let _signal: fn(ExecFailedToSignalChild<'static>) -> Emission = ExecFailedToSignalChild::emit;
    let _ = <ExecEventsReceived<'static> as AmbiguousIfClone<_>>::witness;
    let _ = <ExecFailedError<'static> as AmbiguousIfClone<_>>::witness;
    let _ = <ExecTimeoutError<'static> as AmbiguousIfClone<_>>::witness;
    let _ = <ExecCommandExecuted<'static> as AmbiguousIfClone<_>>::witness;
    let _ = <ExecFailedToSignalChild<'static> as AmbiguousIfClone<_>>::witness;
}
