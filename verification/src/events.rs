//! The events of a command's run, and what emitting each one yields.
use crate::record::{
    increment, label, number_field, observation, text_field, Emission, EmissionView, ExecDuration,
    Field, Label, LabelView, LogRecord, LogRecordView, MetricUpdate, Severity,
};
use crate::taxonomy::{
    class_labels, class_labels_without_code, classify_os_error, classify_timeout, os_error_class,
    timeout_class, OsError, UNKNOWN,
};
use crate::text::{decimal_text, signed_to_string, unsigned_to_string};
use tokio::time::error::Elapsed;
use vstd::prelude::*;
use vstd::string::*;

verus! {

/// A batch of events was received from one run of a command.
#[derive(Debug)]
pub struct ExecEventsReceived<'a> {
    /// The number of events in the batch.
    pub count: usize,
    /// The command that produced the batch.
    pub command: &'a str,
    /// The size of the batch in bytes.
    pub byte_size: usize,
}

/// The single label that names the command.
pub open spec fn command_label(command: Seq<char>) -> Seq<LabelView> {
    seq![label("command"@, command)]
}

/// What emitting a received batch yields: an informational record, the two
/// current counters of events and bytes, and the older counter of events
/// that is kept beside them.
pub open spec fn events_received_emission(
    count: nat,
    command: Seq<char>,
    byte_size: nat,
) -> EmissionView {
    EmissionView {
        log: LogRecordView {
            severity: Severity::Trace,
            message: "Events received."@,
            fields: seq![
                number_field("count"@, count),
                number_field("byte_size"@, byte_size),
                text_field("command"@, command),
            ],
        },
        metrics: seq![
            increment("component_received_events_total"@, count, command_label(command)),
            increment("component_received_event_bytes_total"@, byte_size, command_label(command)),
            increment("events_in_total"@, count, command_label(command)),
        ],
    }
}

/// The label set that holds only the command.
fn command_labels(command: &str) -> (labels: Vec<Label>)
    ensures
        labels@.map_values(|l: Label| l@) == command_label(command@),
{
    let labels = vec![Label::new("command", command.to_owned())];
    assert(labels@.map_values(|l: Label| l@) =~= command_label(command@));
    labels
}

impl<'a> ExecEventsReceived<'a> {
    /// Consumes the event and yields its record and metric updates. A batch
    /// of no events is emitted like any other, with increments of zero.
    pub fn emit(self) -> (out: Emission)
        ensures
            out@ == events_received_emission(
                self.count as nat,
                self.command@,
                self.byte_size as nat,
            ),
    {
        let count: u64 = self.count as u64;
        let byte_size: u64 = self.byte_size as u64;
        let fields = vec![
            Field::number("count", count),
            Field::number("byte_size", byte_size),
            Field::text("command", self.command.to_owned()),
        ];
        let metrics = vec![
            MetricUpdate::increment(
                "component_received_events_total",
                count,
                command_labels(self.command),
            ),
            MetricUpdate::increment(
                "component_received_event_bytes_total",
                byte_size,
                command_labels(self.command),
            ),
            MetricUpdate::increment("events_in_total", count, command_labels(self.command)),
        ];
        let out = Emission {
            log: LogRecord {
                severity: Severity::Trace,
                message: String::from_str("Events received."),
                fields,
            },
            metrics,
        };
        assert(out@.log.fields =~= events_received_emission(
            self.count as nat,
            self.command@,
            self.byte_size as nat,
        ).log.fields);
        assert(out@.metrics =~= events_received_emission(
            self.count as nat,
            self.command@,
            self.byte_size as nat,
        ).metrics);
        out
    }
}

/// A command could not be started, or reading from it failed.
#[derive(Debug)]
pub struct ExecFailedError<'a> {
    /// The command that failed.
    pub command: &'a str,
    /// The failure that the operating system reported.
    pub error: OsError,
}

/// What emitting a failed run yields: an error record that carries the
/// failure and its classification, one increment of the current error
/// counter under the full classification, and one of the older error counter,
/// which is kept without the code.
pub open spec fn failed_emission(
    command: Seq<char>,
    code: Option<i32>,
    description: Seq<char>,
) -> EmissionView {
    EmissionView {
        log: LogRecordView {
            severity: Severity::Error,
            message: "Unable to exec."@,
            fields: seq![
                text_field("command"@, command),
                text_field("error"@, description),
                text_field("error_type"@, os_error_class(code).error_type),
                text_field("error_code"@, os_error_class(code).error_code->0),
                text_field("stage"@, os_error_class(code).stage),
            ],
        },
        metrics: seq![
            increment("component_errors_total"@, 1, class_labels(command, os_error_class(code))),
            increment(
                "processing_errors_total"@,
                1,
                class_labels_without_code(command, os_error_class(code)),
            ),
        ],
    }
}

impl<'a> ExecFailedError<'a> {
    /// Consumes the event and yields its record and metric updates.
    pub fn emit(self) -> (out: Emission)
        ensures
            out@ == failed_emission(self.command@, self.error.code, self.error.description@),
    {
        let ghost expected = failed_emission(
            self.command@,
            self.error.code,
            self.error.description@,
        );
        let class = classify_os_error(&self.error);
        let metrics = vec![
            MetricUpdate::increment("component_errors_total", 1, class.labels(self.command)),
            MetricUpdate::increment(
                "processing_errors_total",
                1,
                class.labels_without_code(self.command),
            ),
        ];
        let fields = vec![
            Field::text("command", self.command.to_owned()),
            Field::text("error", self.error.description),
            Field::text("error_type", String::from_str(class.error_type)),
            Field::text("error_code", class.error_code.unwrap()),
            Field::text("stage", String::from_str(class.stage)),
        ];
        let out = Emission {
            log: LogRecord {
                severity: Severity::Error,
                message: String::from_str("Unable to exec."),
                fields,
            },
            metrics,
        };
        assert(out@.log.fields =~= expected.log.fields);
        assert(out@.metrics =~= expected.metrics);
        out
    }
}

/// tokio's `Elapsed`, the marker that an expired wait returns. Nothing is
/// known of what a value of it holds.
#[verifier::external_type_specification]
#[verifier::external_body]
pub struct ExElapsed(Elapsed);

/// The text by which tokio's `Elapsed` displays itself, as its `to_string`
/// gives it. The contract is taken on trust from tokio's `Display` impl for
/// `Elapsed`, which writes the same fixed sentence for every value.
#[verifier::external_body]
fn elapsed_text(error: &Elapsed) -> (text: String)
    ensures
        text@ == "deadline has elapsed"@,
{
    error.to_string()
}

/// A command did not finish within the time that it was allowed.
#[derive(Debug)]
pub struct ExecTimeoutError<'a> {
    /// The command that timed out.
    pub command: &'a str,
    /// The time allowed, in seconds.
    pub elapsed_seconds: u64,
    /// The marker that the expired wait returned.
    pub error: Elapsed,
}

/// What emitting a timeout yields: an error record that carries the time
/// allowed and the marker's text, and one increment each of the current and
/// of the older error counter. The classification is the same whatever the
/// time allowed was.
pub open spec fn timeout_emission(command: Seq<char>, elapsed_seconds: nat) -> EmissionView {
    EmissionView {
        log: LogRecordView {
            severity: Severity::Error,
            message: "Timeout during exec."@,
            fields: seq![
                text_field("command"@, command),
                text_field("elapsed_seconds"@, decimal_text(elapsed_seconds as int)),
                text_field("error"@, "deadline has elapsed"@),
                text_field("error_type"@, timeout_class().error_type),
                text_field("stage"@, timeout_class().stage),
            ],
        },
        metrics: seq![
            increment("component_errors_total"@, 1, class_labels(command, timeout_class())),
            increment(
                "processing_errors_total"@,
                1,
                class_labels_without_code(command, timeout_class()),
            ),
        ],
    }
}

impl<'a> ExecTimeoutError<'a> {
    /// Consumes the event and yields its record and metric updates.
    pub fn emit(self) -> (out: Emission)
        ensures
            out@ == timeout_emission(self.command@, self.elapsed_seconds as nat),
    {
        let ghost expected = timeout_emission(self.command@, self.elapsed_seconds as nat);
        let class = classify_timeout(&self.error);
        let fields = vec![
            Field::text("command", self.command.to_owned()),
            Field::text("elapsed_seconds", unsigned_to_string(self.elapsed_seconds as u128)),
            Field::text("error", elapsed_text(&self.error)),
            Field::text("error_type", String::from_str(class.error_type)),
            Field::text("stage", String::from_str(class.stage)),
        ];
        let metrics = vec![
            MetricUpdate::increment("component_errors_total", 1, class.labels(self.command)),
            MetricUpdate::increment(
                "processing_errors_total",
                1,
                class.labels_without_code(self.command),
            ),
        ];
        let out = Emission {
            log: LogRecord {
                severity: Severity::Error,
                message: String::from_str("Timeout during exec."),
                fields,
            },
            metrics,
        };
        assert(out@.log.fields =~= expected.log.fields);
        assert(out@.metrics =~= expected.metrics);
        out
    }
}

/// A command ran to its end, and how it ended is known.
#[derive(Debug)]
pub struct ExecCommandExecuted<'a> {
    /// The command that ran.
    pub command: &'a str,
    /// The exit code, where the command left one; a command that a signal
    /// ended leaves none.
    pub exit_status: Option<i32>,
    /// How long the command ran.
    pub exec_duration: ExecDuration,
}

/// The text of an exit status: the exit code in decimal, or `unknown` where
/// the command left none.
pub open spec fn exit_status_text(exit_status: Option<i32>) -> Seq<char> {
    match exit_status {
        Some(code) => decimal_text(code as int),
        None => UNKNOWN@,
    }
}

/// The labels of a completed run: the command and the text of its exit
/// status.
pub open spec fn executed_labels(command: Seq<char>, exit_status: Option<i32>) -> Seq<LabelView> {
    seq![label("command"@, command), label("exit_status"@, exit_status_text(exit_status))]
}

/// What emitting a completed run yields: an informational record with the
/// exit status and the running time in milliseconds, one increment of the
/// counter of runs, and one observation of the running time itself.
pub open spec fn executed_emission(
    command: Seq<char>,
    exit_status: Option<i32>,
    exec_duration: ExecDuration,
) -> EmissionView {
    EmissionView {
        log: LogRecordView {
            severity: Severity::Trace,
            message: "Executed command."@,
            fields: seq![
                text_field("command"@, command),
                text_field("exit_status"@, exit_status_text(exit_status)),
                text_field("elapsed_millis"@, decimal_text(exec_duration.millis() as int)),
            ],
        },
        metrics: seq![
            increment("command_executed_total"@, 1, executed_labels(command, exit_status)),
            observation(
                "command_execution_duration_seconds"@,
                exec_duration,
                executed_labels(command, exit_status),
            ),
        ],
    }
}

impl<'a> ExecCommandExecuted<'a> {
    /// The text of the exit status: never empty, and `unknown` where the
    /// command left no exit code.
    pub fn exit_status_string(&self) -> (text: String)
        ensures
            text@ == exit_status_text(self.exit_status),
    {
        match self.exit_status {
            Some(exit_status) => signed_to_string(exit_status),
            None => String::from_str(UNKNOWN),
        }
    }

    /// The label set of this run.
    fn labels(&self) -> (labels: Vec<Label>)
        ensures
            labels@.map_values(|l: Label| l@) == executed_labels(self.command@, self.exit_status),
    {
        let labels = vec![
            Label::new("command", self.command.to_owned()),
            Label::new("exit_status", self.exit_status_string()),
        ];
        assert(labels@.map_values(|l: Label| l@) =~= executed_labels(
            self.command@,
            self.exit_status,
        ));
        labels
    }

    /// Consumes the event and yields its record and metric updates.
    pub fn emit(self) -> (out: Emission)
        ensures
            out@ == executed_emission(self.command@, self.exit_status, self.exec_duration),
    {
        let ghost expected = executed_emission(self.command@, self.exit_status, self.exec_duration);
        let fields = vec![
            Field::text("command", self.command.to_owned()),
            Field::text("exit_status", self.exit_status_string()),
            Field::text("elapsed_millis", unsigned_to_string(self.exec_duration.as_millis())),
        ];
        let metrics = vec![
            MetricUpdate::increment("command_executed_total", 1, self.labels()),
            MetricUpdate::observation(
                "command_execution_duration_seconds",
                self.exec_duration,
                self.labels(),
            ),
        ];
        let out = Emission {
            log: LogRecord {
                severity: Severity::Trace,
                message: String::from_str("Executed command."),
                fields,
            },
            metrics,
        };
        assert(out@.log.fields =~= expected.log.fields);
        assert(out@.metrics =~= expected.metrics);
        out
    }
}

} // verus!
