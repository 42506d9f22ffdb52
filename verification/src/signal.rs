//! The failure to signal a child that is still running.
use crate::record::{
    increment, label, text_field, Emission, EmissionView, Field, Label, LabelView, LogRecord,
    LogRecordView, MetricUpdate, Severity,
};
use crate::taxonomy::{class_labels, ErrorClass, ErrorClassView, COMMAND_FAILED, RECEIVING};
use crate::text::{decimal_text, signed_to_string};
use vstd::prelude::*;
use vstd::string::*;

verus! {

/// Why a child could not be signalled. Exactly one of the three causes holds
/// of each failure.
#[derive(Debug, PartialEq, Eq)]
pub enum ExecFailedToSignalChildError {
    /// The operating system refused to deliver the signal.
    SignalError {
        /// The raw error number that the operating system gave.
        errno: i32,
        /// The platform's name and words for that error number.
        description: String,
    },
    /// The child's process id does not fit the integer that the signal call
    /// takes; holds the text of the failed conversion.
    FailedToMarshalPid(String),
    /// The child has no process id.
    NoPid,
}

/// The mathematical value of an [`ExecFailedToSignalChildError`].
pub enum SignalFailure {
    SignalError { errno: int, description: Seq<char> },
    FailedToMarshalPid(Seq<char>),
    NoPid,
}

impl View for ExecFailedToSignalChildError {
    type V = SignalFailure;

    open spec fn view(&self) -> SignalFailure {
        match self {
            ExecFailedToSignalChildError::SignalError { errno, description } => {
                SignalFailure::SignalError { errno: *errno as int, description: description@ }
            },
            ExecFailedToSignalChildError::FailedToMarshalPid(text) => {
                SignalFailure::FailedToMarshalPid(text@)
            },
            ExecFailedToSignalChildError::NoPid => SignalFailure::NoPid,
        }
    }
}

impl SignalFailure {
    /// The code under which the failure is counted: the error number behind
    /// `errno_`, or the name of the cause.
    pub open spec fn error_code(self) -> Seq<char> {
        match self {
            SignalFailure::SignalError { errno, .. } => "errno_"@ + decimal_text(errno),
            SignalFailure::FailedToMarshalPid(_) => "failed_to_marshal_pid"@,
            SignalFailure::NoPid => "no_pid"@,
        }
    }

    /// The class of the failure. Whatever the cause, the command failed
    /// while it was being received from; the code tells the causes apart.
    pub open spec fn class(self) -> ErrorClassView {
        ErrorClassView {
            stage: RECEIVING@,
            error_type: COMMAND_FAILED@,
            error_code: Some(self.error_code()),
        }
    }

    /// The failure in words.
    pub open spec fn message(self) -> Seq<char> {
        match self {
            SignalFailure::SignalError { description, .. } => "errno: "@ + description,
            SignalFailure::FailedToMarshalPid(text) => "failed to marshal pid to i32: "@ + text,
            SignalFailure::NoPid => "child had no pid"@,
        }
    }
}

impl ExecFailedToSignalChildError {
    /// The code under which the failure is counted.
    pub fn to_error_code(&self) -> (code: String)
        ensures
            code@ == self@.error_code(),
    {
        match self {
            ExecFailedToSignalChildError::SignalError { errno, .. } => {
                String::from_str("errno_").concat(signed_to_string(*errno).as_str())
            },
            ExecFailedToSignalChildError::FailedToMarshalPid(_) => String::from_str(
                "failed_to_marshal_pid",
            ),
            ExecFailedToSignalChildError::NoPid => String::from_str("no_pid"),
        }
    }

    /// Classifies the failure.
    pub fn classify(&self) -> (class: ErrorClass)
        ensures
            class@ == self@.class(),
    {
        ErrorClass {
            stage: RECEIVING,
            error_type: COMMAND_FAILED,
            error_code: Some(self.to_error_code()),
        }
    }

    /// The failure in words.
    pub fn message(&self) -> (text: String)
        ensures
            text@ == self@.message(),
    {
        match self {
            ExecFailedToSignalChildError::SignalError { description, .. } => {
                String::from_str("errno: ").concat(description.as_str())
            },
            ExecFailedToSignalChildError::FailedToMarshalPid(text) => {
                String::from_str("failed to marshal pid to i32: ").concat(text.as_str())
            },
            ExecFailedToSignalChildError::NoPid => String::from_str("child had no pid"),
        }
    }
}

/// A child that was still running could not be sent the signal to
/// terminate.
#[derive(Debug)]
pub struct ExecFailedToSignalChild<'a> {
    /// The whole command, program and arguments, in its structural rendering.
    /// The other events name the command alone.
    pub command: &'a str,
    /// Why the signal could not be sent.
    pub error: ExecFailedToSignalChildError,
}

/// The labels under which the older error counter counts a failure to
/// signal: the command under the key `command_code`, the code under the key
/// `error`, the type and the stage.
pub open spec fn legacy_signal_labels(command: Seq<char>, error: SignalFailure) -> Seq<LabelView> {
    seq![
        label("command_code"@, command),
        label("error"@, error.error_code()),
        label("error_type"@, error.class().error_type),
        label("stage"@, error.class().stage),
    ]
}

/// What emitting a failure to signal yields: an error record whose message
/// ends in the failure in words, one increment of the current error counter
/// under the full classification, and one of the older error counter under
/// its own keys.
pub open spec fn signal_failure_emission(command: Seq<char>, error: SignalFailure) -> EmissionView {
    EmissionView {
        log: LogRecordView {
            severity: Severity::Error,
            message: "Failed to send SIGTERM to child, aborting early: "@ + error.message(),
            fields: seq![
                text_field("command"@, command),
                text_field("error_code"@, error.error_code()),
                text_field("error_type"@, error.class().error_type),
                text_field("stage"@, error.class().stage),
            ],
        },
        metrics: seq![
            increment("component_errors_total"@, 1, class_labels(command, error.class())),
            increment("processing_errors_total"@, 1, legacy_signal_labels(command, error)),
        ],
    }
}

impl<'a> ExecFailedToSignalChild<'a> {
    /// Consumes the event and yields its record and metric updates.
    pub fn emit(self) -> (out: Emission)
        ensures
            out@ == signal_failure_emission(self.command@, self.error@),
    {
        let ghost expected = signal_failure_emission(self.command@, self.error@);
        let message = String::from_str("Failed to send SIGTERM to child, aborting early: ").concat(
            self.error.message().as_str(),
        );
        let class = self.error.classify();
        let current = MetricUpdate::increment(
            "component_errors_total",
            1,
            class.labels(self.command),
        );
        let legacy_labels = vec![
            Label::new("command_code", self.command.to_owned()),
            Label::new("error", self.error.to_error_code()),
            Label::new("error_type", String::from_str(class.error_type)),
            Label::new("stage", String::from_str(class.stage)),
        ];
        assert(legacy_labels@.map_values(|l: Label| l@) =~= legacy_signal_labels(
            self.command@,
            self.error@,
        ));
        let metrics = vec![
            current,
            MetricUpdate::increment("processing_errors_total", 1, legacy_labels),
        ];
        let fields = vec![
            Field::text("command", self.command.to_owned()),
            Field::text("error_code", class.error_code.unwrap()),
            Field::text("error_type", String::from_str(class.error_type)),
            Field::text("stage", String::from_str(class.stage)),
        ];
        let out = Emission {
            log: LogRecord { severity: Severity::Error, message, fields },
            metrics,
        };
        assert(out@.log.fields =~= expected.log.fields);
        assert(out@.metrics =~= expected.metrics);
        out
    }
}

} // verus!
