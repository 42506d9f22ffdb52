//! What holds of every emission, proved from the definitions of the events.
use crate::events::{
    command_label, events_received_emission, executed_emission, executed_labels, exit_status_text,
    failed_emission, timeout_emission,
};
use crate::record::{
    field_is, increment, label, label_is, observation, sole_update, text_field, ExecDuration,
    FieldValueView, Severity,
};
use crate::signal::{legacy_signal_labels, signal_failure_emission, SignalFailure};
use crate::taxonomy::{
    class_labels, class_labels_without_code, io_error_code_text, os_error_class, timeout_class,
    ErrorClassView,
};
use crate::text::{decimal_text, decimal_text_begins_with_digit_or_sign, decimal_text_is_unique};
use vstd::prelude::*;

verus! {

/// The names of the metrics that one emission updates are pairwise different
/// texts.
proof fn metric_names_differ()
    ensures
        "component_received_events_total"@ != "component_received_event_bytes_total"@,
        "component_received_events_total"@ != "events_in_total"@,
        "component_received_event_bytes_total"@ != "events_in_total"@,
        "component_errors_total"@ != "processing_errors_total"@,
        "command_executed_total"@ != "command_execution_duration_seconds"@,
{
    reveal_strlit("component_received_events_total");
    reveal_strlit("component_received_event_bytes_total");
    reveal_strlit("events_in_total");
    reveal_strlit("component_errors_total");
    reveal_strlit("processing_errors_total");
    reveal_strlit("command_executed_total");
    reveal_strlit("command_execution_duration_seconds");
    assert("component_received_events_total"@.len() == 31);
    assert("component_received_event_bytes_total"@.len() == 36);
    assert("events_in_total"@.len() == 15);
    assert("component_errors_total"@.len() == 22);
    assert("processing_errors_total"@.len() == 23);
    assert("command_executed_total"@.len() == 22);
    assert("command_execution_duration_seconds"@.len() == 34);
}

/// The keys of the labels and of the fields are pairwise different texts
/// where one label set or one record holds both.
proof fn keys_differ()
    ensures
        "command"@ != "error_type"@,
        "command"@ != "error_code"@,
        "command"@ != "error"@,
        "command"@ != "stage"@,
        "command"@ != "exit_status"@,
        "error_type"@ != "error_code"@,
        "error_type"@ != "stage"@,
        "error_code"@ != "stage"@,
        "error_code"@ != "error"@,
        "command_code"@ != "error"@,
        "command_code"@ != "error_type"@,
        "command_code"@ != "stage"@,
        "error"@ != "error_type"@,
        "error"@ != "stage"@,
        "exit_status"@ != "elapsed_millis"@,
{
    reveal_strlit("command");
    reveal_strlit("error_type");
    reveal_strlit("error_code");
    reveal_strlit("stage");
    reveal_strlit("exit_status");
    reveal_strlit("command_code");
    reveal_strlit("error");
    reveal_strlit("elapsed_millis");
    assert("command"@.len() == 7);
    assert("error_type"@.len() == 10);
    assert("error_code"@.len() == 10);
    assert("stage"@.len() == 5);
    assert("exit_status"@.len() == 11);
    assert("command_code"@.len() == 12);
    assert("error"@.len() == 5);
    assert("elapsed_millis"@.len() == 14);
    assert("error_type"@[6] == 't');
    assert("error_code"@[6] == 'c');
    assert("stage"@[0] == 's');
    assert("error"@[0] == 'e');
}

/// Every failure is classified in full: the stage is `receiving`, the type is
/// `command_failed` for a failure of the operating system or of a signal and
/// `timed_out` for a timeout, and a failure of the operating system or of a
/// signal has a code that is never empty. The code of a failure of the
/// operating system is `unknown` exactly where the platform gave none.
pub proof fn every_failure_is_classified(code: Option<i32>, error: SignalFailure)
    ensures
        os_error_class(code).stage == "receiving"@,
        os_error_class(code).error_type == "command_failed"@,
        os_error_class(code).error_code == Some(io_error_code_text(code)),
        io_error_code_text(code).len() >= 1,
        code is None <==> io_error_code_text(code) == "unknown"@,
        code is Some ==> io_error_code_text(code) == decimal_text(code->0 as int),
        timeout_class().stage == "receiving"@,
        timeout_class().error_type == "timed_out"@,
        timeout_class().error_code is None,
        error.class().stage == "receiving"@,
        error.class().error_type == "command_failed"@,
        error.class().error_code == Some(error.error_code()),
        error.error_code().len() >= 1,
{
    reveal_strlit("unknown");
    reveal_strlit("errno_");
    reveal_strlit("failed_to_marshal_pid");
    reveal_strlit("no_pid");
    assert("unknown"@.len() == 7);
    assert("unknown"@[0] == 'u');
    assert("errno_"@.len() == 6);
    assert("failed_to_marshal_pid"@.len() == 21);
    assert("no_pid"@.len() == 6);
    if let Some(c) = code {
        decimal_text_begins_with_digit_or_sign(c as int);
    }
}

/// The labels of the current error counter give the command, the type and
/// the stage of the class, and its code where it has one; those of the older
/// error counter give the command, the type and the stage.
pub proof fn error_labels_are_complete(command: Seq<char>, class: ErrorClassView)
    ensures
        label_is(class_labels(command, class), "command"@, command),
        label_is(class_labels(command, class), "error_type"@, class.error_type),
        label_is(class_labels(command, class), "stage"@, class.stage),
        class.error_code is Some ==> label_is(
            class_labels(command, class),
            "error_code"@,
            class.error_code->0,
        ),
        label_is(class_labels_without_code(command, class), "command"@, command),
        label_is(class_labels_without_code(command, class), "error_type"@, class.error_type),
        label_is(class_labels_without_code(command, class), "stage"@, class.stage),
{
    keys_differ();
    let current = class_labels(command, class);
    let older = class_labels_without_code(command, class);
    assert(current[0] == label("command"@, command));
    assert(current[1] == label("error_type"@, class.error_type));
    match class.error_code {
        Some(code) => {
            assert(current[2] == label("error_code"@, code));
            assert(current[3] == label("stage"@, class.stage));
        },
        None => {
            assert(current[2] == label("stage"@, class.stage));
        },
    }
    assert(older[0] == label("command"@, command));
    assert(older[1] == label("error_type"@, class.error_type));
    assert(older[2] == label("stage"@, class.stage));
}

/// Emitting a received batch adds exactly `count` to the counter of events
/// and exactly `byte_size` to the counter of bytes, each under the given
/// command and under no other label, and adds the same `count` to the older
/// counter of events. This holds of an empty batch too.
pub proof fn received_batch_is_counted_once(count: nat, command: Seq<char>, byte_size: nat)
    ensures
        ({
            let emission = events_received_emission(count, command, byte_size);
            &&& emission.log.severity == Severity::Trace
            &&& emission.metrics.len() == 3
            &&& sole_update(
                emission.metrics,
                increment("component_received_events_total"@, count, command_label(command)),
            )
            &&& sole_update(
                emission.metrics,
                increment(
                    "component_received_event_bytes_total"@,
                    byte_size,
                    command_label(command),
                ),
            )
            &&& sole_update(
                emission.metrics,
                increment("events_in_total"@, count, command_label(command)),
            )
            &&& command_label(command).len() == 1
            &&& label_is(command_label(command), "command"@, command)
        }),
{
    metric_names_differ();
    let emission = events_received_emission(count, command, byte_size);
    assert(emission.metrics[0] == increment(
        "component_received_events_total"@,
        count,
        command_label(command),
    ));
    assert(emission.metrics[1] == increment(
        "component_received_event_bytes_total"@,
        byte_size,
        command_label(command),
    ));
    assert(emission.metrics[2] == increment("events_in_total"@, count, command_label(command)));
    assert(command_label(command)[0] == label("command"@, command));
}

/// Emitting a failed run writes an error record whose `error_code` is the
/// code derived from the platform's code, `unknown` where the platform gave
/// none, and adds exactly one to the current and exactly one to the older
/// error counter, each under the type `command_failed` and the stage
/// `receiving`; the current counter also carries the code.
pub proof fn failed_run_is_classified(command: Seq<char>, code: Option<i32>, description: Seq<char>)
    ensures
        ({
            let emission = failed_emission(command, code, description);
            let error_code = io_error_code_text(code);
            let current = class_labels(command, os_error_class(code));
            let older = class_labels_without_code(command, os_error_class(code));
            &&& emission.log.severity == Severity::Error
            &&& field_is(emission.log.fields, "error_code"@, FieldValueView::Text(error_code))
            &&& code is None ==> error_code == "unknown"@
            &&& code is Some ==> error_code == decimal_text(code->0 as int)
            &&& emission.metrics.len() == 2
            &&& sole_update(emission.metrics, increment("component_errors_total"@, 1, current))
            &&& sole_update(emission.metrics, increment("processing_errors_total"@, 1, older))
            &&& label_is(current, "command"@, command)
            &&& label_is(current, "error_type"@, "command_failed"@)
            &&& label_is(current, "error_code"@, error_code)
            &&& label_is(current, "stage"@, "receiving"@)
            &&& label_is(older, "command"@, command)
            &&& label_is(older, "error_type"@, "command_failed"@)
            &&& label_is(older, "stage"@, "receiving"@)
        }),
{
    metric_names_differ();
    keys_differ();
    error_labels_are_complete(command, os_error_class(code));
    let emission = failed_emission(command, code, description);
    let error_code = io_error_code_text(code);
    assert(emission.log.fields[3] == text_field("error_code"@, error_code));
    assert(emission.metrics[0] == increment(
        "component_errors_total"@,
        1,
        class_labels(command, os_error_class(code)),
    ));
    assert(emission.metrics[1] == increment(
        "processing_errors_total"@,
        1,
        class_labels_without_code(command, os_error_class(code)),
    ));
}

/// Emitting a timeout writes an error record and adds exactly one to the
/// current and exactly one to the older error counter, each under the type
/// `timed_out` and the stage `receiving`, however long the time allowed was.
pub proof fn timeout_is_classified(command: Seq<char>, elapsed_seconds: nat)
    ensures
        ({
            let emission = timeout_emission(command, elapsed_seconds);
            let current = class_labels(command, timeout_class());
            let older = class_labels_without_code(command, timeout_class());
            &&& emission.log.severity == Severity::Error
            &&& emission.metrics.len() == 2
            &&& emission.metrics == timeout_emission(command, 0).metrics
            &&& sole_update(emission.metrics, increment("component_errors_total"@, 1, current))
            &&& sole_update(emission.metrics, increment("processing_errors_total"@, 1, older))
            &&& label_is(current, "command"@, command)
            &&& label_is(current, "error_type"@, "timed_out"@)
            &&& label_is(current, "stage"@, "receiving"@)
            &&& label_is(older, "command"@, command)
            &&& label_is(older, "error_type"@, "timed_out"@)
            &&& label_is(older, "stage"@, "receiving"@)
        }),
{
    metric_names_differ();
    error_labels_are_complete(command, timeout_class());
    let emission = timeout_emission(command, elapsed_seconds);
    assert(emission.metrics[0] == increment(
        "component_errors_total"@,
        1,
        class_labels(command, timeout_class()),
    ));
    assert(emission.metrics[1] == increment(
        "processing_errors_total"@,
        1,
        class_labels_without_code(command, timeout_class()),
    ));
}

/// The text of an exit status is never empty, and it is `unknown` exactly
/// where the command left no exit code.
pub proof fn exit_status_text_is_complete(exit_status: Option<i32>)
    ensures
        exit_status_text(exit_status).len() >= 1,
        exit_status is None <==> exit_status_text(exit_status) == "unknown"@,
        exit_status is Some ==> exit_status_text(exit_status) == decimal_text(
            exit_status->0 as int,
        ),
{
    reveal_strlit("unknown");
    assert("unknown"@.len() == 7);
    assert("unknown"@[0] == 'u');
    if let Some(code) = exit_status {
        decimal_text_begins_with_digit_or_sign(code as int);
    }
}

/// Emitting a completed run counts it once and observes its running time
/// once, unchanged, each under the command and the text of the exit status;
/// the record carries the same text.
pub proof fn completed_run_is_observed_exactly(
    command: Seq<char>,
    exit_status: Option<i32>,
    exec_duration: ExecDuration,
)
    ensures
        ({
            let emission = executed_emission(command, exit_status, exec_duration);
            let labels = executed_labels(command, exit_status);
            &&& emission.log.severity == Severity::Trace
            &&& field_is(
                emission.log.fields,
                "exit_status"@,
                FieldValueView::Text(exit_status_text(exit_status)),
            )
            &&& emission.metrics.len() == 2
            &&& sole_update(emission.metrics, increment("command_executed_total"@, 1, labels))
            &&& sole_update(
                emission.metrics,
                observation("command_execution_duration_seconds"@, exec_duration, labels),
            )
            &&& label_is(labels, "command"@, command)
            &&& label_is(labels, "exit_status"@, exit_status_text(exit_status))
        }),
{
    metric_names_differ();
    keys_differ();
    let emission = executed_emission(command, exit_status, exec_duration);
    let labels = executed_labels(command, exit_status);
    assert(emission.log.fields[1] == text_field("exit_status"@, exit_status_text(exit_status)));
    assert(emission.metrics[0] == increment("command_executed_total"@, 1, labels));
    assert(emission.metrics[1] == observation(
        "command_execution_duration_seconds"@,
        exec_duration,
        labels,
    ));
    assert(labels[0] == label("command"@, command));
    assert(labels[1] == label("exit_status"@, exit_status_text(exit_status)));
}

/// Two failures to signal are counted under the same code only if they have
/// the same cause, and two refusals by the operating system only if it gave
/// the same error number.
pub proof fn signal_failure_codes_are_distinct(a: SignalFailure, b: SignalFailure)
    requires
        a.error_code() == b.error_code(),
    ensures
        a is SignalError <==> b is SignalError,
        a is FailedToMarshalPid <==> b is FailedToMarshalPid,
        a is NoPid <==> b is NoPid,
        a is SignalError ==> a->errno == b->errno,
{
    reveal_strlit("errno_");
    reveal_strlit("failed_to_marshal_pid");
    reveal_strlit("no_pid");
    assert("errno_"@.len() == 6);
    assert("errno_"@[0] == 'e');
    assert("failed_to_marshal_pid"@[0] == 'f');
    assert("no_pid"@[0] == 'n');
    assert(a is SignalError ==> a.error_code()[0] == 'e');
    assert(b is SignalError ==> b.error_code()[0] == 'e');
    if a is SignalError && b is SignalError {
        let text_a = decimal_text(a->errno);
        let text_b = decimal_text(b->errno);
        assert(text_a =~= a.error_code().subrange(6, a.error_code().len() as int));
        assert(text_b =~= b.error_code().subrange(6, b.error_code().len() as int));
        decimal_text_is_unique(a->errno, b->errno);
    }
}

/// Emitting a failure to signal writes an error record and adds exactly one
/// to the current error counter and exactly one to the older one, each under
/// the type `command_failed`, the stage `receiving` and the code of the
/// cause; the older counter keeps the command under `command_code` and the
/// code under `error`.
pub proof fn signal_failure_is_counted_once(command: Seq<char>, error: SignalFailure)
    ensures
        ({
            let emission = signal_failure_emission(command, error);
            let current = class_labels(command, error.class());
            let older = legacy_signal_labels(command, error);
            &&& emission.log.severity == Severity::Error
            &&& field_is(
                emission.log.fields,
                "error_code"@,
                FieldValueView::Text(error.error_code()),
            )
            &&& emission.metrics.len() == 2
            &&& sole_update(emission.metrics, increment("component_errors_total"@, 1, current))
            &&& sole_update(emission.metrics, increment("processing_errors_total"@, 1, older))
            &&& label_is(current, "command"@, command)
            &&& label_is(current, "error_type"@, "command_failed"@)
            &&& label_is(current, "error_code"@, error.error_code())
            &&& label_is(current, "stage"@, "receiving"@)
            &&& label_is(older, "command_code"@, command)
            &&& label_is(older, "error"@, error.error_code())
            &&& label_is(older, "error_type"@, "command_failed"@)
            &&& label_is(older, "stage"@, "receiving"@)
        }),
{
    metric_names_differ();
    keys_differ();
    error_labels_are_complete(command, error.class());
    let emission = signal_failure_emission(command, error);
    let older = legacy_signal_labels(command, error);
    assert(emission.log.fields[1] == text_field("error_code"@, error.error_code()));
    assert(emission.metrics[0] == increment(
        "component_errors_total"@,
        1,
        class_labels(command, error.class()),
    ));
    assert(emission.metrics[1] == increment("processing_errors_total"@, 1, older));
    assert(older[0] == label("command_code"@, command));
    assert(older[1] == label("error"@, error.error_code()));
    assert(older[2] == label("error_type"@, "command_failed"@));
    assert(older[3] == label("stage"@, "receiving"@));
}

} // verus!
