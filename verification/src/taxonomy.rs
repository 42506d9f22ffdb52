//! The fixed vocabulary by which failures are classified: the stage at which
//! a failure happened, its type, and its code.
//!
//! The stage and the type are drawn from a few fixed words, so that the
//! metrics labelled with them stay few. Only the code varies with what the
//! operating system reported.
use crate::record::{label, Label, LabelView};
use crate::text::{decimal_text, signed_to_string};
use tokio::time::error::Elapsed;
use vstd::prelude::*;
use vstd::string::*;

verus! {

/// The stage of every failure that this component reports: it fails while
/// receiving from the command.
pub const RECEIVING: &'static str = "receiving";

/// The type of a failure to run the command or to signal its child.
pub const COMMAND_FAILED: &'static str = "command_failed";

/// The type of a failure to finish within the time allowed.
pub const TIMED_OUT: &'static str = "timed_out";

/// The code of a failure for which the platform gave none.
pub const UNKNOWN: &'static str = "unknown";

/// A failure of the operating system to start the command or to read from
/// it.
#[derive(Debug, PartialEq, Eq)]
pub struct OsError {
    /// The platform's error code, where the failure has one.
    pub code: Option<i32>,
    /// The failure as the platform describes it.
    pub description: String,
}

/// How a failure is classified.
#[derive(Debug, PartialEq, Eq)]
pub struct ErrorClass {
    /// The stage at which the failure happened.
    pub stage: &'static str,
    /// The type of the failure.
    pub error_type: &'static str,
    /// The code of the failure. A timeout has none; every other failure has
    /// one, which is `unknown` where the platform gave none.
    pub error_code: Option<String>,
}

/// The mathematical value of an [`ErrorClass`].
pub struct ErrorClassView {
    pub stage: Seq<char>,
    pub error_type: Seq<char>,
    pub error_code: Option<Seq<char>>,
}

impl View for ErrorClass {
    type V = ErrorClassView;

    open spec fn view(&self) -> ErrorClassView {
        ErrorClassView {
            stage: self.stage@,
            error_type: self.error_type@,
            error_code: match self.error_code {
                Some(code) => Some(code@),
                None => None,
            },
        }
    }
}

/// The code under which an operating-system failure is counted: the decimal
/// text of the platform's code, or `unknown` where there is none.
pub open spec fn io_error_code_text(code: Option<i32>) -> Seq<char> {
    match code {
        Some(c) => decimal_text(c as int),
        None => UNKNOWN@,
    }
}

/// The class of a failure of the operating system with the given code.
pub open spec fn os_error_class(code: Option<i32>) -> ErrorClassView {
    ErrorClassView {
        stage: RECEIVING@,
        error_type: COMMAND_FAILED@,
        error_code: Some(io_error_code_text(code)),
    }
}

/// The class of a timeout.
pub open spec fn timeout_class() -> ErrorClassView {
    ErrorClassView { stage: RECEIVING@, error_type: TIMED_OUT@, error_code: None }
}

/// The labels under which the current error counter counts a failure of the
/// given class: the command, the type, the code where the class has one, and
/// the stage.
pub open spec fn class_labels(command: Seq<char>, class: ErrorClassView) -> Seq<LabelView> {
    match class.error_code {
        Some(code) => seq![
            label("command"@, command),
            label("error_type"@, class.error_type),
            label("error_code"@, code),
            label("stage"@, class.stage),
        ],
        None => seq![
            label("command"@, command),
            label("error_type"@, class.error_type),
            label("stage"@, class.stage),
        ],
    }
}

/// The labels under which the older error counter counts a failure of the
/// given class: the command, the type and the stage, never the code.
pub open spec fn class_labels_without_code(command: Seq<char>, class: ErrorClassView) -> Seq<
    LabelView,
> {
    seq![
        label("command"@, command),
        label("error_type"@, class.error_type),
        label("stage"@, class.stage),
    ]
}

/// The code under which an operating-system failure is counted.
pub fn io_error_code(error: &OsError) -> (code: String)
    ensures
        code@ == io_error_code_text(error.code),
{
    match error.code {
        Some(c) => signed_to_string(c),
        None => String::from_str(UNKNOWN),
    }
}

/// Classifies a failure of the operating system.
pub fn classify_os_error(error: &OsError) -> (class: ErrorClass)
    ensures
        class@ == os_error_class(error.code),
{
    ErrorClass {
        stage: RECEIVING,
        error_type: COMMAND_FAILED,
        error_code: Some(io_error_code(error)),
    }
}

/// Classifies a timeout. Every expired wait is classified alike.
pub fn classify_timeout(_error: &Elapsed) -> (class: ErrorClass)
    ensures
        class@ == timeout_class(),
{
    ErrorClass { stage: RECEIVING, error_type: TIMED_OUT, error_code: None }
}

impl ErrorClass {
    /// The labels under which the current error counter counts a failure of
    /// this class by `command`.
    pub fn labels(&self, command: &str) -> (labels: Vec<Label>)
        ensures
            labels@.map_values(|l: Label| l@) == class_labels(command@, self@),
    {
        let labels = match &self.error_code {
            Some(code) => vec![
                Label::new("command", command.to_owned()),
                Label::new("error_type", String::from_str(self.error_type)),
                Label::new("error_code", code.clone()),
                Label::new("stage", String::from_str(self.stage)),
            ],
            None => vec![
                Label::new("command", command.to_owned()),
                Label::new("error_type", String::from_str(self.error_type)),
                Label::new("stage", String::from_str(self.stage)),
            ],
        };
        assert(labels@.map_values(|l: Label| l@) =~= class_labels(command@, self@));
        labels
    }

    /// The labels under which the older error counter counts a failure of
    /// this class by `command`.
    pub fn labels_without_code(&self, command: &str) -> (labels: Vec<Label>)
        ensures
            labels@.map_values(|l: Label| l@) == class_labels_without_code(command@, self@),
    {
        let labels = vec![
            Label::new("command", command.to_owned()),
            Label::new("error_type", String::from_str(self.error_type)),
            Label::new("stage", String::from_str(self.stage)),
        ];
        assert(labels@.map_values(|l: Label| l@) =~= class_labels_without_code(command@, self@));
        labels
    }
}

} // verus!
