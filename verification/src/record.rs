//! What one emission hands to the sinks: a log record and metric updates.
use vstd::prelude::*;

verus! {

/// How serious the fact behind a log record is.
#[derive(Debug, Clone, Copy, PartialEq, Eq, Structural)]
pub enum Severity {
    /// An informational record of normal operation.
    Trace,
    /// A record of a failure.
    Error,
}

/// A length of time: whole seconds, and the part below a second in
/// nanoseconds.
#[derive(Debug, Clone, Copy, PartialEq, Eq, Structural)]
pub struct ExecDuration {
    pub secs: u64,
    pub subsec_nanos: u32,
}

impl ExecDuration {
    /// The whole milliseconds that the duration holds.
    pub open spec fn millis(self) -> nat {
        (self.secs * 1000 + self.subsec_nanos / 1_000_000) as nat
    }

    /// The whole milliseconds that the duration holds.
    pub fn as_millis(&self) -> (m: u128)
        ensures
            m == self.millis(),
    {
        (self.secs as u128) * 1000 + (self.subsec_nanos / 1_000_000) as u128
    }
}

/// The value of one named field of a log record.
#[derive(Debug, PartialEq, Eq)]
pub enum FieldValue {
    Number(u64),
    Text(String),
}

/// The mathematical value of a [`FieldValue`].
pub enum FieldValueView {
    Number(nat),
    Text(Seq<char>),
}

impl View for FieldValue {
    type V = FieldValueView;

    open spec fn view(&self) -> FieldValueView {
        match self {
            FieldValue::Number(n) => FieldValueView::Number(*n as nat),
            FieldValue::Text(t) => FieldValueView::Text(t@),
        }
    }
}

/// One named field of a log record.
#[derive(Debug, PartialEq, Eq)]
pub struct Field {
    pub key: &'static str,
    pub value: FieldValue,
}

/// The mathematical value of a [`Field`].
pub struct FieldView {
    pub key: Seq<char>,
    pub value: FieldValueView,
}

impl View for Field {
    type V = FieldView;

    open spec fn view(&self) -> FieldView {
        FieldView { key: self.key@, value: self.value@ }
    }
}

/// One structured log record.
#[derive(Debug, PartialEq, Eq)]
pub struct LogRecord {
    pub severity: Severity,
    pub message: String,
    pub fields: Vec<Field>,
}

/// The mathematical value of a [`LogRecord`].
pub struct LogRecordView {
    pub severity: Severity,
    pub message: Seq<char>,
    pub fields: Seq<FieldView>,
}

impl View for LogRecord {
    type V = LogRecordView;

    open spec fn view(&self) -> LogRecordView {
        LogRecordView {
            severity: self.severity,
            message: self.message@,
            fields: self.fields@.map_values(|f: Field| f@),
        }
    }
}

/// One label of a metric update.
#[derive(Debug, PartialEq, Eq)]
pub struct Label {
    pub key: &'static str,
    pub value: String,
}

/// The mathematical value of a [`Label`].
pub struct LabelView {
    pub key: Seq<char>,
    pub value: Seq<char>,
}

impl View for Label {
    type V = LabelView;

    open spec fn view(&self) -> LabelView {
        LabelView { key: self.key@, value: self.value@ }
    }
}

/// What a metric update does to its metric.
#[derive(Debug, Clone, Copy, PartialEq, Eq, Structural)]
pub enum MetricValue {
    /// Adds the amount to a counter.
    Increment(u64),
    /// Records one observation in a histogram.
    Observation(ExecDuration),
}

/// The mathematical value of a [`MetricValue`].
pub enum MetricValueView {
    Increment(nat),
    Observation(ExecDuration),
}

impl View for MetricValue {
    type V = MetricValueView;

    open spec fn view(&self) -> MetricValueView {
        match self {
            MetricValue::Increment(amount) => MetricValueView::Increment(*amount as nat),
            MetricValue::Observation(duration) => MetricValueView::Observation(*duration),
        }
    }
}

/// One update of a named metric under a set of labels.
#[derive(Debug, PartialEq, Eq)]
pub struct MetricUpdate {
    pub name: &'static str,
    pub value: MetricValue,
    pub labels: Vec<Label>,
}

/// The mathematical value of a [`MetricUpdate`].
pub struct MetricUpdateView {
    pub name: Seq<char>,
    pub value: MetricValueView,
    pub labels: Seq<LabelView>,
}

impl View for MetricUpdate {
    type V = MetricUpdateView;

    open spec fn view(&self) -> MetricUpdateView {
        MetricUpdateView {
            name: self.name@,
            value: self.value@,
            labels: self.labels@.map_values(|l: Label| l@),
        }
    }
}

/// Everything that emitting one event hands to the sinks: one log record,
/// and the metric updates in the order in which they are applied.
#[derive(Debug, PartialEq, Eq)]
pub struct Emission {
    pub log: LogRecord,
    pub metrics: Vec<MetricUpdate>,
}

/// The mathematical value of an [`Emission`].
pub struct EmissionView {
    pub log: LogRecordView,
    pub metrics: Seq<MetricUpdateView>,
}

impl View for Emission {
    type V = EmissionView;

    open spec fn view(&self) -> EmissionView {
        EmissionView { log: self.log@, metrics: self.metrics@.map_values(|u: MetricUpdate| u@) }
    }
}

/// A field that holds a number.
pub open spec fn number_field(key: Seq<char>, value: nat) -> FieldView {
    FieldView { key, value: FieldValueView::Number(value) }
}

/// A field that holds text.
pub open spec fn text_field(key: Seq<char>, value: Seq<char>) -> FieldView {
    FieldView { key, value: FieldValueView::Text(value) }
}

/// A label.
pub open spec fn label(key: Seq<char>, value: Seq<char>) -> LabelView {
    LabelView { key, value }
}

/// An increment of the counter `name` by `amount` under `labels`.
pub open spec fn increment(
    name: Seq<char>,
    amount: nat,
    labels: Seq<LabelView>,
) -> MetricUpdateView {
    MetricUpdateView { name, value: MetricValueView::Increment(amount), labels }
}

/// An observation of `duration` in the histogram `name` under `labels`.
pub open spec fn observation(
    name: Seq<char>,
    duration: ExecDuration,
    labels: Seq<LabelView>,
) -> MetricUpdateView {
    MetricUpdateView { name, value: MetricValueView::Observation(duration), labels }
}

/// Whether `fields` gives the field `key` the value `value`, and no other
/// value.
pub open spec fn field_is(fields: Seq<FieldView>, key: Seq<char>, value: FieldValueView) -> bool {
    &&& exists|i: int| 0 <= i < fields.len() && #[trigger] fields[i] == (FieldView { key, value })
    &&& forall|j: int|
        0 <= j < fields.len() && (#[trigger] fields[j]).key == key ==> fields[j].value == value
}

/// Whether `labels` gives the label `key` the value `value`, and no other
/// value.
pub open spec fn label_is(labels: Seq<LabelView>, key: Seq<char>, value: Seq<char>) -> bool {
    &&& exists|i: int| 0 <= i < labels.len() && #[trigger] labels[i] == label(key, value)
    &&& forall|j: int|
        0 <= j < labels.len() && (#[trigger] labels[j]).key == key ==> labels[j].value == value
}

/// Whether `update` is among `updates` and is the only one of them that goes
/// to its metric: one emission then changes that metric by `update` and by
/// nothing else.
pub open spec fn sole_update(updates: Seq<MetricUpdateView>, update: MetricUpdateView) -> bool {
    exists|k: int|
        {
            &&& 0 <= k < updates.len()
            &&& #[trigger] updates[k] == update
            &&& forall|j: int|
                0 <= j < updates.len() && j != k ==> (#[trigger] updates[j]).name != update.name
        }
}

impl Field {
    /// A field that holds a number.
    pub fn number(key: &'static str, value: u64) -> (f: Field)
        ensures
            f@ == number_field(key@, value as nat),
    {
        Field { key, value: FieldValue::Number(value) }
    }

    /// A field that holds text.
    pub fn text(key: &'static str, value: String) -> (f: Field)
        ensures
            f@ == text_field(key@, value@),
    {
        Field { key, value: FieldValue::Text(value) }
    }
}

impl Label {
    /// A label that gives `key` the value `value`.
    pub fn new(key: &'static str, value: String) -> (l: Label)
        ensures
            l@ == label(key@, value@),
    {
        Label { key, value }
    }
}

impl MetricUpdate {
    /// An increment of the counter `name` by `amount` under `labels`.
    pub fn increment(name: &'static str, amount: u64, labels: Vec<Label>) -> (u: MetricUpdate)
        ensures
            u@ == increment(name@, amount as nat, labels@.map_values(|l: Label| l@)),
    {
        MetricUpdate { name, value: MetricValue::Increment(amount), labels }
    }

    /// An observation of `duration` in the histogram `name` under `labels`.
    pub fn observation(name: &'static str, duration: ExecDuration, labels: Vec<Label>) -> (u:
        MetricUpdate)
        ensures
            u@ == observation(name@, duration, labels@.map_values(|l: Label| l@)),
    {
        MetricUpdate { name, value: MetricValue::Observation(duration), labels }
    }
}

} // verus!
