//! Telemetry for a component that runs external commands.
//!
//! Each fact about one run of a command (a batch of events received, a
//! failure to start, a timeout, a completed run, a failure to signal the
//! child) is an event value. Emitting an event consumes it and yields the one
//! log record and the metric updates that the fact gives rise to, ready to be
//! handed to a logging sink and a metrics registry.
pub mod events;
pub mod guarantees;
pub mod record;
pub mod signal;
pub mod taxonomy;
pub mod text;

pub use events::{ExecCommandExecuted, ExecEventsReceived, ExecFailedError, ExecTimeoutError};
pub use signal::{ExecFailedToSignalChild, ExecFailedToSignalChildError};
