//! What a running worker process reports, and what its end means.

use crate::log::LogCategory;
use crate::status::DaemonStatus;
use crate::text::decimal;
use crate::text::decimal_text;
use crate::text::join;
use vstd::prelude::*;
use vstd::string::*;

verus! {

/// The stream on which the worker wrote a line.
#[derive(Clone, Copy, Debug, PartialEq, Eq, Structural)]
pub enum OutputStream {
    Stdout,
    Stderr,
}

impl OutputStream {
    /// The category under which a line of this stream is logged.
    pub open spec fn category(self) -> LogCategory {
        match self {
            OutputStream::Stdout => LogCategory::Stdout,
            OutputStream::Stderr => LogCategory::Stderr,
        }
    }

    pub fn log_category(&self) -> (category: LogCategory)
        ensures
            category == self.category(),
    {
        match self {
            OutputStream::Stdout => LogCategory::Stdout,
            OutputStream::Stderr => LogCategory::Stderr,
        }
    }
}

/// One event of the stream that a running worker process gives.
#[derive(Debug, PartialEq, Eq)]
pub enum ProcessEvent {
    /// The worker wrote a line.
    OutputLine { stream: OutputStream, line: String },
    /// Running the worker failed; the process may go on.
    ExecutionError { message: String },
    /// The process has ended. `exit_code` is absent where a signal ended it.
    Terminated { exit_code: Option<i32>, signal: Option<i32> },
}

/// A process event as contracts see it.
pub enum ProcessEventView {
    OutputLine { stream: OutputStream, line: Seq<char> },
    ExecutionError { message: Seq<char> },
    Terminated { exit_code: Option<i32>, signal: Option<i32> },
}

impl View for ProcessEvent {
    type V = ProcessEventView;

    open spec fn view(&self) -> ProcessEventView {
        match *self {
            ProcessEvent::OutputLine { stream, line } => ProcessEventView::OutputLine {
                stream,
                line: line@,
            },
            ProcessEvent::ExecutionError { message } => ProcessEventView::ExecutionError {
                message: message@,
            },
            ProcessEvent::Terminated { exit_code, signal } => ProcessEventView::Terminated {
                exit_code,
                signal,
            },
        }
    }
}

/// The status in which the end of the process leaves the supervisor, given
/// the status just before: a stop that was asked for ends offline whatever
/// the exit code; otherwise only the exit code 0 is a clean end.
pub open spec fn status_after_exit(prior: DaemonStatus, exit_code: Option<i32>) -> DaemonStatus {
    if prior == DaemonStatus::Stopping {
        DaemonStatus::Offline
    } else if exit_code == Some(0i32) {
        DaemonStatus::Offline
    } else {
        DaemonStatus::Error
    }
}

/// The exit code as the status line shows it.
pub open spec fn exit_code_text(exit_code: Option<i32>) -> Seq<char> {
    match exit_code {
        Some(code) => decimal_text(code as int),
        None => "killed by signal"@,
    }
}

/// The status line that reports the end of the process.
pub open spec fn termination_text(exit_code: Option<i32>, signal: Option<i32>) -> Seq<char> {
    match signal {
        Some(number) => "Daemon terminated. Exit code: "@ + exit_code_text(exit_code)
            + ", signal: "@ + decimal_text(number as int),
        None => "Daemon terminated. Exit code: "@ + exit_code_text(exit_code),
    }
}

/// The message that reports an execution error.
pub open spec fn execution_error_text(message: Seq<char>) -> Seq<char> {
    "Daemon execution error: "@ + message
}

/// The message that explains an end with a non-zero exit code.
pub open spec fn nonzero_exit_text(code: i32) -> Seq<char> {
    "Daemon exited with non-zero status: "@ + decimal_text(code as int)
}

/// The message that explains an end without an exit code.
pub open spec fn killed_text() -> Seq<char> {
    "Daemon terminated unexpectedly (e.g. by signal)."@
}

/// The message that confirms an end that was asked for.
pub open spec fn stopped_text() -> Seq<char> {
    "Daemon stopped as expected."@
}

/// The message that reports an event stream that closed without a
/// termination event.
pub open spec fn stream_ended_text() -> Seq<char> {
    "Daemon event stream ended unexpectedly. Marking as offline."@
}

/// What is logged after the status line when the process of the current
/// instance has ended: nothing for a clean end that nobody asked for.
pub open spec fn exit_note(prior: DaemonStatus, exit_code: Option<i32>) -> Option<
    (LogCategory, Seq<char>),
> {
    if prior == DaemonStatus::Stopping {
        Some((LogCategory::Status, stopped_text()))
    } else {
        match exit_code {
            Some(code) => if code != 0 {
                Some((LogCategory::Error, nonzero_exit_text(code)))
            } else {
                None
            },
            None => Some((LogCategory::Error, killed_text())),
        }
    }
}

/// Decides the status after the process has ended.
pub fn classify_exit(prior: DaemonStatus, exit_code: Option<i32>) -> (status: DaemonStatus)
    ensures
        status == status_after_exit(prior, exit_code),
{
    if prior == DaemonStatus::Stopping {
        DaemonStatus::Offline
    } else {
        match exit_code {
            Some(code) => if code == 0 {
                DaemonStatus::Offline
            } else {
                DaemonStatus::Error
            },
            None => DaemonStatus::Error,
        }
    }
}

/// Writes the status line that reports the end of the process.
pub fn termination_line(exit_code: Option<i32>, signal: Option<i32>) -> (text: String)
    ensures
        text@ == termination_text(exit_code, signal),
{
    let code_text: String = match exit_code {
        Some(code) => decimal(code),
        None => String::from_str("killed by signal"),
    };
    let line: String = join("Daemon terminated. Exit code: ", code_text.as_str());
    match signal {
        Some(number) => {
            let digits: String = decimal(number);
            line.concat(", signal: ").concat(digits.as_str())
        },
        None => line,
    }
}

/// Writes the message that explains an end with a non-zero exit code.
pub fn nonzero_exit_line(code: i32) -> (text: String)
    ensures
        text@ == nonzero_exit_text(code),
{
    let digits: String = decimal(code);
    join("Daemon exited with non-zero status: ", digits.as_str())
}

} // verus!
