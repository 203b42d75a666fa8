//! One-shot calls of the worker executable: what is logged around a call and
//! what its result means.
//!
//! The caller runs the worker with the arguments and waits for it to end.
//! [`announce`] comes before the call, [`settle`] takes in how the process
//! ended, and [`accept`] takes in whether its output could be read as the
//! payload that was asked for.

use crate::clock::Timestamp;
use crate::log::LogCategory;
use crate::log::LogSink;
use crate::log::LogSinkView;
use crate::process::exit_code_text;
use crate::text::copy_list;
use crate::text::debug_list;
use crate::text::debug_list_text;
use crate::text::decimal;
use crate::text::texts;
use vstd::prelude::*;
use vstd::string::*;

verus! {

/// How a one-shot call of the worker went.
#[derive(Debug, PartialEq, Eq)]
pub enum InvocationOutcome {
    /// The process could not be created; `error` is the diagnostic.
    NotSpawned { error: String },
    /// The process ran and has ended. `exit_code` is absent where a signal
    /// ended it.
    Exited { exit_code: Option<i32>, stdout: String, stderr: String },
}

/// The end of a one-shot call as contracts see it.
pub enum InvocationOutcomeView {
    NotSpawned { error: Seq<char> },
    Exited { exit_code: Option<i32>, stdout: Seq<char>, stderr: Seq<char> },
}

impl View for InvocationOutcome {
    type V = InvocationOutcomeView;

    open spec fn view(&self) -> InvocationOutcomeView {
        match *self {
            InvocationOutcome::NotSpawned { error } => InvocationOutcomeView::NotSpawned {
                error: error@,
            },
            InvocationOutcome::Exited {
                exit_code,
                stdout,
                stderr,
            } => InvocationOutcomeView::Exited { exit_code, stdout: stdout@, stderr: stderr@ },
        }
    }
}

/// Why a one-shot call gave no payload.
#[derive(Debug, PartialEq, Eq)]
pub enum InvokeError {
    /// The process could not be created.
    SpawnFailed { args: Vec<String>, error: String },
    /// The process ended with another exit code than 0, or without one.
    InvocationFailed {
        args: Vec<String>,
        exit_status: Option<i32>,
        stderr: String,
        stdout: String,
    },
    /// The process ended with the exit code 0, but its output is not the
    /// payload that was asked for.
    MalformedResponse { args: Vec<String>, raw_stdout: String, parse_error: String },
}

/// A failed one-shot call as contracts see it.
pub enum InvokeErrorView {
    SpawnFailed { args: Seq<Seq<char>>, error: Seq<char> },
    InvocationFailed {
        args: Seq<Seq<char>>,
        exit_status: Option<i32>,
        stderr: Seq<char>,
        stdout: Seq<char>,
    },
    MalformedResponse { args: Seq<Seq<char>>, raw_stdout: Seq<char>, parse_error: Seq<char> },
}

impl View for InvokeError {
    type V = InvokeErrorView;

    open spec fn view(&self) -> InvokeErrorView {
        match *self {
            InvokeError::SpawnFailed { args, error } => InvokeErrorView::SpawnFailed {
                args: texts(args@),
                error: error@,
            },
            InvokeError::InvocationFailed {
                args,
                exit_status,
                stderr,
                stdout,
            } => InvokeErrorView::InvocationFailed {
                args: texts(args@),
                exit_status,
                stderr: stderr@,
                stdout: stdout@,
            },
            InvokeError::MalformedResponse {
                args,
                raw_stdout,
                parse_error,
            } => InvokeErrorView::MalformedResponse {
                args: texts(args@),
                raw_stdout: raw_stdout@,
                parse_error: parse_error@,
            },
        }
    }
}

/// The message that is logged before the worker is called. `args_text` is
/// the rendering of the arguments.
pub open spec fn invoking_text(args_text: Seq<char>) -> Seq<char> {
    "Invoking daemon: provider-daemon with args "@ + args_text
}

/// The message that holds the output of a call that ended with the exit
/// code 0.
pub open spec fn response_text(args_text: Seq<char>, stdout: Seq<char>) -> Seq<char> {
    "Daemon response for "@ + args_text + ": "@ + stdout
}

/// The diagnostic of a call whose process could not be created.
pub open spec fn not_spawned_text(args_text: Seq<char>, error: Seq<char>) -> Seq<char> {
    "Failed to execute daemon command "@ + args_text + ": "@ + error
}

/// The diagnostic of a call that ended with another exit code than 0, or
/// without one.
pub open spec fn failed_text(
    args_text: Seq<char>,
    exit_status: Option<i32>,
    stderr: Seq<char>,
    stdout: Seq<char>,
) -> Seq<char> {
    "Daemon command "@ + args_text + " failed with status "@ + exit_code_text(exit_status)
        + ": stderr: '"@ + stderr + "', stdout: '"@ + stdout + "'"@
}

/// The diagnostic of a call whose output could not be read.
pub open spec fn malformed_text(
    args_text: Seq<char>,
    parse_error: Seq<char>,
    raw_stdout: Seq<char>,
) -> Seq<char> {
    "Failed to parse JSON from daemon for "@ + args_text + ": "@ + parse_error + ". Output: '"@
        + raw_stdout + "'"@
}

impl InvokeErrorView {
    /// The diagnostic of the failure, as it is logged.
    pub open spec fn message(self) -> Seq<char> {
        match self {
            InvokeErrorView::SpawnFailed { args, error } => not_spawned_text(
                debug_list_text(args),
                error,
            ),
            InvokeErrorView::InvocationFailed { args, exit_status, stderr, stdout } => failed_text(
                debug_list_text(args),
                exit_status,
                stderr,
                stdout,
            ),
            InvokeErrorView::MalformedResponse {
                args,
                raw_stdout,
                parse_error,
            } => malformed_text(debug_list_text(args), parse_error, raw_stdout),
        }
    }
}

/// What the end of the process means: its output where the exit code is 0,
/// a failure otherwise.
pub open spec fn classified(args: Seq<Seq<char>>, outcome: InvocationOutcomeView) -> Result<
    Seq<char>,
    InvokeErrorView,
> {
    match outcome {
        InvocationOutcomeView::NotSpawned { error } => Err(
            InvokeErrorView::SpawnFailed { args, error },
        ),
        InvocationOutcomeView::Exited { exit_code, stdout, stderr } => if exit_code == Some(0i32) {
            Ok(stdout)
        } else {
            Err(InvokeErrorView::InvocationFailed { args, exit_status: exit_code, stderr, stdout })
        },
    }
}

/// The output or the failure of a call as contracts see it.
pub open spec fn response_view(response: Result<String, InvokeError>) -> Result<
    Seq<char>,
    InvokeErrorView,
> {
    match response {
        Ok(stdout) => Ok(stdout@),
        Err(error) => Err(error@),
    }
}

/// The sink after the end of a call has been logged: the output under
/// `stdout`, a failure with its diagnostic under `error`.
pub open spec fn settle_log(
    sink: LogSinkView,
    args: Seq<Seq<char>>,
    outcome: InvocationOutcomeView,
    timestamp: Seq<char>,
) -> LogSinkView {
    match classified(args, outcome) {
        Ok(stdout) => sink.logged(
            LogCategory::Stdout,
            response_text(debug_list_text(args), stdout),
            timestamp,
        ),
        Err(error) => sink.logged(LogCategory::Error, error.message(), timestamp),
    }
}

/// Writes the message that is logged before the worker is called.
pub fn invoking_line(args_text: &str) -> (text: String)
    ensures
        text@ == invoking_text(args_text@),
{
    String::from_str("Invoking daemon: provider-daemon with args ").concat(args_text)
}

/// Writes the message that holds the output of a call.
pub fn response_line(args_text: &str, stdout: &str) -> (text: String)
    ensures
        text@ == response_text(args_text@, stdout@),
{
    String::from_str("Daemon response for ").concat(args_text).concat(": ").concat(stdout)
}

/// Writes the diagnostic of a call whose process could not be created.
pub fn not_spawned_line(args_text: &str, error: &str) -> (text: String)
    ensures
        text@ == not_spawned_text(args_text@, error@),
{
    String::from_str("Failed to execute daemon command ").concat(args_text).concat(": ").concat(
        error,
    )
}

/// Writes the diagnostic of a call that ended with another exit code than
/// 0, or without one.
pub fn failed_line(args_text: &str, exit_status: Option<i32>, stderr: &str, stdout: &str) -> (text:
    String)
    ensures
        text@ == failed_text(args_text@, exit_status, stderr@, stdout@),
{
    let status: String = match exit_status {
        Some(code) => decimal(code),
        None => String::from_str("killed by signal"),
    };
    String::from_str("Daemon command ").concat(args_text).concat(" failed with status ").concat(
        status.as_str(),
    ).concat(": stderr: '").concat(stderr).concat("', stdout: '").concat(stdout).concat("'")
}

/// Writes the diagnostic of a call whose output could not be read.
pub fn malformed_line(args_text: &str, parse_error: &str, raw_stdout: &str) -> (text: String)
    ensures
        text@ == malformed_text(args_text@, parse_error@, raw_stdout@),
{
    String::from_str("Failed to parse JSON from daemon for ").concat(args_text).concat(
        ": ",
    ).concat(parse_error).concat(". Output: '").concat(raw_stdout).concat("'")
}

impl Clone for InvokeError {
    fn clone(&self) -> (copy: InvokeError)
        ensures
            copy@ == self@,
    {
        match self {
            InvokeError::SpawnFailed { args, error } => InvokeError::SpawnFailed {
                args: copy_list(args),
                error: error.clone(),
            },
            InvokeError::InvocationFailed {
                args,
                exit_status,
                stderr,
                stdout,
            } => InvokeError::InvocationFailed {
                args: copy_list(args),
                exit_status: *exit_status,
                stderr: stderr.clone(),
                stdout: stdout.clone(),
            },
            InvokeError::MalformedResponse {
                args,
                raw_stdout,
                parse_error,
            } => InvokeError::MalformedResponse {
                args: copy_list(args),
                raw_stdout: raw_stdout.clone(),
                parse_error: parse_error.clone(),
            },
        }
    }
}

impl InvokeError {
    /// The diagnostic of the failure, as it is logged.
    pub fn message(&self) -> (text: String)
        ensures
            text@ == self@.message(),
    {
        match self {
            InvokeError::SpawnFailed { args, error } => {
                let args_text: String = debug_list(args);
                not_spawned_line(args_text.as_str(), error.as_str())
            },
            InvokeError::InvocationFailed { args, exit_status, stderr, stdout } => {
                let args_text: String = debug_list(args);
                failed_line(args_text.as_str(), *exit_status, stderr.as_str(), stdout.as_str())
            },
            InvokeError::MalformedResponse { args, raw_stdout, parse_error } => {
                let args_text: String = debug_list(args);
                malformed_line(args_text.as_str(), parse_error.as_str(), raw_stdout.as_str())
            },
        }
    }
}

/// Decides what the end of a one-shot call means: the output of the worker
/// where it ended with the exit code 0, a failure that carries what the
/// process printed otherwise.
pub fn classify(args: &Vec<String>, outcome: InvocationOutcome) -> (response: Result<
    String,
    InvokeError,
>)
    ensures
        response_view(response) == classified(texts(args@), outcome@),
{
    match outcome {
        InvocationOutcome::NotSpawned { error } => Err(
            InvokeError::SpawnFailed { args: copy_list(args), error },
        ),
        InvocationOutcome::Exited { exit_code, stdout, stderr } => {
            let clean: bool = match exit_code {
                Some(code) => code == 0,
                None => false,
            };
            if clean {
                Ok(stdout)
            } else {
                Err(
                    InvokeError::InvocationFailed {
                        args: copy_list(args),
                        exit_status: exit_code,
                        stderr,
                        stdout,
                    },
                )
            }
        },
    }
}

/// Decides what the reading of the output means: the payload where it could
/// be read, a failure that carries the output and the parse error otherwise.
pub fn typed<T>(args: &Vec<String>, raw_stdout: String, parsed: Result<T, String>) -> (response:
    Result<T, InvokeError>)
    ensures
        match parsed {
            Ok(payload) => response == Ok::<T, InvokeError>(payload),
            Err(parse_error) => response matches Err(error) && error@
                == (InvokeErrorView::MalformedResponse {
                args: texts(args@),
                raw_stdout: raw_stdout@,
                parse_error: parse_error@,
            }),
        },
{
    match parsed {
        Ok(payload) => Ok(payload),
        Err(parse_error) => Err(
            InvokeError::MalformedResponse { args: copy_list(args), raw_stdout, parse_error },
        ),
    }
}

/// Logs that the worker is about to be called with `args`.
pub fn announce(sink: &mut LogSink, args: &Vec<String>, at: &Timestamp)
    requires
        old(sink).wf(),
        old(sink)@.can_take(1),
    ensures
        final(sink).wf(),
        final(sink)@ == old(sink)@.logged(
            LogCategory::Status,
            invoking_text(debug_list_text(texts(args@))),
            at@,
        ),
{
    let args_text: String = debug_list(args);
    sink.emit(LogCategory::Status, invoking_line(args_text.as_str()), at);
}

/// Takes in how a one-shot call ended: decides as [`classify`] does, and
/// logs the output or the failure.
pub fn settle(
    sink: &mut LogSink,
    args: &Vec<String>,
    outcome: InvocationOutcome,
    at: &Timestamp,
) -> (response: Result<String, InvokeError>)
    requires
        old(sink).wf(),
        old(sink)@.can_take(1),
    ensures
        final(sink).wf(),
        response_view(response) == classified(texts(args@), outcome@),
        final(sink)@ == settle_log(old(sink)@, texts(args@), outcome@, at@),
{
    let response: Result<String, InvokeError> = classify(args, outcome);
    match &response {
        Ok(stdout) => {
            let args_text: String = debug_list(args);
            sink.emit(
                LogCategory::Stdout,
                response_line(args_text.as_str(), stdout.as_str()),
                at,
            );
        },
        Err(error) => {
            sink.emit(LogCategory::Error, error.message(), at);
        },
    }
    response
}

/// Takes in whether the output of a call could be read as the payload that
/// was asked for: decides as [`typed`] does, and logs a failure.
pub fn accept<T>(
    sink: &mut LogSink,
    args: &Vec<String>,
    raw_stdout: String,
    parsed: Result<T, String>,
    at: &Timestamp,
) -> (response: Result<T, InvokeError>)
    requires
        old(sink).wf(),
        old(sink)@.can_take(1),
    ensures
        final(sink).wf(),
        match parsed {
            Ok(payload) => response == Ok::<T, InvokeError>(payload) && final(sink)@ == old(sink)@,
            Err(parse_error) => response matches Err(error) && error@
                == (InvokeErrorView::MalformedResponse {
                args: texts(args@),
                raw_stdout: raw_stdout@,
                parse_error: parse_error@,
            }) && final(sink)@ == old(sink)@.logged(LogCategory::Error, error@.message(), at@),
        },
{
    let response: Result<T, InvokeError> = typed(args, raw_stdout, parsed);
    match &response {
        Ok(_) => {},
        Err(error) => {
            sink.emit(LogCategory::Error, error.message(), at);
        },
    }
    response
}

} // verus!
