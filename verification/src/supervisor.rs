//! The supervisor of the worker process: its status, the handle of the
//! process it has stored, and what each request and each process event
//! changes.
//!
//! The supervisor spawns nothing and signals nothing itself. A request is
//! taken in two steps, so that no lock is held while the caller works: the
//! first step decides and names what the caller has to do (spawn a process,
//! send a signal), the second step takes in how that went. Every process
//! instance has a token of its own; what arrives for an instance that is not
//! the newest one changes neither the status nor the stored handle.

use crate::clock::Timestamp;
use crate::log::LogCategory;
use crate::log::LogSink;
use crate::log::LogSinkView;
use crate::process::classify_exit;
use crate::process::execution_error_text;
use crate::process::exit_note;
use crate::process::nonzero_exit_line;
use crate::process::status_after_exit;
use crate::process::stream_ended_text;
use crate::process::termination_line;
use crate::process::termination_text;
use crate::process::ProcessEvent;
use crate::process::ProcessEventView;
use crate::status::DaemonStatus;
use crate::text::enclose;
use crate::text::join;
use vstd::prelude::*;
use vstd::string::*;

verus! {

/// The message and reply of a start request that changes nothing.
pub open spec fn already_running_text() -> Seq<char> {
    "Daemon is already online or starting."@
}

/// The message that opens a start.
pub open spec fn starting_text() -> Seq<char> {
    "Attempting to start provider daemon..."@
}

/// The message and reply of a spawn that failed with the diagnostic `error`.
pub open spec fn spawn_failed_text(error: Seq<char>) -> Seq<char> {
    "Failed to spawn sidecar 'provider-daemon': "@ + error
}

/// The message that reports a process that came up.
pub open spec fn started_text() -> Seq<char> {
    "Daemon process provider-daemon started successfully."@
}

/// The reply to a start that brought the worker online.
pub open spec fn started_reply() -> Seq<char> {
    "Daemon started successfully and events are being monitored."@
}

/// The message and reply for a process that came up after a newer start had
/// taken over.
pub open spec fn superseded_text() -> Seq<char> {
    "Daemon process provider-daemon was superseded by a newer start request."@
}

/// The message and reply of a stop request that changes nothing.
pub open spec fn already_stopped_text() -> Seq<char> {
    "Daemon is already offline or stopping."@
}

/// The message that opens a stop.
pub open spec fn stopping_text() -> Seq<char> {
    "Attempting to stop daemon..."@
}

/// The message and reply of a stop request that finds no process.
pub open spec fn no_process_text() -> Seq<char> {
    "No active daemon process found to stop."@
}

/// The message that reports a delivered termination signal.
pub open spec fn signal_sent_text() -> Seq<char> {
    "Daemon kill signal sent."@
}

/// The reply to a stop whose signal was delivered.
pub open spec fn signal_sent_reply() -> Seq<char> {
    "Daemon stop signal sent successfully. Waiting for termination event."@
}

/// The message and reply of a termination signal that could not be
/// delivered, with the diagnostic `error`.
pub open spec fn signal_failed_text(error: Seq<char>) -> Seq<char> {
    "Failed to send kill signal to daemon: "@ + error + ". Marking as error."@
}

/// The diagnostic of a step that the caller reports as failed, if it failed.
pub open spec fn failure_text(result: Result<(), String>) -> Option<Seq<char>> {
    match result {
        Ok(_) => None,
        Err(error) => Some(error@),
    }
}

/// An instance token as contracts see it.
pub open spec fn token(instance: Option<u64>) -> Option<nat> {
    match instance {
        Some(t) => Some(t as nat),
        None => None,
    }
}

/// The supervisor as contracts see it.
pub struct SupervisorView {
    pub status: DaemonStatus,
    /// The token of the process whose handle is stored, if one is.
    pub handle: Option<nat>,
    /// The token of the newest instance; 0 before the first start.
    pub generation: nat,
}

/// What the caller does after a start request.
#[derive(Debug, PartialEq, Eq)]
pub enum StartStep {
    /// Nothing: the worker is online or starting, as `status` says. `reply`
    /// is the answer to the request, a success.
    AlreadyRunning { status: DaemonStatus, reply: String },
    /// Spawn the worker as instance `instance`, after terminating the
    /// process of `replace` if there is one, and report with
    /// [`Supervisor::complete_start`].
    Spawn { instance: u64, replace: Option<u64> },
}

/// A start step as contracts see it.
pub enum StartStepView {
    AlreadyRunning { status: DaemonStatus, reply: Seq<char> },
    Spawn { instance: nat, replace: Option<nat> },
}

impl View for StartStep {
    type V = StartStepView;

    open spec fn view(&self) -> StartStepView {
        match *self {
            StartStep::AlreadyRunning { status, reply } => StartStepView::AlreadyRunning {
                status,
                reply: reply@,
            },
            StartStep::Spawn { instance, replace } => StartStepView::Spawn {
                instance: instance as nat,
                replace: token(replace),
            },
        }
    }
}

/// How a start ended.
#[derive(Debug, PartialEq, Eq)]
pub enum StartOutcome {
    /// The worker is online. The caller reads the events of `instance` from
    /// now on; `reply` is a success.
    Online { instance: u64, reply: String },
    /// The spawn failed; `reply` is the failure with its diagnostic.
    Failed { reply: String },
    /// The process came up after a newer start had taken over. The caller
    /// terminates the process of `instance`; `reply` is a success.
    Superseded { instance: u64, reply: String },
}

/// The end of a start as contracts see it.
pub enum StartOutcomeView {
    Online { instance: nat, reply: Seq<char> },
    Failed { reply: Seq<char> },
    Superseded { instance: nat, reply: Seq<char> },
}

impl View for StartOutcome {
    type V = StartOutcomeView;

    open spec fn view(&self) -> StartOutcomeView {
        match *self {
            StartOutcome::Online { instance, reply } => StartOutcomeView::Online {
                instance: instance as nat,
                reply: reply@,
            },
            StartOutcome::Failed { reply } => StartOutcomeView::Failed { reply: reply@ },
            StartOutcome::Superseded { instance, reply } => StartOutcomeView::Superseded {
                instance: instance as nat,
                reply: reply@,
            },
        }
    }
}

/// What the caller does after a stop request.
#[derive(Debug, PartialEq, Eq)]
pub enum StopStep {
    /// Nothing: the worker is offline or stopping. `reply` is a success.
    AlreadyStopped { reply: String },
    /// Nothing: no process is stored, and the status is offline now.
    /// `reply` is a success.
    NothingToStop { reply: String },
    /// Send the termination signal to the process of `instance` and report
    /// with [`Supervisor::complete_stop`].
    Signal { instance: u64 },
}

/// A stop step as contracts see it.
pub enum StopStepView {
    AlreadyStopped { reply: Seq<char> },
    NothingToStop { reply: Seq<char> },
    Signal { instance: nat },
}

impl View for StopStep {
    type V = StopStepView;

    open spec fn view(&self) -> StopStepView {
        match *self {
            StopStep::AlreadyStopped { reply } => StopStepView::AlreadyStopped { reply: reply@ },
            StopStep::NothingToStop { reply } => StopStepView::NothingToStop { reply: reply@ },
            StopStep::Signal { instance } => StopStepView::Signal { instance: instance as nat },
        }
    }
}

/// How a stop ended, once the signal was tried.
#[derive(Debug, PartialEq, Eq)]
pub enum StopOutcome {
    /// The signal was delivered; the end of the process will arrive as an
    /// event. `reply` is a success.
    SignalSent { reply: String },
    /// The signal could not be delivered; `reply` is the failure with its
    /// diagnostic.
    SignalFailed { reply: String },
}

/// The end of a stop as contracts see it.
pub enum StopOutcomeView {
    SignalSent { reply: Seq<char> },
    SignalFailed { reply: Seq<char> },
}

impl View for StopOutcome {
    type V = StopOutcomeView;

    open spec fn view(&self) -> StopOutcomeView {
        match *self {
            StopOutcome::SignalSent { reply } => StopOutcomeView::SignalSent { reply: reply@ },
            StopOutcome::SignalFailed { reply } => StopOutcomeView::SignalFailed { reply: reply@ },
        }
    }
}

/// Whether the reader of an event stream goes on.
#[derive(Clone, Copy, Debug, PartialEq, Eq, Structural)]
pub enum PumpStep {
    /// Read the next event.
    Continue,
    /// The process has ended: read no further event of this instance.
    Finished,
}

impl SupervisorView {
    /// The supervisor before the first request.
    pub open spec fn initial() -> SupervisorView {
        SupervisorView { status: DaemonStatus::Offline, handle: None, generation: 0 }
    }

    /// A stored handle belongs to the newest instance; while a start is under
    /// way none is stored; online and stopping, one is.
    pub open spec fn wf(self) -> bool {
        &&& self.handle matches Some(h) ==> self.owns(h)
        &&& self.status == DaemonStatus::Starting ==> self.handle is None
        &&& self.status == DaemonStatus::Online || self.status == DaemonStatus::Stopping
            ==> self.handle is Some
    }

    /// `instance` is the newest instance: only its reports and events may
    /// change the status or the stored handle. Before the first start there
    /// is no instance.
    pub open spec fn owns(self, instance: nat) -> bool {
        instance == self.generation && self.generation >= 1
    }

    /// The supervisor after a start request.
    pub open spec fn after_start_request(self) -> SupervisorView {
        if self.status.blocks_start() {
            self
        } else {
            SupervisorView {
                status: DaemonStatus::Starting,
                handle: None,
                generation: self.generation + 1,
            }
        }
    }

    /// What a start request asks of the caller.
    pub open spec fn start_step(self) -> StartStepView {
        if self.status.blocks_start() {
            StartStepView::AlreadyRunning { status: self.status, reply: already_running_text() }
        } else {
            StartStepView::Spawn { instance: self.generation + 1, replace: self.handle }
        }
    }

    /// The message that a start request logs.
    pub open spec fn start_request_text(self) -> Seq<char> {
        if self.status.blocks_start() {
            already_running_text()
        } else {
            starting_text()
        }
    }

    /// The supervisor after the caller has reported how the spawn of
    /// `instance` went.
    pub open spec fn after_start_result(
        self,
        instance: nat,
        failure: Option<Seq<char>>,
    ) -> SupervisorView {
        if !self.owns(instance) {
            self
        } else if failure is Some {
            SupervisorView { status: DaemonStatus::Error, ..self }
        } else {
            SupervisorView { status: DaemonStatus::Online, handle: Some(instance), ..self }
        }
    }

    /// How the start of `instance` ends.
    pub open spec fn start_outcome(
        self,
        instance: nat,
        failure: Option<Seq<char>>,
    ) -> StartOutcomeView {
        match failure {
            Some(error) => StartOutcomeView::Failed { reply: spawn_failed_text(error) },
            None => if self.owns(instance) {
                StartOutcomeView::Online { instance, reply: started_reply() }
            } else {
                StartOutcomeView::Superseded { instance, reply: superseded_text() }
            },
        }
    }

    /// The sink after the report on the spawn of `instance` has been logged.
    pub open spec fn start_result_log(
        self,
        sink: LogSinkView,
        instance: nat,
        failure: Option<Seq<char>>,
        timestamp: Seq<char>,
    ) -> LogSinkView {
        match failure {
            Some(error) => sink.logged(LogCategory::Error, spawn_failed_text(error), timestamp),
            None => if self.owns(instance) {
                sink.logged(LogCategory::Status, started_text(), timestamp)
            } else {
                sink.logged(LogCategory::Status, superseded_text(), timestamp)
            },
        }
    }

    /// The supervisor after a stop request.
    pub open spec fn after_stop_request(self) -> SupervisorView {
        if self.status.blocks_stop() {
            self
        } else if self.handle is None {
            SupervisorView { status: DaemonStatus::Offline, ..self }
        } else {
            SupervisorView { status: DaemonStatus::Stopping, ..self }
        }
    }

    /// What a stop request asks of the caller.
    pub open spec fn stop_step(self) -> StopStepView {
        if self.status.blocks_stop() {
            StopStepView::AlreadyStopped { reply: already_stopped_text() }
        } else {
            match self.handle {
                None => StopStepView::NothingToStop { reply: no_process_text() },
                Some(instance) => StopStepView::Signal { instance },
            }
        }
    }

    /// The message that a stop request logs.
    pub open spec fn stop_request_text(self) -> Seq<char> {
        if self.status.blocks_stop() {
            already_stopped_text()
        } else if self.handle is None {
            no_process_text()
        } else {
            stopping_text()
        }
    }

    /// The supervisor after the caller has reported how the termination
    /// signal for `instance` went.
    pub open spec fn after_stop_result(
        self,
        instance: nat,
        failure: Option<Seq<char>>,
    ) -> SupervisorView {
        if failure is Some && self.owns(instance) {
            SupervisorView { status: DaemonStatus::Error, handle: None, ..self }
        } else {
            self
        }
    }

    /// How a stop ends, once the signal was tried.
    pub open spec fn stop_outcome(failure: Option<Seq<char>>) -> StopOutcomeView {
        match failure {
            Some(error) => StopOutcomeView::SignalFailed { reply: signal_failed_text(error) },
            None => StopOutcomeView::SignalSent { reply: signal_sent_reply() },
        }
    }

    /// The sink after the report on the termination signal has been logged.
    pub open spec fn stop_result_log(
        sink: LogSinkView,
        failure: Option<Seq<char>>,
        timestamp: Seq<char>,
    ) -> LogSinkView {
        match failure {
            Some(error) => sink.logged(LogCategory::Error, signal_failed_text(error), timestamp),
            None => sink.logged(LogCategory::Status, signal_sent_text(), timestamp),
        }
    }

    /// The supervisor after an event of `instance`.
    pub open spec fn after_event(self, instance: nat, event: ProcessEventView) -> SupervisorView {
        if !self.owns(instance) {
            self
        } else {
            match event {
                ProcessEventView::OutputLine { .. } => self,
                ProcessEventView::ExecutionError { .. } => SupervisorView {
                    status: DaemonStatus::Error,
                    ..self
                },
                ProcessEventView::Terminated { exit_code, .. } => SupervisorView {
                    status: status_after_exit(self.status, exit_code),
                    handle: None,
                    ..self
                },
            }
        }
    }

    /// The sink after an event of `instance` has been logged.
    pub open spec fn event_log(
        self,
        sink: LogSinkView,
        instance: nat,
        event: ProcessEventView,
        timestamp: Seq<char>,
    ) -> LogSinkView {
        match event {
            ProcessEventView::OutputLine { stream, line } => sink.logged(
                stream.category(),
                line,
                timestamp,
            ),
            ProcessEventView::ExecutionError { message } => sink.logged(
                LogCategory::Error,
                execution_error_text(message),
                timestamp,
            ),
            ProcessEventView::Terminated { exit_code, signal } => {
                let reported = sink.logged(
                    LogCategory::Status,
                    termination_text(exit_code, signal),
                    timestamp,
                );
                if !self.owns(instance) {
                    reported
                } else {
                    match exit_note(self.status, exit_code) {
                        Some((category, message)) => reported.logged(category, message, timestamp),
                        None => reported,
                    }
                }
            },
        }
    }

    /// Whether the reader of the stream goes on after `event`.
    pub open spec fn pump_step(event: ProcessEventView) -> PumpStep {
        if event is Terminated {
            PumpStep::Finished
        } else {
            PumpStep::Continue
        }
    }

    /// The event stream of `instance` has closed while the supervisor still
    /// takes its process for starting or online.
    pub open spec fn stream_end_is_anomaly(self, instance: nat) -> bool {
        self.owns(instance) && self.status.blocks_start()
    }

    /// The supervisor after the event stream of `instance` has closed.
    pub open spec fn after_stream_end(self, instance: nat) -> SupervisorView {
        if self.stream_end_is_anomaly(instance) {
            SupervisorView { status: DaemonStatus::Offline, ..self }
        } else {
            self
        }
    }

    /// The sink after the end of the event stream of `instance` has been
    /// taken in.
    pub open spec fn stream_end_log(
        self,
        sink: LogSinkView,
        instance: nat,
        timestamp: Seq<char>,
    ) -> LogSinkView {
        if self.stream_end_is_anomaly(instance) {
            sink.logged(LogCategory::Error, stream_ended_text(), timestamp)
        } else {
            sink
        }
    }
}

/// The status of the worker and the handle of its process. One supervisor
/// is made when the application starts; every request and every event of a
/// process goes through it.
pub struct Supervisor {
    status: DaemonStatus,
    handle: Option<u64>,
    generation: u64,
}

impl View for Supervisor {
    type V = SupervisorView;

    closed spec fn view(&self) -> SupervisorView {
        SupervisorView {
            status: self.status,
            handle: token(self.handle),
            generation: self.generation as nat,
        }
    }
}

impl Supervisor {
    pub open spec fn wf(&self) -> bool {
        self@.wf()
    }

    /// A supervisor whose worker is offline.
    pub fn new() -> (supervisor: Supervisor)
        ensures
            supervisor.wf(),
            supervisor@ == SupervisorView::initial(),
    {
        Supervisor { status: DaemonStatus::Offline, handle: None, generation: 0 }
    }

    /// The current status.
    pub fn status(&self) -> (status: DaemonStatus)
        ensures
            status == self@.status,
    {
        self.status
    }

    /// The token of the process whose handle is stored, if one is.
    pub fn handle(&self) -> (handle: Option<u64>)
        ensures
            token(handle) == self@.handle,
    {
        self.handle
    }

    /// The token of the newest instance; 0 before the first start.
    pub fn newest_instance(&self) -> (instance: u64)
        ensures
            instance == self@.generation,
    {
        self.generation
    }

    /// Whether `instance` is the newest instance.
    pub fn is_newest(&self, instance: u64) -> (newest: bool)
        ensures
            newest == self@.owns(instance as nat),
    {
        instance == self.generation && self.generation >= 1
    }

    /// Takes a start request. Online or starting, nothing changes and the
    /// request is answered at once. Otherwise the status becomes starting,
    /// a new instance token is drawn, and a handle that is still stored is
    /// given up for termination.
    pub fn request_start(&mut self, sink: &mut LogSink, at: &Timestamp) -> (step: StartStep)
        requires
            old(self).wf(),
            old(self)@.generation < u64::MAX,
            old(sink).wf(),
            old(sink)@.can_take(1),
        ensures
            final(self).wf(),
            final(sink).wf(),
            final(self)@ == old(self)@.after_start_request(),
            step@ == old(self)@.start_step(),
            final(sink)@ == old(sink)@.logged(
                LogCategory::Status,
                old(self)@.start_request_text(),
                at@,
            ),
    {
        if self.status == DaemonStatus::Starting || self.status == DaemonStatus::Online {
            let reply: String = String::from_str("Daemon is already online or starting.");
            sink.emit(LogCategory::Status, reply.clone(), at);
            StartStep::AlreadyRunning { status: self.status, reply }
        } else {
            let replace: Option<u64> = self.handle;
            let instance: u64 = self.generation + 1;
            self.status = DaemonStatus::Starting;
            self.handle = None;
            self.generation = instance;
            sink.emit(
                LogCategory::Status,
                String::from_str("Attempting to start provider daemon..."),
                at,
            );
            StartStep::Spawn { instance, replace }
        }
    }

    /// Takes in how the spawn of `instance` went. For the newest instance a
    /// failure sets the status to error, and a success stores the handle and
    /// sets the status to online, without waiting for the worker to be ready.
    /// For an older instance nothing changes, and a process that came up is
    /// given back for termination.
    pub fn complete_start(
        &mut self,
        sink: &mut LogSink,
        instance: u64,
        spawned: Result<(), String>,
        at: &Timestamp,
    ) -> (outcome: StartOutcome)
        requires
            old(self).wf(),
            old(sink).wf(),
            old(sink)@.can_take(1),
        ensures
            final(self).wf(),
            final(sink).wf(),
            final(self)@ == old(self)@.after_start_result(instance as nat, failure_text(spawned)),
            outcome@ == old(self)@.start_outcome(instance as nat, failure_text(spawned)),
            final(sink)@ == old(self)@.start_result_log(
                old(sink)@,
                instance as nat,
                failure_text(spawned),
                at@,
            ),
    {
        let current: bool = self.is_newest(instance);
        match spawned {
            Err(error) => {
                let reply: String = join(
                    "Failed to spawn sidecar 'provider-daemon': ",
                    error.as_str(),
                );
                sink.emit(LogCategory::Error, reply.clone(), at);
                if current {
                    self.status = DaemonStatus::Error;
                }
                StartOutcome::Failed { reply }
            },
            Ok(_) => {
                if current {
                    self.handle = Some(instance);
                    self.status = DaemonStatus::Online;
                    sink.emit(
                        LogCategory::Status,
                        String::from_str("Daemon process provider-daemon started successfully."),
                        at,
                    );
                    StartOutcome::Online {
                        instance,
                        reply: String::from_str(
                            "Daemon started successfully and events are being monitored.",
                        ),
                    }
                } else {
                    let reply: String = String::from_str(
                        "Daemon process provider-daemon was superseded by a newer start request.",
                    );
                    sink.emit(LogCategory::Status, reply.clone(), at);
                    StartOutcome::Superseded { instance, reply }
                }
            },
        }
    }

    /// Takes a stop request. Offline or stopping, nothing changes and the
    /// request is answered at once. Where no handle is stored the status
    /// becomes offline. Otherwise the status becomes stopping and the caller
    /// is to signal the stored process.
    pub fn request_stop(&mut self, sink: &mut LogSink, at: &Timestamp) -> (step: StopStep)
        requires
            old(self).wf(),
            old(sink).wf(),
            old(sink)@.can_take(1),
        ensures
            final(self).wf(),
            final(sink).wf(),
            final(self)@ == old(self)@.after_stop_request(),
            step@ == old(self)@.stop_step(),
            final(sink)@ == old(sink)@.logged(
                LogCategory::Status,
                old(self)@.stop_request_text(),
                at@,
            ),
    {
        if self.status == DaemonStatus::Offline || self.status == DaemonStatus::Stopping {
            let reply: String = String::from_str("Daemon is already offline or stopping.");
            sink.emit(LogCategory::Status, reply.clone(), at);
            StopStep::AlreadyStopped { reply }
        } else {
            match self.handle {
                None => {
                    let reply: String = String::from_str("No active daemon process found to stop.");
                    sink.emit(LogCategory::Status, reply.clone(), at);
                    self.status = DaemonStatus::Offline;
                    StopStep::NothingToStop { reply }
                },
                Some(instance) => {
                    sink.emit(
                        LogCategory::Status,
                        String::from_str("Attempting to stop daemon..."),
                        at,
                    );
                    self.status = DaemonStatus::Stopping;
                    StopStep::Signal { instance }
                },
            }
        }
    }

    /// Takes in how the termination signal for `instance` went. A delivered
    /// signal changes nothing: the end of the process arrives as an event.
    /// A signal that could not be delivered to the newest instance sets the
    /// status to error and gives the handle up.
    pub fn complete_stop(
        &mut self,
        sink: &mut LogSink,
        instance: u64,
        delivered: Result<(), String>,
        at: &Timestamp,
    ) -> (outcome: StopOutcome)
        requires
            old(self).wf(),
            old(sink).wf(),
            old(sink)@.can_take(1),
        ensures
            final(self).wf(),
            final(sink).wf(),
            final(self)@ == old(self)@.after_stop_result(instance as nat, failure_text(delivered)),
            outcome@ == SupervisorView::stop_outcome(failure_text(delivered)),
            final(sink)@ == SupervisorView::stop_result_log(
                old(sink)@,
                failure_text(delivered),
                at@,
            ),
    {
        match delivered {
            Ok(_) => {
                sink.emit(LogCategory::Status, String::from_str("Daemon kill signal sent."), at);
                StopOutcome::SignalSent {
                    reply: String::from_str(
                        "Daemon stop signal sent successfully. Waiting for termination event.",
                    ),
                }
            },
            Err(error) => {
                let reply: String = enclose(
                    "Failed to send kill signal to daemon: ",
                    error.as_str(),
                    ". Marking as error.",
                );
                sink.emit(LogCategory::Error, reply.clone(), at);
                if self.is_newest(instance) {
                    self.status = DaemonStatus::Error;
                    self.handle = None;
                }
                StopOutcome::SignalFailed { reply }
            },
        }
    }

    /// Takes in one event of the process `instance`. A line of output is
    /// logged under its stream. An execution error is logged and sets the
    /// status to error. The end of the process is logged, the handle is given
    /// up, and the status follows from the status before and the exit code.
    /// An event of an older instance is logged and changes nothing.
    pub fn on_event(
        &mut self,
        sink: &mut LogSink,
        instance: u64,
        event: ProcessEvent,
        at: &Timestamp,
    ) -> (step: PumpStep)
        requires
            old(self).wf(),
            old(sink).wf(),
            old(sink)@.can_take(2),
        ensures
            final(self).wf(),
            final(sink).wf(),
            final(self)@ == old(self)@.after_event(instance as nat, event@),
            step == SupervisorView::pump_step(event@),
            final(sink)@ == old(self)@.event_log(old(sink)@, instance as nat, event@, at@),
    {
        let current: bool = self.is_newest(instance);
        match event {
            ProcessEvent::OutputLine { stream, line } => {
                sink.emit(stream.log_category(), line, at);
                PumpStep::Continue
            },
            ProcessEvent::ExecutionError { message } => {
                sink.emit(
                    LogCategory::Error,
                    join("Daemon execution error: ", message.as_str()),
                    at,
                );
                if current {
                    self.status = DaemonStatus::Error;
                }
                PumpStep::Continue
            },
            ProcessEvent::Terminated { exit_code, signal } => {
                sink.emit(LogCategory::Status, termination_line(exit_code, signal), at);
                if current {
                    let prior: DaemonStatus = self.status;
                    self.handle = None;
                    self.status = classify_exit(prior, exit_code);
                    if prior == DaemonStatus::Stopping {
                        sink.emit(
                            LogCategory::Status,
                            String::from_str("Daemon stopped as expected."),
                            at,
                        );
                    } else {
                        match exit_code {
                            Some(code) => {
                                if code != 0 {
                                    sink.emit(LogCategory::Error, nonzero_exit_line(code), at);
                                }
                            },
                            None => {
                                sink.emit(
                                    LogCategory::Error,
                                    String::from_str(
                                        "Daemon terminated unexpectedly (e.g. by signal).",
                                    ),
                                    at,
                                );
                            },
                        }
                    }
                }
                PumpStep::Finished
            },
        }
    }

    /// Takes in that the event stream of `instance` has closed. Where the
    /// supervisor still takes the process of the newest instance for
    /// starting or online, no termination event has arrived: the status
    /// becomes offline and the anomaly is logged.
    pub fn on_stream_end(&mut self, sink: &mut LogSink, instance: u64, at: &Timestamp)
        requires
            old(self).wf(),
            old(sink).wf(),
            old(sink)@.can_take(1),
        ensures
            final(self).wf(),
            final(sink).wf(),
            final(self)@ == old(self)@.after_stream_end(instance as nat),
            final(sink)@ == old(self)@.stream_end_log(old(sink)@, instance as nat, at@),
    {
        if self.is_newest(instance) && (self.status == DaemonStatus::Starting || self.status
            == DaemonStatus::Online) {
            self.status = DaemonStatus::Offline;
            sink.emit(
                LogCategory::Error,
                String::from_str("Daemon event stream ended unexpectedly. Marking as offline."),
                at,
            );
        }
    }
}

} // verus!
