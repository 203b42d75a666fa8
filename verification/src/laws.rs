//! What holds of the supervisor and of the log in every run, whatever the
//! order in which requests, reports and events arrive.

use crate::invoker::classified;
use crate::invoker::invoking_text;
use crate::invoker::response_text;
use crate::invoker::settle_log;
use crate::invoker::InvocationOutcomeView;
use crate::invoker::InvokeErrorView;
use crate::log::lemma_drained_keeps_order;
use crate::log::lemma_logged_keeps_order;
use crate::log::LogCategory;
use crate::log::LogRecordView;
use crate::log::LogSinkView;
use crate::process::execution_error_text;
use crate::process::exit_note;
use crate::process::nonzero_exit_text;
use crate::process::stopped_text;
use crate::process::stream_ended_text;
use crate::process::termination_text;
use crate::process::ProcessEventView;
use crate::request::RequestView;
use crate::status::DaemonStatus;
use crate::supervisor::signal_failed_text;
use crate::supervisor::signal_sent_text;
use crate::supervisor::spawn_failed_text;
use crate::supervisor::started_text;
use crate::supervisor::superseded_text;
use crate::supervisor::StartStepView;
use crate::supervisor::SupervisorView;
use crate::text::debug_list_text;
use crate::text::decimal_text;
use vstd::prelude::*;

verus! {

/// One thing that happens to the supervisor or to the log.
pub enum Step {
    /// A start request.
    StartRequest,
    /// The report on the spawn of `instance`.
    StartResult { instance: nat, failure: Option<Seq<char>> },
    /// A stop request.
    StopRequest,
    /// The report on the termination signal for `instance`.
    StopResult { instance: nat, failure: Option<Seq<char>> },
    /// An event of the process `instance`.
    Event { instance: nat, event: ProcessEventView },
    /// The event stream of `instance` has closed.
    StreamEnd { instance: nat },
    /// A typed call of the worker begins.
    Begin { request: RequestView },
    /// A call of the worker with `args` is announced.
    Announce { args: Seq<Seq<char>> },
    /// A call of the worker with `args` has ended.
    Settle { args: Seq<Seq<char>>, outcome: InvocationOutcomeView },
    /// The output of a call could not be read.
    Reject { error: InvokeErrorView },
    /// Some other producer logs a message.
    Emit { category: LogCategory, message: Seq<char> },
    /// The pending records are handed out for publishing.
    Drain,
}

/// A step and the text of the time at which it is taken.
pub struct Moment {
    pub step: Step,
    pub timestamp: Seq<char>,
}

/// The supervisor together with the sink that it logs to.
pub struct World {
    pub supervisor: SupervisorView,
    pub sink: LogSinkView,
}

impl World {
    /// The world when the application starts.
    pub open spec fn initial() -> World {
        World { supervisor: SupervisorView::initial(), sink: LogSinkView::empty() }
    }

    pub open spec fn wf(self) -> bool {
        self.supervisor.wf() && self.sink.wf()
    }

    /// The world after one step.
    pub open spec fn after(self, step: Step, timestamp: Seq<char>) -> World {
        let supervisor = self.supervisor;
        let sink = self.sink;
        match step {
            Step::StartRequest => World {
                supervisor: supervisor.after_start_request(),
                sink: sink.logged(LogCategory::Status, supervisor.start_request_text(), timestamp),
            },
            Step::StartResult { instance, failure } => World {
                supervisor: supervisor.after_start_result(instance, failure),
                sink: supervisor.start_result_log(sink, instance, failure, timestamp),
            },
            Step::StopRequest => World {
                supervisor: supervisor.after_stop_request(),
                sink: sink.logged(LogCategory::Status, supervisor.stop_request_text(), timestamp),
            },
            Step::StopResult { instance, failure } => World {
                supervisor: supervisor.after_stop_result(instance, failure),
                sink: SupervisorView::stop_result_log(sink, failure, timestamp),
            },
            Step::Event { instance, event } => World {
                supervisor: supervisor.after_event(instance, event),
                sink: supervisor.event_log(sink, instance, event, timestamp),
            },
            Step::StreamEnd { instance } => World {
                supervisor: supervisor.after_stream_end(instance),
                sink: supervisor.stream_end_log(sink, instance, timestamp),
            },
            Step::Begin { request } => World {
                supervisor,
                sink: request.opening_log(sink, timestamp),
            },
            Step::Announce { args } => World {
                supervisor,
                sink: sink.logged(
                    LogCategory::Status,
                    invoking_text(debug_list_text(args)),
                    timestamp,
                ),
            },
            Step::Settle { args, outcome } => World {
                supervisor,
                sink: settle_log(sink, args, outcome, timestamp),
            },
            Step::Reject { error } => World {
                supervisor,
                sink: sink.logged(LogCategory::Error, error.message(), timestamp),
            },
            Step::Emit { category, message } => World {
                supervisor,
                sink: sink.logged(category, message, timestamp),
            },
            Step::Drain => World { supervisor, sink: sink.drained() },
        }
    }

    /// The world after the steps of `moments`, taken in order.
    pub open spec fn run(self, moments: Seq<Moment>) -> World
        decreases moments.len(),
    {
        if moments.len() == 0 {
            self
        } else {
            self.run(moments.drop_last()).after(moments.last().step, moments.last().timestamp)
        }
    }
}

/// `earlier` is the beginning of `later`.
pub open spec fn extends(later: Seq<LogRecordView>, earlier: Seq<LogRecordView>) -> bool {
    earlier.len() <= later.len() && later.subrange(0, earlier.len() as int) == earlier
}

/// One step keeps the world in order. It takes no record back and changes
/// none, and the token of the newest instance does not go down.
pub proof fn lemma_step_keeps_order(world: World, step: Step, timestamp: Seq<char>)
    requires
        world.wf(),
    ensures
        world.after(step, timestamp).wf(),
        extends(world.after(step, timestamp).sink.history, world.sink.history),
        world.supervisor.generation <= world.after(step, timestamp).supervisor.generation,
{
    let sink = world.sink;
    let supervisor = world.supervisor;
    let after = world.after(step, timestamp);
    assert(sink.history.subrange(0, sink.history.len() as int) =~= sink.history);
    match step {
        Step::StartRequest => {
            lemma_logged_keeps_order(
                sink,
                LogCategory::Status,
                supervisor.start_request_text(),
                timestamp,
            );
        },
        Step::StartResult { instance, failure } => {
            match failure {
                Some(error) => {
                    lemma_logged_keeps_order(
                        sink,
                        LogCategory::Error,
                        spawn_failed_text(error),
                        timestamp,
                    );
                },
                None => {
                    lemma_logged_keeps_order(sink, LogCategory::Status, started_text(), timestamp);
                    lemma_logged_keeps_order(
                        sink,
                        LogCategory::Status,
                        superseded_text(),
                        timestamp,
                    );
                },
            }
        },
        Step::StopRequest => {
            lemma_logged_keeps_order(
                sink,
                LogCategory::Status,
                supervisor.stop_request_text(),
                timestamp,
            );
        },
        Step::StopResult { instance, failure } => {
            match failure {
                Some(error) => {
                    lemma_logged_keeps_order(
                        sink,
                        LogCategory::Error,
                        signal_failed_text(error),
                        timestamp,
                    );
                },
                None => {
                    lemma_logged_keeps_order(
                        sink,
                        LogCategory::Status,
                        signal_sent_text(),
                        timestamp,
                    );
                },
            }
        },
        Step::Event { instance, event } => {
            match event {
                ProcessEventView::OutputLine { stream, line } => {
                    lemma_logged_keeps_order(sink, stream.category(), line, timestamp);
                },
                ProcessEventView::ExecutionError { message } => {
                    lemma_logged_keeps_order(
                        sink,
                        LogCategory::Error,
                        execution_error_text(message),
                        timestamp,
                    );
                },
                ProcessEventView::Terminated { exit_code, signal } => {
                    let reported = sink.logged(
                        LogCategory::Status,
                        termination_text(exit_code, signal),
                        timestamp,
                    );
                    lemma_logged_keeps_order(
                        sink,
                        LogCategory::Status,
                        termination_text(exit_code, signal),
                        timestamp,
                    );
                    if supervisor.owns(instance) {
                        match exit_note(supervisor.status, exit_code) {
                            Some((category, message)) => {
                                lemma_logged_keeps_order(reported, category, message, timestamp);
                                assert(after.sink.history.subrange(0, sink.history.len() as int)
                                    =~= sink.history);
                            },
                            None => {},
                        }
                    }
                },
            }
        },
        Step::StreamEnd { instance } => {
            if supervisor.stream_end_is_anomaly(instance) {
                lemma_logged_keeps_order(sink, LogCategory::Error, stream_ended_text(), timestamp);
            }
        },
        Step::Begin { request } => {
            let told = sink.logged(LogCategory::Status, request.announcement(), timestamp);
            lemma_logged_keeps_order(sink, LogCategory::Status, request.announcement(), timestamp);
            lemma_logged_keeps_order(
                told,
                LogCategory::Status,
                invoking_text(debug_list_text(request.arguments())),
                timestamp,
            );
            assert(after.sink.history.subrange(0, sink.history.len() as int) =~= sink.history);
        },
        Step::Announce { args } => {
            lemma_logged_keeps_order(
                sink,
                LogCategory::Status,
                invoking_text(debug_list_text(args)),
                timestamp,
            );
        },
        Step::Settle { args, outcome } => {
            match classified(args, outcome) {
                Ok(stdout) => {
                    lemma_logged_keeps_order(
                        sink,
                        LogCategory::Stdout,
                        response_text(debug_list_text(args), stdout),
                        timestamp,
                    );
                },
                Err(error) => {
                    lemma_logged_keeps_order(sink, LogCategory::Error, error.message(), timestamp);
                },
            }
        },
        Step::Reject { error } => {
            lemma_logged_keeps_order(sink, LogCategory::Error, error.message(), timestamp);
        },
        Step::Emit { category, message } => {
            lemma_logged_keeps_order(sink, category, message, timestamp);
        },
        Step::Drain => {
            lemma_drained_keeps_order(sink);
        },
    }
    assert(after.sink.history.subrange(0, sink.history.len() as int) =~= sink.history);
}

/// Every run keeps the world in order: whatever requests, reports and
/// events arrive, and in whatever order, the supervisor has one of its five
/// statuses, a stored handle is that of the newest instance, none is stored
/// while a start is under way, one is stored while the worker is online or
/// stopping, and the log is numbered from 1 without a gap.
pub proof fn lemma_run_keeps_order(world: World, moments: Seq<Moment>)
    requires
        world.wf(),
    ensures
        world.run(moments).wf(),
        extends(world.run(moments).sink.history, world.sink.history),
        world.supervisor.generation <= world.run(moments).supervisor.generation,
        ({
            let status = world.run(moments).supervisor.status;
            status == DaemonStatus::Offline || status == DaemonStatus::Starting || status
                == DaemonStatus::Online || status == DaemonStatus::Stopping || status
                == DaemonStatus::Error
        }),
    decreases moments.len(),
{
    if moments.len() == 0 {
        assert(world.sink.history.subrange(0, world.sink.history.len() as int)
            =~= world.sink.history);
    } else {
        let before = world.run(moments.drop_last());
        lemma_run_keeps_order(world, moments.drop_last());
        lemma_step_keeps_order(before, moments.last().step, moments.last().timestamp);
        let after = world.run(moments);
        assert(after.sink.history.subrange(0, world.sink.history.len() as int)
            =~= before.sink.history.subrange(0, world.sink.history.len() as int));
    }
}

/// In the log of any run that begins when the application starts, the
/// record at place `k` has the id `k + 1`: the ids grow by one from record to
/// record, with no gap and none twice, however the producers of records
/// take turns.
pub proof fn lemma_log_ids_have_no_gaps(moments: Seq<Moment>, k: int)
    requires
        0 <= k < World::initial().run(moments).sink.history.len(),
    ensures
        World::initial().run(moments).sink.history[k].id == k + 1,
{
    let world = World::initial();
    assert(world.sink.pending =~= world.sink.history.skip(0));
    lemma_run_keeps_order(world, moments);
}

/// A start request while the worker is online or starting is answered at
/// once: the status, the stored handle and the newest instance stay as they
/// are, and the caller is not asked to spawn anything.
pub proof fn lemma_start_while_running_spawns_nothing(supervisor: SupervisorView)
    requires
        supervisor.status == DaemonStatus::Online || supervisor.status == DaemonStatus::Starting,
    ensures
        supervisor.after_start_request() == supervisor,
        supervisor.start_step() is AlreadyRunning,
{
}

/// A stop request while the worker is offline or stopping is answered at
/// once: nothing changes, and the caller is not asked to send a signal.
pub proof fn lemma_stop_while_stopped_signals_nothing(supervisor: SupervisorView)
    requires
        supervisor.status == DaemonStatus::Offline || supervisor.status == DaemonStatus::Stopping,
    ensures
        supervisor.after_stop_request() == supervisor,
        supervisor.stop_step() is AlreadyStopped,
{
}

/// When the process of the newest instance ends with the exit code 0 while
/// the worker is online, the status becomes offline, the handle is given up,
/// and only the status line is logged.
pub proof fn lemma_clean_exit_while_online_is_offline(
    supervisor: SupervisorView,
    sink: LogSinkView,
    instance: nat,
    signal: Option<i32>,
    timestamp: Seq<char>,
)
    requires
        supervisor.owns(instance),
        supervisor.status == DaemonStatus::Online,
    ensures
        ({
            let event = ProcessEventView::Terminated { exit_code: Some(0i32), signal };
            &&& supervisor.after_event(instance, event).status == DaemonStatus::Offline
            &&& supervisor.after_event(instance, event).handle is None
            &&& supervisor.event_log(sink, instance, event, timestamp) == sink.logged(
                LogCategory::Status,
                termination_text(Some(0i32), signal),
                timestamp,
            )
        }),
{
}

/// When the process of the newest instance ends with another exit code
/// than 0 while the worker is online, the status becomes error, and the
/// newest record of the log is an error whose message ends with the exit
/// code in decimal.
pub proof fn lemma_failed_exit_while_online_is_error(
    supervisor: SupervisorView,
    sink: LogSinkView,
    instance: nat,
    code: i32,
    signal: Option<i32>,
    timestamp: Seq<char>,
)
    requires
        supervisor.owns(instance),
        supervisor.status == DaemonStatus::Online,
        code != 0,
    ensures
        ({
            let event = ProcessEventView::Terminated { exit_code: Some(code), signal };
            let log = supervisor.event_log(sink, instance, event, timestamp);
            let message = log.history.last().message;
            let digits = decimal_text(code as int);
            &&& supervisor.after_event(instance, event).status == DaemonStatus::Error
            &&& log.history.len() == sink.history.len() + 2
            &&& log.history.last().category == LogCategory::Error
            &&& message == nonzero_exit_text(code)
            &&& digits.len() <= message.len()
            &&& message.subrange(message.len() - digits.len(), message.len() as int) == digits
        }),
{
    let event = ProcessEventView::Terminated { exit_code: Some(code), signal };
    let log = supervisor.event_log(sink, instance, event, timestamp);
    let message = log.history.last().message;
    let digits = decimal_text(code as int);
    assert(message.subrange(message.len() - digits.len(), message.len() as int) =~= digits);
}

/// When the process of the newest instance ends while the worker is
/// stopping, the status becomes offline whatever the exit code is, and the
/// two records that are logged are both of the status category.
pub proof fn lemma_exit_while_stopping_is_offline(
    supervisor: SupervisorView,
    sink: LogSinkView,
    instance: nat,
    exit_code: Option<i32>,
    signal: Option<i32>,
    timestamp: Seq<char>,
)
    requires
        supervisor.owns(instance),
        supervisor.status == DaemonStatus::Stopping,
    ensures
        ({
            let event = ProcessEventView::Terminated { exit_code, signal };
            &&& supervisor.after_event(instance, event).status == DaemonStatus::Offline
            &&& supervisor.after_event(instance, event).handle is None
            &&& supervisor.event_log(sink, instance, event, timestamp) == sink.logged(
                LogCategory::Status,
                termination_text(exit_code, signal),
                timestamp,
            ).logged(LogCategory::Status, stopped_text(), timestamp)
        }),
{
}

/// Once the process of the newest instance has ended, the end of its event
/// stream changes nothing and logs nothing.
pub proof fn lemma_stream_end_after_exit_changes_nothing(
    supervisor: SupervisorView,
    sink: LogSinkView,
    instance: nat,
    exit_code: Option<i32>,
    signal: Option<i32>,
    timestamp: Seq<char>,
)
    ensures
        ({
            let event = ProcessEventView::Terminated { exit_code, signal };
            let ended = supervisor.after_event(instance, event);
            supervisor.owns(instance) ==> ended.after_stream_end(instance) == ended
                && ended.stream_end_log(sink, instance, timestamp) == sink
        }),
{
}

/// A start that goes ahead draws a token that no earlier instance has, so
/// from then on every earlier instance is an old one.
pub proof fn lemma_restart_retires_older_instances(supervisor: SupervisorView, older: nat)
    requires
        !supervisor.status.blocks_start(),
        older <= supervisor.generation,
    ensures
        supervisor.start_step() == (StartStepView::Spawn {
            instance: supervisor.generation + 1,
            replace: supervisor.handle,
        }),
        supervisor.after_start_request().owns(supervisor.generation + 1),
        !supervisor.after_start_request().owns(older),
{
}

/// What arrives for an old instance changes nothing of the supervisor:
/// neither its events, nor the end of its event stream, nor a late report on
/// its spawn or on a signal sent to it.
pub proof fn lemma_old_instance_changes_nothing(
    supervisor: SupervisorView,
    instance: nat,
    event: ProcessEventView,
    failure: Option<Seq<char>>,
)
    requires
        !supervisor.owns(instance),
    ensures
        supervisor.after_event(instance, event) == supervisor,
        supervisor.after_stream_end(instance) == supervisor,
        supervisor.after_start_result(instance, failure) == supervisor,
        supervisor.after_stop_result(instance, failure) == supervisor,
{
}

/// Once an instance is an old one it stays so: in no run that follows does
/// it become the newest again.
pub proof fn lemma_old_instance_stays_old(world: World, moments: Seq<Moment>, instance: nat)
    requires
        world.wf(),
        instance < world.supervisor.generation,
    ensures
        !world.run(moments).supervisor.owns(instance),
{
    lemma_run_keeps_order(world, moments);
}

} // verus!
