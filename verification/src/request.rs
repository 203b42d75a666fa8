//! The queries and updates that the worker answers as a one-shot call, each
//! with the command line that asks for it.

use crate::clock::Timestamp;
use crate::invoker::announce;
use crate::invoker::invoking_text;
use crate::log::LogCategory;
use crate::log::LogSink;
use crate::log::LogSinkView;
use crate::text::debug_list_text;
use crate::text::flag;
use crate::text::flag_text;
use crate::text::join;
use crate::text::texts;
use vstd::prelude::*;
use vstd::string::*;

verus! {

/// One typed call of the worker.
#[derive(Debug, PartialEq, Eq)]
pub enum Request {
    /// Fetch the GPU inventory.
    DetectedGpus,
    /// Fetch the provider settings.
    ProviderSettings,
    /// Replace the provider settings by those that `settings_json` encodes
    /// as one JSON value.
    UpdateProviderSettings { settings_json: String },
    /// Set the rental configuration of one GPU. `hourly_rate` is the rate as
    /// the command line takes it.
    SetGpuRentalConfig { gpu_id: String, hourly_rate: String, available: bool },
    /// Fetch the list of local jobs.
    LocalJobs,
    /// Fetch the network status.
    NetworkStatus,
    /// Fetch the financial summary.
    FinancialSummary,
}

/// A request as contracts see it.
pub enum RequestView {
    DetectedGpus,
    ProviderSettings,
    UpdateProviderSettings { settings_json: Seq<char> },
    SetGpuRentalConfig { gpu_id: Seq<char>, hourly_rate: Seq<char>, available: bool },
    LocalJobs,
    NetworkStatus,
    FinancialSummary,
}

impl View for Request {
    type V = RequestView;

    open spec fn view(&self) -> RequestView {
        match *self {
            Request::DetectedGpus => RequestView::DetectedGpus,
            Request::ProviderSettings => RequestView::ProviderSettings,
            Request::UpdateProviderSettings {
                settings_json,
            } => RequestView::UpdateProviderSettings { settings_json: settings_json@ },
            Request::SetGpuRentalConfig {
                gpu_id,
                hourly_rate,
                available,
            } => RequestView::SetGpuRentalConfig {
                gpu_id: gpu_id@,
                hourly_rate: hourly_rate@,
                available,
            },
            Request::LocalJobs => RequestView::LocalJobs,
            Request::NetworkStatus => RequestView::NetworkStatus,
            Request::FinancialSummary => RequestView::FinancialSummary,
        }
    }
}

impl RequestView {
    /// The arguments with which the worker is called.
    pub open spec fn arguments(self) -> Seq<Seq<char>> {
        match self {
            RequestView::DetectedGpus => seq!["--get-gpus-json"@],
            RequestView::ProviderSettings => seq!["--get-settings-json"@],
            RequestView::UpdateProviderSettings { settings_json } => seq![
                "--update-settings-json"@,
                settings_json,
            ],
            RequestView::SetGpuRentalConfig { gpu_id, hourly_rate, available } => seq![
                "--set-gpu-config-json"@,
                "--gpu-id"@,
                gpu_id,
                "--rate"@,
                hourly_rate,
                "--available"@,
                flag_text(available),
            ],
            RequestView::LocalJobs => seq!["--get-local-jobs-json"@],
            RequestView::NetworkStatus => seq!["--get-network-status-json"@],
            RequestView::FinancialSummary => seq!["--get-financial-summary-json"@],
        }
    }

    /// The message that tells what is being asked.
    pub open spec fn announcement(self) -> Seq<char> {
        match self {
            RequestView::DetectedGpus => "Attempting to fetch GPUs from daemon..."@,
            RequestView::ProviderSettings => "Attempting to fetch provider settings from daemon..."@,
            RequestView::UpdateProviderSettings {
                settings_json,
            } => "Attempting to update provider settings via daemon: "@ + settings_json,
            RequestView::SetGpuRentalConfig {
                gpu_id,
                hourly_rate,
                available,
            } => "Attempting to set GPU rental config via daemon: GPU ID "@ + gpu_id + ", Rate "@
                + hourly_rate + ", Available "@ + flag_text(available),
            RequestView::LocalJobs => "Attempting to fetch local jobs from daemon..."@,
            RequestView::NetworkStatus => "Attempting to fetch network status from daemon..."@,
            RequestView::FinancialSummary => "Attempting to fetch financial summary from daemon..."@,
        }
    }

    /// The sink after the request has begun: what is being asked, then the
    /// call of the worker.
    pub open spec fn opening_log(self, sink: LogSinkView, timestamp: Seq<char>) -> LogSinkView {
        sink.logged(LogCategory::Status, self.announcement(), timestamp).logged(
            LogCategory::Status,
            invoking_text(debug_list_text(self.arguments())),
            timestamp,
        )
    }
}

/// The arguments with which the long-running worker is spawned: none, or
/// the path of its configuration file.
pub open spec fn worker_arguments(config_path: Option<Seq<char>>) -> Seq<Seq<char>> {
    match config_path {
        Some(path) => seq!["--config"@, path],
        None => Seq::empty(),
    }
}

/// Gives the arguments with which the long-running worker is spawned.
pub fn long_running_arguments(config_path: Option<String>) -> (args: Vec<String>)
    ensures
        texts(args@) == worker_arguments(
            match config_path {
                Some(path) => Some(path@),
                None => None,
            },
        ),
{
    let mut args: Vec<String> = Vec::new();
    match config_path {
        Some(path) => {
            args.push(String::from_str("--config"));
            args.push(path);
            assert(texts(args@) =~= seq!["--config"@, path@]);
        },
        None => {
            assert(texts(args@) =~= Seq::empty());
        },
    }
    args
}

fn single(argument: &str) -> (args: Vec<String>)
    ensures
        texts(args@) == seq![argument@],
{
    let mut args: Vec<String> = Vec::new();
    args.push(String::from_str(argument));
    assert(texts(args@) =~= seq![argument@]);
    args
}

impl Request {
    /// The arguments with which the worker is called.
    pub fn arguments(&self) -> (args: Vec<String>)
        ensures
            texts(args@) == self@.arguments(),
    {
        match self {
            Request::DetectedGpus => single("--get-gpus-json"),
            Request::ProviderSettings => single("--get-settings-json"),
            Request::UpdateProviderSettings { settings_json } => {
                let mut args: Vec<String> = Vec::new();
                args.push(String::from_str("--update-settings-json"));
                args.push(settings_json.clone());
                assert(texts(args@) =~= self@.arguments());
                args
            },
            Request::SetGpuRentalConfig { gpu_id, hourly_rate, available } => {
                let mut args: Vec<String> = Vec::new();
                args.push(String::from_str("--set-gpu-config-json"));
                args.push(String::from_str("--gpu-id"));
                args.push(gpu_id.clone());
                args.push(String::from_str("--rate"));
                args.push(hourly_rate.clone());
                args.push(String::from_str("--available"));
                args.push(String::from_str(flag(*available)));
                assert(texts(args@) =~= self@.arguments());
                args
            },
            Request::LocalJobs => single("--get-local-jobs-json"),
            Request::NetworkStatus => single("--get-network-status-json"),
            Request::FinancialSummary => single("--get-financial-summary-json"),
        }
    }

    /// The message that tells what is being asked.
    pub fn announcement(&self) -> (text: String)
        ensures
            text@ == self@.announcement(),
    {
        match self {
            Request::DetectedGpus => String::from_str("Attempting to fetch GPUs from daemon..."),
            Request::ProviderSettings => String::from_str(
                "Attempting to fetch provider settings from daemon...",
            ),
            Request::UpdateProviderSettings { settings_json } => join(
                "Attempting to update provider settings via daemon: ",
                settings_json.as_str(),
            ),
            Request::SetGpuRentalConfig { gpu_id, hourly_rate, available } => String::from_str(
                "Attempting to set GPU rental config via daemon: GPU ID ",
            ).concat(gpu_id.as_str()).concat(", Rate ").concat(hourly_rate.as_str()).concat(
                ", Available ",
            ).concat(flag(*available)),
            Request::LocalJobs => String::from_str("Attempting to fetch local jobs from daemon..."),
            Request::NetworkStatus => String::from_str(
                "Attempting to fetch network status from daemon...",
            ),
            Request::FinancialSummary => String::from_str(
                "Attempting to fetch financial summary from daemon...",
            ),
        }
    }

    /// Begins the request: logs what is being asked and that the worker is
    /// about to be called, and gives the arguments of the call.
    pub fn begin(&self, sink: &mut LogSink, at: &Timestamp) -> (args: Vec<String>)
        requires
            old(sink).wf(),
            old(sink)@.can_take(2),
        ensures
            final(sink).wf(),
            texts(args@) == self@.arguments(),
            final(sink)@ == self@.opening_log(old(sink)@, at@),
    {
        sink.emit(LogCategory::Status, self.announcement(), at);
        let args: Vec<String> = self.arguments();
        announce(sink, &args, at);
        args
    }
}

} // verus!
