use daemon_supervisor::clock::Timestamp;
use daemon_supervisor::log::LogCategory;
use daemon_supervisor::log::LogSink;
use daemon_supervisor::request::long_running_arguments;
use daemon_supervisor::request::Request;

fn strings(items: &[&str]) -> Vec<String> {
    items.iter().map(|s| s.to_string()).collect()
}

#[test]
fn queries_take_one_flag() {
    assert_eq!(Request::DetectedGpus.arguments(), strings(&["--get-gpus-json"]));
    assert_eq!(Request::ProviderSettings.arguments(), strings(&["--get-settings-json"]));
    assert_eq!(Request::LocalJobs.arguments(), strings(&["--get-local-jobs-json"]));
    assert_eq!(Request::NetworkStatus.arguments(), strings(&["--get-network-status-json"]));
    assert_eq!(Request::FinancialSummary.arguments(), strings(&["--get-financial-summary-json"]));
}

#[test]
fn settings_update_passes_one_json_argument() {
    let json = "{\"default_hourly_rate\":0.5,\"preferred_currency\":\"USD\"}";
    let request = Request::UpdateProviderSettings { settings_json: json.to_string() };
    assert_eq!(request.arguments(), strings(&["--update-settings-json", json]));
    assert_eq!(
        request.announcement(),
        format!("Attempting to update provider settings via daemon: {}", json)
    );
}

#[test]
fn gpu_configuration_passes_three_flags() {
    let request = Request::SetGpuRentalConfig {
        gpu_id: "GPU-0".to_string(),
        hourly_rate: "0.25".to_string(),
        available: true,
    };
    assert_eq!(
        request.arguments(),
        strings(&[
            "--set-gpu-config-json",
            "--gpu-id",
            "GPU-0",
            "--rate",
            "0.25",
            "--available",
            "true",
        ])
    );
    assert_eq!(
        request.announcement(),
        "Attempting to set GPU rental config via daemon: GPU ID GPU-0, Rate 0.25, Available true"
    );
    let off = Request::SetGpuRentalConfig {
        gpu_id: "1".to_string(),
        hourly_rate: "2".to_string(),
        available: false,
    };
    assert_eq!(off.arguments()[6], "false");
    assert_eq!(
        off.announcement(),
        "Attempting to set GPU rental config via daemon: GPU ID 1, Rate 2, Available false"
    );
}

#[test]
fn announcements_of_the_queries() {
    assert_eq!(Request::DetectedGpus.announcement(), "Attempting to fetch GPUs from daemon...");
    assert_eq!(
        Request::ProviderSettings.announcement(),
        "Attempting to fetch provider settings from daemon..."
    );
    assert_eq!(Request::LocalJobs.announcement(), "Attempting to fetch local jobs from daemon...");
    assert_eq!(
        Request::NetworkStatus.announcement(),
        "Attempting to fetch network status from daemon..."
    );
    assert_eq!(
        Request::FinancialSummary.announcement(),
        "Attempting to fetch financial summary from daemon..."
    );
}

#[test]
fn beginning_a_request_logs_twice_and_gives_the_arguments() {
    let mut sink = LogSink::new();
    let at = Timestamp::at(0).unwrap();
    let args = Request::NetworkStatus.begin(&mut sink, &at);
    assert_eq!(args, strings(&["--get-network-status-json"]));
    let records = sink.take_pending();
    assert_eq!(records.len(), 2);
    assert_eq!(records[0].id(), 1);
    assert_eq!(records[0].category(), LogCategory::Status);
    assert_eq!(records[0].message(), "Attempting to fetch network status from daemon...");
    assert_eq!(records[1].id(), 2);
    assert_eq!(records[1].category(), LogCategory::Status);
    assert_eq!(
        records[1].message(),
        "Invoking daemon: provider-daemon with args [\"--get-network-status-json\"]"
    );
}

#[test]
fn long_running_worker_takes_no_flag_or_a_configuration_path() {
    assert!(long_running_arguments(None).is_empty());
    assert_eq!(
        long_running_arguments(Some("/etc/provider.toml".to_string())),
        strings(&["--config", "/etc/provider.toml"])
    );
}
