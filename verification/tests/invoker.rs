use daemon_supervisor::clock::Timestamp;
use daemon_supervisor::invoker::accept;
use daemon_supervisor::invoker::announce;
use daemon_supervisor::invoker::classify;
use daemon_supervisor::invoker::failed_line;
use daemon_supervisor::invoker::invoking_line;
use daemon_supervisor::invoker::malformed_line;
use daemon_supervisor::invoker::not_spawned_line;
use daemon_supervisor::invoker::response_line;
use daemon_supervisor::invoker::settle;
use daemon_supervisor::invoker::typed;
use daemon_supervisor::invoker::InvocationOutcome;
use daemon_supervisor::invoker::InvokeError;
use daemon_supervisor::log::LogCategory;
use daemon_supervisor::log::LogSink;
use daemon_supervisor::request::Request;
use daemon_supervisor::text::copy_list;
use daemon_supervisor::text::enclose;
use daemon_supervisor::text::join;

fn at() -> Timestamp {
    Timestamp::at(1_518_568_087).unwrap()
}

fn exited(exit_code: Option<i32>, stdout: &str, stderr: &str) -> InvocationOutcome {
    InvocationOutcome::Exited { exit_code, stdout: stdout.to_string(), stderr: stderr.to_string() }
}

fn read_list(text: &str) -> Result<Vec<serde_json::Value>, String> {
    serde_json::from_str::<Vec<serde_json::Value>>(text).map_err(|e| e.to_string())
}

fn read_object(text: &str) -> Result<serde_json::Map<String, serde_json::Value>, String> {
    serde_json::from_str::<serde_json::Map<String, serde_json::Value>>(text)
        .map_err(|e| e.to_string())
}

#[test]
fn empty_gpu_list_is_a_payload() {
    let mut sink = LogSink::new();
    let args = Request::DetectedGpus.begin(&mut sink, &at());
    assert_eq!(args, vec!["--get-gpus-json".to_string()]);
    let stdout = settle(&mut sink, &args, exited(Some(0), "[]", ""), &at()).unwrap();
    assert_eq!(stdout, "[]");
    let parsed = read_list(&stdout);
    let gpus = accept(&mut sink, &args, stdout, parsed, &at()).unwrap();
    assert!(gpus.is_empty());
    let records = sink.take_pending();
    assert_eq!(records.len(), 3);
    assert_eq!(records[0].category(), LogCategory::Status);
    assert_eq!(records[0].message(), "Attempting to fetch GPUs from daemon...");
    assert_eq!(records[1].category(), LogCategory::Status);
    assert_eq!(
        records[1].message(),
        "Invoking daemon: provider-daemon with args [\"--get-gpus-json\"]"
    );
    assert_eq!(records[2].category(), LogCategory::Stdout);
    assert_eq!(records[2].message(), "Daemon response for [\"--get-gpus-json\"]: []");
}

#[test]
fn invalid_json_is_a_malformed_response() {
    let mut sink = LogSink::new();
    let args = Request::ProviderSettings.begin(&mut sink, &at());
    assert_eq!(args, vec!["--get-settings-json".to_string()]);
    let stdout = settle(&mut sink, &args, exited(Some(0), "not json", ""), &at()).unwrap();
    let parsed = read_object(&stdout);
    let parse_error = parsed.clone().unwrap_err();
    let response = accept(&mut sink, &args, stdout, parsed, &at());
    assert_eq!(
        response,
        Err(InvokeError::MalformedResponse {
            args: vec!["--get-settings-json".to_string()],
            raw_stdout: "not json".to_string(),
            parse_error: parse_error.clone(),
        })
    );
    let records = sink.take_pending();
    assert_eq!(records.len(), 4);
    assert_eq!(records[2].category(), LogCategory::Stdout);
    assert_eq!(records[2].message(), "Daemon response for [\"--get-settings-json\"]: not json");
    assert_eq!(records[3].category(), LogCategory::Error);
    assert_eq!(
        records[3].message(),
        format!(
            "Failed to parse JSON from daemon for [\"--get-settings-json\"]: {}. Output: 'not json'",
            parse_error
        )
    );
    assert_eq!(records[3].id(), 4);
}

#[test]
fn non_zero_exit_carries_stderr_verbatim() {
    let mut sink = LogSink::new();
    let args = vec!["--get-settings-json".to_string()];
    announce(&mut sink, &args, &at());
    let response = settle(&mut sink, &args, exited(Some(2), "", "config not found"), &at());
    assert_eq!(
        response,
        Err(InvokeError::InvocationFailed {
            args: vec!["--get-settings-json".to_string()],
            exit_status: Some(2),
            stderr: "config not found".to_string(),
            stdout: "".to_string(),
        })
    );
    let records = sink.take_pending();
    assert_eq!(records.len(), 2);
    assert_eq!(records[1].category(), LogCategory::Error);
    assert_eq!(
        records[1].message(),
        "Daemon command [\"--get-settings-json\"] failed with status 2: stderr: 'config not found', stdout: ''"
    );
}

#[test]
fn end_by_signal_is_a_failed_invocation() {
    let args = vec!["--get-local-jobs-json".to_string()];
    let response = classify(&args, exited(None, "partial", "terminated"));
    assert_eq!(
        response,
        Err(InvokeError::InvocationFailed {
            args: args.clone(),
            exit_status: None,
            stderr: "terminated".to_string(),
            stdout: "partial".to_string(),
        })
    );
    assert_eq!(
        response.unwrap_err().message(),
        "Daemon command [\"--get-local-jobs-json\"] failed with status killed by signal: stderr: 'terminated', stdout: 'partial'"
    );
}

#[test]
fn missing_executable_is_a_spawn_failure() {
    let mut sink = LogSink::new();
    let args = vec!["--get-network-status-json".to_string()];
    let outcome = InvocationOutcome::NotSpawned { error: "sidecar not found".to_string() };
    let response = settle(&mut sink, &args, outcome, &at());
    assert_eq!(
        response,
        Err(InvokeError::SpawnFailed {
            args: args.clone(),
            error: "sidecar not found".to_string(),
        })
    );
    let records = sink.take_pending();
    assert_eq!(records.len(), 1);
    assert_eq!(records[0].category(), LogCategory::Error);
    assert_eq!(
        records[0].message(),
        "Failed to execute daemon command [\"--get-network-status-json\"]: sidecar not found"
    );
}

#[test]
fn exit_code_zero_gives_the_output_back() {
    let args = vec!["--get-financial-summary-json".to_string()];
    let response = classify(&args, exited(Some(0), "{\"current_balance\":1.5}", "noise"));
    assert_eq!(response, Ok("{\"current_balance\":1.5}".to_string()));
}

#[test]
fn payload_that_reads_is_handed_on_without_a_record() {
    let mut sink = LogSink::new();
    let args = vec!["--get-gpus-json".to_string()];
    let text = "[{\"id\":\"gpu0\"},{\"id\":\"gpu1\"}]".to_string();
    let parsed = read_list(&text);
    let gpus = accept(&mut sink, &args, text, parsed, &at()).unwrap();
    assert_eq!(gpus.len(), 2);
    assert_eq!(gpus[1]["id"].as_str(), Some("gpu1"));
    assert_eq!(sink.issued(), 0);
    assert!(sink.take_pending().is_empty());
}

#[test]
fn typed_keeps_payload_or_names_the_parse_error() {
    let args = vec!["--get-gpus-json".to_string()];
    let good: Result<u32, String> = Ok(7);
    assert_eq!(typed(&args, "7".to_string(), good), Ok(7));
    let bad: Result<u32, String> = Err("expected value at line 1 column 1".to_string());
    assert_eq!(
        typed(&args, "x".to_string(), bad),
        Err(InvokeError::MalformedResponse {
            args: args.clone(),
            raw_stdout: "x".to_string(),
            parse_error: "expected value at line 1 column 1".to_string(),
        })
    );
}

#[test]
fn arguments_are_rendered_quoted_and_escaped() {
    let mut sink = LogSink::new();
    let args = vec!["--update-settings-json".to_string(), "{\"a\":\"b c\"}".to_string()];
    announce(&mut sink, &args, &at());
    let records = sink.take_pending();
    assert_eq!(records[0].category(), LogCategory::Status);
    assert_eq!(
        records[0].message(),
        "Invoking daemon: provider-daemon with args [\"--update-settings-json\", \"{\\\"a\\\":\\\"b c\\\"}\"]"
    );
    assert_eq!(records[0].timestamp(), "2018-02-14T00:28:07Z");
    let none: Vec<String> = Vec::new();
    announce(&mut sink, &none, &at());
    assert_eq!(
        sink.take_pending()[0].message(),
        "Invoking daemon: provider-daemon with args []"
    );
}

#[test]
fn message_lines_are_put_together_from_their_parts() {
    assert_eq!(invoking_line("[]"), "Invoking daemon: provider-daemon with args []");
    assert_eq!(response_line("[\"a\"]", "{}"), "Daemon response for [\"a\"]: {}");
    assert_eq!(not_spawned_line("[]", "denied"), "Failed to execute daemon command []: denied");
    assert_eq!(
        failed_line("[]", Some(-3), "e", "o"),
        "Daemon command [] failed with status -3: stderr: 'e', stdout: 'o'"
    );
    assert_eq!(
        malformed_line("[]", "EOF", "{"),
        "Failed to parse JSON from daemon for []: EOF. Output: '{'"
    );
}

#[test]
fn text_helpers() {
    assert_eq!(join("ab", "cd"), "abcd");
    assert_eq!(join("", ""), "");
    assert_eq!(enclose("<", "x", ">"), "<x>");
    let items = vec!["a".to_string(), "".to_string(), "c d".to_string()];
    assert_eq!(copy_list(&items), items);
    assert!(copy_list(&Vec::new()).is_empty());
}
