use daemon_supervisor::clock::Timestamp;
use daemon_supervisor::clock::MAX_UNIX_SECONDS;
use daemon_supervisor::invoker::announce;
use daemon_supervisor::log::LogCategory;
use daemon_supervisor::log::LogSink;
use daemon_supervisor::process::OutputStream;
use daemon_supervisor::process::ProcessEvent;
use daemon_supervisor::supervisor::Supervisor;
use daemon_supervisor::text::decimal;
use daemon_supervisor::text::flag;

fn moment(seconds: u64) -> Timestamp {
    Timestamp::at(seconds).unwrap()
}

#[test]
fn timestamp_of_the_epoch() {
    let at = Timestamp::at(0).unwrap();
    assert_eq!(at.as_str(), "1970-01-01T00:00:00Z");
    assert_eq!(at.unix_seconds(), 0);
}

#[test]
fn timestamp_has_no_fraction_and_is_utc() {
    assert_eq!(moment(1_518_568_087).as_str(), "2018-02-14T00:28:07Z");
    assert_eq!(moment(1_700_000_000).as_str(), "2023-11-14T22:13:20Z");
    assert_eq!(moment(86_399).as_str(), "1970-01-01T23:59:59Z");
    assert_eq!(moment(951_782_400).as_str(), "2000-02-29T00:00:00Z");
}

#[test]
fn timestamp_ends_with_the_year_9999() {
    assert_eq!(MAX_UNIX_SECONDS, 253_402_300_799);
    assert_eq!(moment(MAX_UNIX_SECONDS).as_str(), "9999-12-31T23:59:59Z");
    assert!(Timestamp::at(MAX_UNIX_SECONDS + 1).is_none());
    assert!(Timestamp::at(u64::MAX).is_none());
}

#[test]
fn first_record_has_id_one() {
    let mut sink = LogSink::new();
    assert_eq!(sink.issued(), 0);
    let id = sink.emit(LogCategory::Status, "hello".to_string(), &moment(0));
    assert_eq!(id, 1);
    assert_eq!(sink.issued(), 1);
    let records = sink.take_pending();
    assert_eq!(records.len(), 1);
    assert_eq!(records[0].id(), 1);
    assert_eq!(records[0].message(), "hello");
    assert_eq!(records[0].timestamp(), "1970-01-01T00:00:00Z");
    assert_eq!(records[0].category(), LogCategory::Status);
}

#[test]
fn record_keeps_the_time_it_was_made_at() {
    let mut sink = LogSink::new();
    sink.emit(LogCategory::Stdout, "a".to_string(), &moment(1_518_568_087));
    sink.emit(LogCategory::Stderr, "b".to_string(), &moment(1_700_000_000));
    let records = sink.take_pending();
    assert_eq!(records[0].timestamp(), "2018-02-14T00:28:07Z");
    assert_eq!(records[1].timestamp(), "2023-11-14T22:13:20Z");
}

#[test]
fn take_pending_hands_each_record_out_once() {
    let mut sink = LogSink::new();
    let at = moment(10);
    sink.emit(LogCategory::Status, "one".to_string(), &at);
    sink.emit(LogCategory::Error, "two".to_string(), &at);
    let first = sink.take_pending();
    assert_eq!(first.len(), 2);
    assert_eq!(first[0].message(), "one");
    assert_eq!(first[1].message(), "two");
    assert_eq!(first[1].category(), LogCategory::Error);
    assert!(sink.take_pending().is_empty());
    sink.emit(LogCategory::Status, "three".to_string(), &at);
    let second = sink.take_pending();
    assert_eq!(second.len(), 1);
    assert_eq!(second[0].id(), 3);
    assert_eq!(sink.issued(), 3);
}

#[test]
fn remaining_counts_down() {
    let mut sink = LogSink::new();
    assert_eq!(sink.remaining(), u64::MAX);
    sink.emit(LogCategory::Status, "x".to_string(), &moment(0));
    assert_eq!(sink.remaining(), u64::MAX - 1);
}

#[test]
fn ids_grow_by_one_across_all_producers() {
    let mut sink = LogSink::new();
    let mut supervisor = Supervisor::new();
    let at = moment(1_700_000_000);
    let args = vec!["--get-gpus-json".to_string()];

    sink.emit(LogCategory::Status, "Provider GUI initialized. Daemon is OFFLINE.".to_string(), &at);
    supervisor.request_start(&mut sink, &at);
    announce(&mut sink, &args, &at);
    supervisor.complete_start(&mut sink, 1, Ok(()), &at);
    let early = sink.take_pending();
    supervisor.on_event(
        &mut sink,
        1,
        ProcessEvent::OutputLine { stream: OutputStream::Stdout, line: "ready".to_string() },
        &at,
    );
    announce(&mut sink, &args, &at);
    supervisor.on_event(
        &mut sink,
        1,
        ProcessEvent::Terminated { exit_code: Some(3), signal: None },
        &at,
    );
    supervisor.on_stream_end(&mut sink, 1, &at);
    supervisor.request_stop(&mut sink, &at);
    let late = sink.take_pending();

    let ids: Vec<u64> = early.iter().chain(late.iter()).map(|r| r.id()).collect();
    assert_eq!(ids, vec![1, 2, 3, 4, 5, 6, 7, 8, 9]);
    assert_eq!(sink.issued(), 9);
}

#[test]
fn category_names() {
    assert_eq!(LogCategory::Status.as_str(), "status");
    assert_eq!(LogCategory::Stdout.as_str(), "stdout");
    assert_eq!(LogCategory::Stderr.as_str(), "stderr");
    assert_eq!(LogCategory::Error.as_str(), "error");
}

#[test]
fn decimal_of_small_numbers() {
    assert_eq!(decimal(0), "0");
    assert_eq!(decimal(7), "7");
    assert_eq!(decimal(10), "10");
    assert_eq!(decimal(105), "105");
    assert_eq!(decimal(-1), "-1");
    assert_eq!(decimal(-120), "-120");
}

#[test]
fn decimal_of_the_extremes() {
    assert_eq!(decimal(i32::MAX), "2147483647");
    assert_eq!(decimal(i32::MIN), "-2147483648");
}

#[test]
fn decimal_agrees_with_the_standard_rendering() {
    let mut n: i32 = -1000;
    while n <= 1000 {
        assert_eq!(decimal(n), n.to_string());
        n += 1;
    }
}

#[test]
fn flag_is_true_or_false() {
    assert_eq!(flag(true), "true");
    assert_eq!(flag(false), "false");
}
