use std::time::Duration;
use website_status_checker::{
    Config, ConfigError, MonitorMessage, ProbeReport, Received, RetryState, RetryStep,
    TaskChannel, WebsiteStatus, DEFAULT_TIMEOUT, DEFAULT_WORKERS, MAX_RETRIES,
};

fn failed(error: &str, elapsed: u128, finished_at: u128) -> ProbeReport {
    ProbeReport { outcome: Err(error.to_string()), elapsed, finished_at }
}

fn answered(code: u16, elapsed: u128, finished_at: u128) -> ProbeReport {
    ProbeReport { outcome: Ok(code), elapsed, finished_at }
}

/// Feeds the reports to a check until it ends; returns the record and the
/// number of probes that were made.
fn run_check(url: &str, max_retries: u8, reports: Vec<ProbeReport>) -> (WebsiteStatus, usize) {
    let mut state = RetryState::new(url.to_string(), max_retries).expect("a budget of at least one");
    let mut probes = 0;
    for report in reports {
        probes += 1;
        match state.on_probe(report) {
            RetryStep::Retry(next) => state = next,
            RetryStep::Done(status) => return (status, probes),
        }
    }
    panic!("the check did not end after {} probes", probes);
}

#[test]
fn test_check_website_success() {
    let mock_url = "https://httpstat.us/200";
    let max_retries = MAX_RETRIES;

    let (status, probes) = run_check(mock_url, max_retries, vec![answered(200, 1_500_000, 10)]);
    assert!(status.status.is_ok());
    assert_eq!(status.status.unwrap(), 200);
    assert!(status.response_time > 0);
    assert_eq!(probes, 1);
}

#[test]
fn test_check_website_failure() {
    let mock_url = "https://invalid.url";
    let max_retries = MAX_RETRIES;

    let reports = vec![
        failed("Dns Failed", 100, 1),
        failed("Dns Failed", 200, 2),
        failed("Dns Failed", 300, 3),
    ];
    let (status, _) = run_check(mock_url, max_retries, reports);
    assert!(status.status.is_err());
    assert_eq!(status.response_time, 0);
}

#[test]
fn defaults_are_ten_workers_five_seconds_three_attempts() {
    assert_eq!(DEFAULT_WORKERS, 10);
    assert_eq!(DEFAULT_TIMEOUT, 5);
    assert_eq!(MAX_RETRIES, 3);
}

#[test]
fn config_new_keeps_the_settings() {
    let config = Config::new(10, Duration::from_secs(DEFAULT_TIMEOUT), MAX_RETRIES);
    assert_eq!(config.worker_threads, 10);
    assert_eq!(config.timeout, Duration::from_secs(5));
    assert_eq!(config.max_retries, 3);
    assert_eq!(config.validate(), Ok(()));
}

#[test]
fn config_without_workers_is_refused() {
    let config = Config::new(0, Duration::from_secs(5), 3);
    assert_eq!(config.validate(), Err(ConfigError::NoWorkers));
}

#[test]
fn config_without_attempts_is_refused() {
    let config = Config::new(4, Duration::from_secs(5), 0);
    assert_eq!(config.validate(), Err(ConfigError::NoAttempts));
}

#[test]
fn config_without_either_reports_the_pool_first() {
    let config = Config::new(0, Duration::from_secs(5), 0);
    assert_eq!(config.validate(), Err(ConfigError::NoWorkers));
}

#[test]
fn a_check_needs_a_budget() {
    assert_eq!(RetryState::new("https://example.org".to_string(), 0), Err(ConfigError::NoAttempts));
}

#[test]
fn a_new_check_has_failed_nothing_yet() {
    let state = RetryState::new("https://example.org".to_string(), 3).unwrap();
    assert_eq!(state.url(), "https://example.org");
    assert_eq!(state.max_retries(), 3);
    assert_eq!(state.retries(), 0);
}

#[test]
fn success_reports_the_time_to_the_response() {
    let (status, probes) = run_check("https://example.org", 3, vec![answered(204, 42, 1_000)]);
    assert_eq!(
        status,
        WebsiteStatus {
            url: "https://example.org".to_string(),
            status: Ok(204),
            response_time: 42,
            timestamp: 1_000,
        }
    );
    assert!(status.success());
    assert_eq!(status.status_code(), Some(204));
    assert_eq!(probes, 1);
}

#[test]
fn two_failures_and_a_response_take_exactly_three_probes() {
    let reports = vec![
        failed("timed out", 5, 100),
        failed("connection refused", 11, 200),
        answered(200, 17, 300),
        answered(500, 23, 400),
    ];
    let (status, probes) = run_check("https://flaky.example", 3, reports);
    assert_eq!(probes, 3);
    assert_eq!(
        status,
        WebsiteStatus {
            url: "https://flaky.example".to_string(),
            status: Ok(200),
            response_time: 17,
            timestamp: 300,
        }
    );
}

#[test]
fn failure_comes_after_exactly_the_budget_and_carries_the_last_error() {
    let reports = vec![
        failed("first", 5, 100),
        failed("second", 11, 200),
        failed("third", 17, 300),
        answered(200, 23, 400),
    ];
    let (status, probes) = run_check("https://down.example", 3, reports);
    assert_eq!(probes, 3);
    assert_eq!(
        status,
        WebsiteStatus {
            url: "https://down.example".to_string(),
            status: Err("third".to_string()),
            response_time: 0,
            timestamp: 300,
        }
    );
    assert!(!status.success());
    assert_eq!(status.status_code(), None);
}

#[test]
fn a_budget_of_one_fails_on_the_first_error() {
    let (status, probes) = run_check("https://down.example", 1, vec![failed("refused", 9, 50)]);
    assert_eq!(probes, 1);
    assert_eq!(status.status, Err("refused".to_string()));
    assert_eq!(status.response_time, 0);
    assert_eq!(status.timestamp, 50);
}

#[test]
fn a_failed_probe_within_the_budget_asks_for_another() {
    let state = RetryState::new("https://example.org".to_string(), 2).unwrap();
    match state.on_probe(failed("timed out", 1, 1)) {
        RetryStep::Retry(next) => {
            assert_eq!(next.url(), "https://example.org");
            assert_eq!(next.max_retries(), 2);
            assert_eq!(next.retries(), 1);
        }
        RetryStep::Done(status) => panic!("ended early: {:?}", status),
    }
}

#[test]
fn success_on_the_last_attempt_still_counts() {
    let reports = vec![failed("a", 1, 1), failed("b", 2, 2), answered(301, 3, 3)];
    let (status, probes) = run_check("https://example.org", 3, reports);
    assert_eq!(probes, 3);
    assert_eq!(status.status, Ok(301));
    assert_eq!(status.response_time, 3);
}

#[test]
fn the_largest_budget_is_honoured() {
    let mut reports = Vec::new();
    for i in 0..255u128 {
        reports.push(failed("down", i, i));
    }
    let (status, probes) = run_check("https://example.org", 255, reports);
    assert_eq!(probes, 255);
    assert_eq!(status.status, Err("down".to_string()));
    assert_eq!(status.timestamp, 254);
}

#[test]
fn the_channel_is_first_in_first_out() {
    let mut channel = TaskChannel::new();
    assert_eq!(channel.len(), 0);
    assert!(!channel.is_closed());
    assert_eq!(channel.send(MonitorMessage::CheckUrl("a".to_string())), Ok(()));
    assert_eq!(channel.send(MonitorMessage::Shutdown), Ok(()));
    assert_eq!(channel.send(MonitorMessage::CheckUrl("b".to_string())), Ok(()));
    assert_eq!(channel.len(), 3);
    assert_eq!(channel.recv(), Received::Message(MonitorMessage::CheckUrl("a".to_string())));
    assert_eq!(channel.recv(), Received::Message(MonitorMessage::Shutdown));
    assert_eq!(channel.recv(), Received::Message(MonitorMessage::CheckUrl("b".to_string())));
    assert_eq!(channel.recv(), Received::Empty);
    assert_eq!(channel.len(), 0);
}

#[test]
fn a_closed_channel_hands_out_what_waits_and_takes_nothing() {
    let mut channel = TaskChannel::new();
    assert_eq!(channel.send(MonitorMessage::CheckUrl("a".to_string())), Ok(()));
    channel.close();
    assert!(channel.is_closed());
    assert_eq!(
        channel.send(MonitorMessage::CheckUrl("late".to_string())),
        Err(MonitorMessage::CheckUrl("late".to_string()))
    );
    assert_eq!(channel.len(), 1);
    assert_eq!(channel.recv(), Received::Message(MonitorMessage::CheckUrl("a".to_string())));
    assert_eq!(channel.recv(), Received::Closed);
    assert_eq!(channel.recv(), Received::Closed);
}
