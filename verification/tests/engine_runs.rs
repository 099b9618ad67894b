use std::time::Duration;
use website_status_checker::{
    monitor_worker, Config, ConfigError, Engine, MonitorMessage, Phase, ProbeReport,
    WebsiteStatus, WorkerAction, WorkerEvent,
};

const TIMEOUT: Duration = Duration::from_secs(5);

fn engine(workers: usize, max_retries: u8) -> Engine {
    match Engine::new(Config::new(workers, TIMEOUT, max_retries)) {
        Ok(engine) => engine,
        Err(error) => panic!("refused: {:?}", error),
    }
}

fn urls(names: &[&str]) -> Vec<String> {
    names.iter().map(|name| name.to_string()).collect()
}

/// A site answers 200 if its URL holds "200"; anything else is unreachable.
fn probe(url: &str, tick: u128) -> ProbeReport {
    if url.contains("200") {
        ProbeReport { outcome: Ok(200), elapsed: 7, finished_at: tick }
    } else {
        ProbeReport { outcome: Err(format!("{}: Dns Failed", url)), elapsed: 7, finished_at: tick }
    }
}

/// Runs the pool to the end on one thread.  `order` says which worker moves
/// next, over and over; a worker that was told to probe reports on its next
/// move.  Returns the largest number of probes that were under way at once.
fn drain(engine: &mut Engine, order: &[usize]) -> usize {
    let count = engine.worker_count();
    let mut events: Vec<WorkerEvent> = (0..count).map(|_| WorkerEvent::Ready).collect();
    let mut stopped = vec![false; count];
    let mut most_active = 0;
    let mut tick: u128 = 0;
    let mut turn = 0;
    while stopped.iter().any(|s| !s) {
        let worker = order[turn % order.len()];
        turn += 1;
        assert!(turn < 100_000, "the pool does not come to an end");
        if stopped[worker] {
            continue;
        }
        tick += 1;
        let event = std::mem::replace(&mut events[worker], WorkerEvent::Ready);
        match monitor_worker(engine, worker, event) {
            WorkerAction::Probe { url, timeout, attempt } => {
                assert_eq!(timeout, TIMEOUT);
                assert!(attempt < 3);
                events[worker] = WorkerEvent::Probed(probe(&url, tick));
            }
            WorkerAction::Wait => panic!("told to wait on a closed channel"),
            WorkerAction::Stop => stopped[worker] = true,
        }
        let active = engine.active_probes();
        assert!(active <= count);
        most_active = most_active.max(active);
    }
    most_active
}

fn join_all(engine: &mut Engine) {
    for worker in 0..engine.worker_count() {
        assert!(engine.join_worker(worker));
    }
}

fn failures(results: &[WebsiteStatus]) -> usize {
    results.iter().filter(|status| !status.success()).count()
}

#[test]
fn test_monitor_worker() {
    let mut engine = engine(1, 3);

    assert_eq!(engine.send(MonitorMessage::CheckUrl("https://httpstat.us/200".to_string())), Ok(()));
    engine.close();

    let action = monitor_worker(&mut engine, 0, WorkerEvent::Ready);
    assert_eq!(
        action,
        WorkerAction::Probe {
            url: "https://httpstat.us/200".to_string(),
            timeout: TIMEOUT,
            attempt: 0,
        }
    );
    let report = ProbeReport { outcome: Ok(200), elapsed: 12, finished_at: 34 };
    let action = monitor_worker(&mut engine, 0, WorkerEvent::Probed(report));

    let result = engine.results()[0].clone();
    assert!(result.status.is_ok());
    assert_eq!(result.status.unwrap(), 200);

    assert_eq!(action, WorkerAction::Stop);
    assert!(engine.join_worker(0));
    assert_eq!(engine.phase(), Phase::Done);
}

#[test]
fn test_graceful_shutdown() {
    let mut engine = engine(1, 3);

    assert_eq!(engine.send(MonitorMessage::Shutdown), Ok(()));

    assert_eq!(monitor_worker(&mut engine, 0, WorkerEvent::Ready), WorkerAction::Stop);
    assert!(engine.join_worker(0));
    assert_eq!(engine.phase(), Phase::Done);
    assert!(engine.results().is_empty());
}

#[test]
fn an_engine_needs_workers_and_attempts() {
    assert_eq!(Engine::new(Config::new(0, TIMEOUT, 3)).err(), Some(ConfigError::NoWorkers));
    assert_eq!(Engine::new(Config::new(2, TIMEOUT, 0)).err(), Some(ConfigError::NoAttempts));
    assert_eq!(Engine::new(Config::new(0, TIMEOUT, 0)).err(), Some(ConfigError::NoWorkers));
}

#[test]
fn a_new_engine_is_idle_with_a_waiting_pool() {
    let engine = engine(4, 3);
    assert_eq!(engine.worker_count(), 4);
    assert_eq!(engine.pending(), 0);
    assert!(!engine.is_closed());
    assert_eq!(engine.active_probes(), 0);
    assert!(engine.results().is_empty());
    assert_eq!(engine.phase(), Phase::Idle);
    assert!(!engine.all_stopped());
    assert!(!engine.all_joined());
}

#[test]
fn two_sites_two_workers_one_up_one_down() {
    let mut engine = engine(2, 3);
    assert!(engine.dispatch(urls(&["https://httpstat.us/200", "https://invalid.url"])));
    assert_eq!(engine.phase(), Phase::Draining);
    drain(&mut engine, &[0, 1]);
    assert_eq!(engine.phase(), Phase::Joining);
    join_all(&mut engine);
    assert_eq!(engine.phase(), Phase::Done);

    let results = engine.into_results();
    assert_eq!(results.len(), 2);
    let up: Vec<&WebsiteStatus> = results.iter().filter(|r| r.success()).collect();
    let down: Vec<&WebsiteStatus> = results.iter().filter(|r| !r.success()).collect();
    assert_eq!(up.len(), 1);
    assert_eq!(down.len(), 1);
    assert_eq!(up[0].url, "https://httpstat.us/200");
    assert_eq!(up[0].status, Ok(200));
    assert_eq!(up[0].response_time, 7);
    assert_eq!(down[0].url, "https://invalid.url");
    assert_eq!(down[0].status, Err("https://invalid.url: Dns Failed".to_string()));
    assert_eq!(down[0].response_time, 0);
}

#[test]
fn results_come_in_the_order_in_which_checks_end() {
    let mut engine = engine(2, 3);
    assert!(engine.dispatch(urls(&["https://invalid.url", "https://httpstat.us/200"])));
    drain(&mut engine, &[0, 1]);
    let results = engine.into_results();
    // the reachable site was sent second but ends first: it needs one probe,
    // the other needs three
    assert_eq!(results[0].url, "https://httpstat.us/200");
    assert_eq!(results[1].url, "https://invalid.url");
}

#[test]
fn five_sites_on_two_workers_give_five_results() {
    let mut engine = engine(2, 3);
    let sites = ["a/200", "b", "c/200", "d", "e/200"];
    assert!(engine.dispatch(urls(&sites)));
    assert_eq!(engine.pending(), 5);
    let most_active = drain(&mut engine, &[0, 1]);
    assert!(most_active <= 2);
    assert_eq!(most_active, 2);
    assert!(engine.all_stopped());
    assert_eq!(engine.pending(), 0);
    assert_eq!(engine.active_probes(), 0);
    let results = engine.into_results();
    assert_eq!(results.len(), 5);
    let mut reported: Vec<&str> = results.iter().map(|r| r.url.as_str()).collect();
    reported.sort();
    assert_eq!(reported, sites);
    for result in &results {
        assert_eq!(result.success(), result.url.contains("200"));
    }
}

#[test]
fn one_worker_handles_requests_in_the_order_sent() {
    let mut engine = engine(1, 2);
    assert!(engine.dispatch(urls(&["x", "y/200", "z"])));
    let most_active = drain(&mut engine, &[0]);
    assert_eq!(most_active, 1);
    let results = engine.into_results();
    let reported: Vec<&str> = results.iter().map(|r| r.url.as_str()).collect();
    assert_eq!(reported, ["x", "y/200", "z"]);
}

#[test]
fn closing_stops_every_worker_after_its_current_check() {
    let mut engine = engine(3, 2);
    for site in ["a", "b", "c", "d"] {
        assert_eq!(engine.send(MonitorMessage::CheckUrl(site.to_string())), Ok(()));
    }
    assert_eq!(engine.phase(), Phase::Dispatching);
    // two workers are in the middle of a check when the channel closes
    assert!(matches!(monitor_worker(&mut engine, 0, WorkerEvent::Ready), WorkerAction::Probe { .. }));
    assert!(matches!(monitor_worker(&mut engine, 1, WorkerEvent::Ready), WorkerAction::Probe { .. }));
    engine.close();
    assert_eq!(engine.phase(), Phase::Draining);
    assert!(!engine.all_stopped());
    // worker 2 moves only; the checks of 0 and 1 stay under way
    let mut events = vec![WorkerEvent::Ready];
    let mut steps = 0;
    loop {
        steps += 1;
        let event = events.pop().unwrap_or(WorkerEvent::Ready);
        match monitor_worker(&mut engine, 2, event) {
            WorkerAction::Probe { url, .. } => events.push(WorkerEvent::Probed(probe(&url, steps))),
            WorkerAction::Wait => panic!("told to wait on a closed channel"),
            WorkerAction::Stop => break,
        }
    }
    assert_eq!(engine.results().len(), 2);
    assert_eq!(engine.active_probes(), 2);
    assert!(!engine.all_stopped());
    // now the other two finish what they had begun and stop
    for worker in [0usize, 1] {
        let first = ProbeReport { outcome: Err("down".to_string()), elapsed: 1, finished_at: 1 };
        assert!(matches!(
            monitor_worker(&mut engine, worker, WorkerEvent::Probed(first)),
            WorkerAction::Probe { .. }
        ));
        let second = ProbeReport { outcome: Err("down".to_string()), elapsed: 2, finished_at: 2 };
        assert_eq!(monitor_worker(&mut engine, worker, WorkerEvent::Probed(second)), WorkerAction::Stop);
    }
    assert!(engine.all_stopped());
    assert_eq!(engine.phase(), Phase::Joining);
    assert_eq!(engine.results().len(), 4);
}

#[test]
fn an_open_empty_channel_makes_a_worker_wait() {
    let mut engine = engine(2, 3);
    assert_eq!(monitor_worker(&mut engine, 0, WorkerEvent::Ready), WorkerAction::Wait);
    assert_eq!(monitor_worker(&mut engine, 0, WorkerEvent::Ready), WorkerAction::Wait);
    assert_eq!(engine.phase(), Phase::Idle);
    assert_eq!(engine.send(MonitorMessage::CheckUrl("late".to_string())), Ok(()));
    assert_eq!(
        monitor_worker(&mut engine, 0, WorkerEvent::Ready),
        WorkerAction::Probe { url: "late".to_string(), timeout: TIMEOUT, attempt: 0 }
    );
    assert_eq!(engine.active_probes(), 1);
}

#[test]
fn one_shutdown_request_stops_one_worker_only() {
    let mut engine = engine(2, 3);
    assert_eq!(engine.send(MonitorMessage::Shutdown), Ok(()));
    assert_eq!(engine.send(MonitorMessage::CheckUrl("after/200".to_string())), Ok(()));
    assert_eq!(monitor_worker(&mut engine, 0, WorkerEvent::Ready), WorkerAction::Stop);
    assert!(!engine.all_stopped());
    assert!(matches!(monitor_worker(&mut engine, 1, WorkerEvent::Ready), WorkerAction::Probe { .. }));
    let report = ProbeReport { outcome: Ok(200), elapsed: 1, finished_at: 1 };
    assert_eq!(monitor_worker(&mut engine, 1, WorkerEvent::Probed(report)), WorkerAction::Wait);
    assert_eq!(engine.results().len(), 1);
    assert_eq!(engine.phase(), Phase::Dispatching);
}

#[test]
fn a_shutdown_request_leaves_later_requests_unserved_when_the_pool_is_gone() {
    let mut engine = engine(1, 3);
    assert_eq!(engine.send(MonitorMessage::Shutdown), Ok(()));
    assert_eq!(engine.send(MonitorMessage::CheckUrl("never".to_string())), Ok(()));
    engine.close();
    assert_eq!(monitor_worker(&mut engine, 0, WorkerEvent::Ready), WorkerAction::Stop);
    assert!(engine.all_stopped());
    assert_eq!(engine.pending(), 1);
    assert!(engine.results().is_empty());
}

#[test]
fn a_stopped_worker_stays_stopped() {
    let mut engine = engine(1, 3);
    engine.close();
    assert_eq!(monitor_worker(&mut engine, 0, WorkerEvent::Ready), WorkerAction::Stop);
    assert_eq!(monitor_worker(&mut engine, 0, WorkerEvent::Ready), WorkerAction::Stop);
    let report = ProbeReport { outcome: Ok(200), elapsed: 1, finished_at: 1 };
    assert_eq!(monitor_worker(&mut engine, 0, WorkerEvent::Probed(report)), WorkerAction::Stop);
    assert!(engine.results().is_empty());
}

#[test]
fn a_number_that_names_no_worker_is_told_to_stop() {
    let mut engine = engine(2, 3);
    assert_eq!(engine.send(MonitorMessage::CheckUrl("a".to_string())), Ok(()));
    assert_eq!(monitor_worker(&mut engine, 2, WorkerEvent::Ready), WorkerAction::Stop);
    assert_eq!(monitor_worker(&mut engine, usize::MAX, WorkerEvent::Ready), WorkerAction::Stop);
    assert_eq!(engine.pending(), 1);
    assert!(!engine.join_worker(2));
}

#[test]
fn a_checking_worker_with_nothing_to_report_is_asked_again() {
    let mut engine = engine(1, 3);
    assert_eq!(engine.send(MonitorMessage::CheckUrl("a".to_string())), Ok(()));
    assert_eq!(engine.send(MonitorMessage::CheckUrl("b".to_string())), Ok(()));
    let first = monitor_worker(&mut engine, 0, WorkerEvent::Ready);
    assert_eq!(first, WorkerAction::Probe { url: "a".to_string(), timeout: TIMEOUT, attempt: 0 });
    let again = monitor_worker(&mut engine, 0, WorkerEvent::Ready);
    assert_eq!(again, first);
    assert_eq!(engine.pending(), 1);
    assert_eq!(engine.active_probes(), 1);
}

#[test]
fn a_report_from_a_waiting_worker_is_dropped() {
    let mut engine = engine(1, 3);
    let stray = ProbeReport { outcome: Ok(200), elapsed: 1, finished_at: 1 };
    assert_eq!(monitor_worker(&mut engine, 0, WorkerEvent::Probed(stray)), WorkerAction::Wait);
    assert!(engine.results().is_empty());
}

#[test]
fn a_failed_probe_is_retried_on_the_same_site() {
    let mut engine = engine(1, 3);
    assert!(engine.dispatch(urls(&["down", "next"])));
    assert_eq!(
        monitor_worker(&mut engine, 0, WorkerEvent::Ready),
        WorkerAction::Probe { url: "down".to_string(), timeout: TIMEOUT, attempt: 0 }
    );
    for failed in 1..=2 {
        let report = ProbeReport { outcome: Err("refused".to_string()), elapsed: 1, finished_at: 1 };
        assert_eq!(
            monitor_worker(&mut engine, 0, WorkerEvent::Probed(report)),
            WorkerAction::Probe { url: "down".to_string(), timeout: TIMEOUT, attempt: failed }
        );
        assert!(engine.results().is_empty());
    }
    // asked again without a report, the same probe is requested
    assert_eq!(
        monitor_worker(&mut engine, 0, WorkerEvent::Ready),
        WorkerAction::Probe { url: "down".to_string(), timeout: TIMEOUT, attempt: 2 }
    );
    let last = ProbeReport { outcome: Err("gone".to_string()), elapsed: 9, finished_at: 77 };
    // the third failure ends the check; the worker goes on with the next site
    assert_eq!(
        monitor_worker(&mut engine, 0, WorkerEvent::Probed(last)),
        WorkerAction::Probe { url: "next".to_string(), timeout: TIMEOUT, attempt: 0 }
    );
    assert_eq!(
        engine.results()[0],
        WebsiteStatus {
            url: "down".to_string(),
            status: Err("gone".to_string()),
            response_time: 0,
            timestamp: 77,
        }
    );
}

#[test]
fn a_worker_can_only_be_joined_once_it_has_stopped() {
    let mut engine = engine(2, 3);
    assert!(!engine.join_worker(0));
    engine.close();
    assert_eq!(monitor_worker(&mut engine, 0, WorkerEvent::Ready), WorkerAction::Stop);
    assert!(engine.join_worker(0));
    assert!(!engine.join_worker(0));
    assert!(!engine.join_worker(1));
    assert_eq!(engine.phase(), Phase::Draining);
    assert_eq!(monitor_worker(&mut engine, 1, WorkerEvent::Ready), WorkerAction::Stop);
    assert_eq!(engine.phase(), Phase::Joining);
    assert!(engine.join_worker(1));
    assert!(engine.all_joined());
    assert_eq!(engine.phase(), Phase::Done);
}

#[test]
fn dispatch_on_a_closed_channel_sends_nothing() {
    let mut engine = engine(1, 3);
    assert!(engine.dispatch(urls(&["a"])));
    assert!(!engine.dispatch(urls(&["b", "c"])));
    assert_eq!(engine.pending(), 1);
    assert_eq!(
        engine.send(MonitorMessage::CheckUrl("d".to_string())),
        Err(MonitorMessage::CheckUrl("d".to_string()))
    );
    assert_eq!(engine.send(MonitorMessage::Shutdown), Err(MonitorMessage::Shutdown));
}

#[test]
fn dispatching_nothing_closes_the_channel_and_the_pool_winds_down() {
    let mut engine = engine(3, 3);
    assert!(engine.dispatch(Vec::new()));
    assert!(engine.is_closed());
    assert_eq!(engine.phase(), Phase::Draining);
    assert_eq!(drain(&mut engine, &[2, 1, 0]), 0);
    join_all(&mut engine);
    assert_eq!(engine.phase(), Phase::Done);
    assert!(engine.into_results().is_empty());
}

#[test]
fn collecting_ends_at_the_expected_count_or_when_the_pool_has_stopped() {
    let mut engine = engine(1, 1);
    assert!(engine.dispatch(urls(&["a", "b"])));
    assert!(engine.collection_complete(Some(0)));
    assert!(!engine.collection_complete(Some(1)));
    assert!(!engine.collection_complete(None));
    assert!(matches!(monitor_worker(&mut engine, 0, WorkerEvent::Ready), WorkerAction::Probe { .. }));
    let report = ProbeReport { outcome: Err("x".to_string()), elapsed: 1, finished_at: 1 };
    assert!(matches!(
        monitor_worker(&mut engine, 0, WorkerEvent::Probed(report)),
        WorkerAction::Probe { .. }
    ));
    assert!(engine.collection_complete(Some(1)));
    assert!(!engine.collection_complete(Some(2)));
    assert!(!engine.collection_complete(None));
    let report = ProbeReport { outcome: Err("y".to_string()), elapsed: 1, finished_at: 1 };
    assert_eq!(monitor_worker(&mut engine, 0, WorkerEvent::Probed(report)), WorkerAction::Stop);
    assert!(engine.collection_complete(Some(2)));
    assert!(engine.collection_complete(Some(3)));
    assert!(engine.collection_complete(None));
}

#[test]
fn unreachable_sites_give_the_same_failures_run_after_run() {
    let sites = ["one", "two", "three", "four"];
    let mut first = engine(2, 3);
    assert!(first.dispatch(urls(&sites)));
    drain(&mut first, &[0, 1]);
    let mut second = engine(2, 3);
    assert!(second.dispatch(urls(&sites)));
    drain(&mut second, &[1, 1, 1, 0]);
    let first = first.into_results();
    let second = second.into_results();
    assert_eq!(failures(&first), 4);
    assert_eq!(failures(&second), failures(&first));
    // the order of arrival may differ between the runs
    let order = |results: &[WebsiteStatus]| -> Vec<String> {
        results.iter().map(|r| r.url.clone()).collect()
    };
    assert_ne!(order(&first), order(&second));
}

#[test]
fn every_failure_reports_a_response_time_of_zero() {
    let mut engine = engine(3, 2);
    assert!(engine.dispatch(urls(&["a", "b/200", "c", "d/200", "e"])));
    drain(&mut engine, &[0, 1, 2, 2, 1]);
    for result in engine.results() {
        if result.success() {
            assert_eq!(result.response_time, 7);
        } else {
            assert_eq!(result.response_time, 0);
        }
    }
}
