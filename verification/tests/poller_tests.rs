use backend_supervisor::poller::{
    after_probe, begin_poll, is_ready, poll_with, request_due, status_url, PollReport, PollState,
    PollStep, ProbeResult, MAX_ATTEMPTS, POLL_INTERVAL_SECS, REQUEST_TIMEOUT_SECS,
};

#[test]
fn polling_parameters() {
    assert_eq!(MAX_ATTEMPTS, 30);
    assert_eq!(POLL_INTERVAL_SECS, 1);
    assert_eq!(REQUEST_TIMEOUT_SECS, 2);
    assert_eq!(status_url(), "http://localhost:8484/api/status");
}

#[test]
fn only_2xx_is_ready() {
    assert!(is_ready(ProbeResult::Status { code: 200 }));
    assert!(is_ready(ProbeResult::Status { code: 204 }));
    assert!(is_ready(ProbeResult::Status { code: 299 }));
    assert!(!is_ready(ProbeResult::Status { code: 199 }));
    assert!(!is_ready(ProbeResult::Status { code: 300 }));
    assert!(!is_ready(ProbeResult::Status { code: 404 }));
    assert!(!is_ready(ProbeResult::Status { code: 503 }));
    assert!(!is_ready(ProbeResult::Unreachable));
}

#[test]
fn poll_begins_with_a_request() {
    let state = begin_poll();
    assert_eq!(state, PollState::Polling { made: 0 });
    assert!(request_due(state));
}

#[test]
fn success_stops_without_pause() {
    let step = after_probe(PollState::Polling { made: 3 }, ProbeResult::Status { code: 200 });
    assert_eq!(step, PollStep { state: PollState::Ready { after: 3 }, pause_secs: 0 });
    assert!(!request_due(step.state));
    let again = after_probe(step.state, ProbeResult::Unreachable);
    assert_eq!(again, PollStep { state: PollState::Ready { after: 3 }, pause_secs: 0 });
}

#[test]
fn failure_pauses_then_retries() {
    let step = after_probe(PollState::Polling { made: 3 }, ProbeResult::Status { code: 500 });
    assert_eq!(step, PollStep { state: PollState::Polling { made: 4 }, pause_secs: 1 });
    let step = after_probe(PollState::Polling { made: 28 }, ProbeResult::Unreachable);
    assert_eq!(step, PollStep { state: PollState::Polling { made: 29 }, pause_secs: 1 });
}

#[test]
fn thirtieth_failure_gives_up() {
    let step = after_probe(PollState::Polling { made: 29 }, ProbeResult::Unreachable);
    assert_eq!(step, PollStep { state: PollState::TimedOut, pause_secs: 1 });
    assert!(!request_due(step.state));
    let again = after_probe(step.state, ProbeResult::Status { code: 200 });
    assert_eq!(again, PollStep { state: PollState::TimedOut, pause_secs: 0 });
}

#[test]
fn poll_stops_at_first_success() {
    let results = vec![
        ProbeResult::Unreachable,
        ProbeResult::Status { code: 503 },
        ProbeResult::Status { code: 200 },
        ProbeResult::Status { code: 200 },
    ];
    assert_eq!(
        poll_with(&results),
        PollReport { state: PollState::Ready { after: 2 }, requests: 3 }
    );
}

#[test]
fn poll_never_makes_a_thirty_first_request() {
    let mut results = vec![ProbeResult::Unreachable; 30];
    results.push(ProbeResult::Status { code: 200 });
    assert_eq!(poll_with(&results), PollReport { state: PollState::TimedOut, requests: 30 });
    let results = vec![ProbeResult::Status { code: 500 }; 100];
    assert_eq!(poll_with(&results), PollReport { state: PollState::TimedOut, requests: 30 });
}

#[test]
fn poll_succeeds_on_last_allowed_request() {
    let mut results = vec![ProbeResult::Unreachable; 29];
    results.push(ProbeResult::Status { code: 200 });
    assert_eq!(
        poll_with(&results),
        PollReport { state: PollState::Ready { after: 29 }, requests: 30 }
    );
}

#[test]
fn poll_with_few_results_is_still_polling() {
    let results = vec![ProbeResult::Unreachable; 2];
    assert_eq!(
        poll_with(&results),
        PollReport { state: PollState::Polling { made: 2 }, requests: 2 }
    );
    assert_eq!(
        poll_with(&vec![]),
        PollReport { state: PollState::Polling { made: 0 }, requests: 0 }
    );
}
