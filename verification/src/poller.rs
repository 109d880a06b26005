//! Waiting for the backend to answer.
//!
//! After a launch the status endpoint is probed once a second, each request
//! with a timeout of two seconds, until it answers with a success status or
//! thirty requests have gone without one. Sending and sleeping are the
//! caller's work: the poller is told what a probe gave and says what follows.

use vstd::prelude::*;
use crate::search::{first_valid, probes_needed, lemma_first_valid_at};

verus! {

/// The most requests a poll makes.
pub const MAX_ATTEMPTS: u32 = 30;

/// Seconds to wait after a request that did not find the backend ready.
pub const POLL_INTERVAL_SECS: u64 = 1;

/// Seconds after which a request is given up.
pub const REQUEST_TIMEOUT_SECS: u64 = 2;

/// The endpoint that is probed.
pub fn status_url() -> (r: String)
    ensures
        r@ == "http://localhost:8484/api/status"@,
{
    "http://localhost:8484/api/status".to_owned()
}

/// What one request gave: a response with its status code, or none.
#[derive(Clone, Copy, Debug, PartialEq, Eq, Structural)]
pub enum ProbeResult {
    Status { code: u16 },
    Unreachable,
}

/// Where a poll stands.
#[derive(Clone, Copy, Debug, PartialEq, Eq, Structural)]
pub enum PollState {
    /// `made` requests went without success, and another is due.
    Polling { made: u32 },
    /// The backend answered after `after` unsuccessful requests.
    Ready { after: u32 },
    /// The backend did not answer within the limit.
    TimedOut,
}

/// A state together with the pause that precedes whatever comes next.
#[derive(Clone, Copy, Debug, PartialEq, Eq, Structural)]
pub struct PollStep {
    pub state: PollState,
    pub pause_secs: u64,
}

/// The outcome of a whole poll: the state it ended in and how many requests
/// were made.
#[derive(Clone, Copy, Debug, PartialEq, Eq, Structural)]
pub struct PollReport {
    pub state: PollState,
    pub requests: usize,
}

/// A response counts as success when its status is in the 2xx range.
pub open spec fn is_success(result: ProbeResult) -> bool {
    match result {
        ProbeResult::Status { code } => 200 <= code < 300,
        ProbeResult::Unreachable => false,
    }
}

/// The state after `made` unsuccessful requests in a row.
pub open spec fn waiting(made: nat) -> PollState {
    if made < MAX_ATTEMPTS {
        PollState::Polling { made: made as u32 }
    } else {
        PollState::TimedOut
    }
}

/// The state after the request that was due in `state` gave `result`. A
/// state in which no request is due stays as it is.
pub open spec fn next_poll_state(state: PollState, result: ProbeResult) -> PollState {
    match state {
        PollState::Polling { made } => if is_success(result) {
            PollState::Ready { after: made }
        } else {
            waiting(made as nat + 1)
        },
        _ => state,
    }
}

/// The pause of that step: the interval after an unsuccessful request, none
/// otherwise.
pub open spec fn next_pause(state: PollState, result: ProbeResult) -> u64 {
    if state is Polling && !is_success(result) {
        POLL_INTERVAL_SECS
    } else {
        0
    }
}

/// Whether a state is one a poll can be in: it never counts more than the
/// limit, and at the limit no request is due.
pub open spec fn poll_state_valid(state: PollState) -> bool {
    match state {
        PollState::Polling { made } => made < MAX_ATTEMPTS,
        PollState::Ready { after } => after < MAX_ATTEMPTS,
        PollState::TimedOut => true,
    }
}

/// Whether each of the requests within the limit succeeds, where request
/// `i` would give `results[i]`.
pub open spec fn success_flags(results: Seq<ProbeResult>) -> Seq<bool> {
    Seq::new(
        if results.len() < MAX_ATTEMPTS { results.len() } else { MAX_ATTEMPTS as nat },
        |i: int| is_success(results[i]),
    )
}

/// The number of requests of a poll in which request `i` would give
/// `results[i]`: none is made after a success, nor beyond the limit.
pub open spec fn poll_requests(results: Seq<ProbeResult>) -> nat {
    probes_needed(success_flags(results))
}

/// The state in which such a poll ends.
pub open spec fn poll_outcome(results: Seq<ProbeResult>) -> PollState {
    let flags = success_flags(results);
    let k = first_valid(flags);
    if k < flags.len() {
        PollState::Ready { after: k as u32 }
    } else {
        waiting(flags.len())
    }
}

/// Whether a response status is a success.
pub fn is_ready(result: ProbeResult) -> (r: bool)
    ensures
        r == is_success(result),
{
    match result {
        ProbeResult::Status { code } => 200 <= code && code < 300,
        ProbeResult::Unreachable => false,
    }
}

/// The state in which a poll begins.
pub fn begin_poll() -> (r: PollState)
    ensures
        r == waiting(0),
        poll_state_valid(r),
{
    PollState::Polling { made: 0 }
}

/// Whether a request is due.
pub fn request_due(state: PollState) -> (r: bool)
    ensures
        r == (state is Polling),
{
    match state {
        PollState::Polling { .. } => true,
        _ => false,
    }
}

/// Takes in what the request that was due gave. A success ends the poll at
/// once; anything else is followed by the pause and then by the next
/// request, or by giving up when that was the last one allowed.
pub fn after_probe(state: PollState, result: ProbeResult) -> (r: PollStep)
    ensures
        r.state == next_poll_state(state, result),
        r.pause_secs == next_pause(state, result),
        poll_state_valid(state) ==> poll_state_valid(r.state),
{
    match state {
        PollState::Polling { made } => {
            if is_ready(result) {
                PollStep { state: PollState::Ready { after: made }, pause_secs: 0 }
            } else if made < MAX_ATTEMPTS - 1 {
                PollStep { state: PollState::Polling { made: made + 1 }, pause_secs: POLL_INTERVAL_SECS }
            } else {
                PollStep { state: PollState::TimedOut, pause_secs: POLL_INTERVAL_SECS }
            }
        },
        _ => PollStep { state, pause_secs: 0 },
    }
}

/// Runs a poll in which request `i` gives `results[i]`, for as long as a
/// request is due and a result is at hand.
pub fn poll_with(results: &Vec<ProbeResult>) -> (r: PollReport)
    ensures
        r.state == poll_outcome(results@),
        r.requests == poll_requests(results@),
        r.requests <= MAX_ATTEMPTS,
{
    let mut state = begin_poll();
    let mut requests: usize = 0;
    while request_due(state) && requests < results.len()
        invariant
            requests <= results.len(),
            requests <= MAX_ATTEMPTS,
            poll_state_valid(state),
            forall|j: int| 0 <= j < requests ==> !is_success(#[trigger] results@[j]),
            state == waiting(requests as nat),
        decreases results.len() - requests,
    {
        let step = after_probe(state, results[requests]);
        if is_ready(results[requests]) {
            proof {
                lemma_first_valid_at(success_flags(results@), requests as int);
            }
            return PollReport { state: step.state, requests: requests + 1 };
        }
        state = step.state;
        requests = requests + 1;
    }
    proof {
        lemma_first_valid_at(success_flags(results@), requests as int);
    }
    PollReport { state, requests }
}

/// A poll stops with the first success: the request that found the backend
/// ready is the last one made.
pub proof fn lemma_stops_at_first_success(results: Seq<ProbeResult>, k: int)
    requires
        0 <= k < results.len(),
        k < MAX_ATTEMPTS,
        is_success(results[k]),
        forall|i: int| 0 <= i < k ==> !is_success(#[trigger] results[i]),
    ensures
        poll_requests(results) == k + 1,
        poll_outcome(results) == (PollState::Ready { after: k as u32 }),
{
    lemma_first_valid_at(success_flags(results), k);
}

/// A poll never makes more requests than the limit, whatever the results.
pub proof fn lemma_never_beyond_limit(results: Seq<ProbeResult>)
    ensures
        poll_requests(results) <= MAX_ATTEMPTS,
{
    crate::search::lemma_first_valid(success_flags(results));
}

/// Where no request within the limit succeeds and the results reach the
/// limit, the poll makes exactly as many requests as the limit allows and
/// gives up.
pub proof fn lemma_gives_up_at_limit(results: Seq<ProbeResult>)
    requires
        results.len() >= MAX_ATTEMPTS,
        forall|i: int| 0 <= i < MAX_ATTEMPTS ==> !is_success(#[trigger] results[i]),
    ensures
        poll_requests(results) == MAX_ATTEMPTS,
        poll_outcome(results) == PollState::TimedOut,
{
    lemma_first_valid_at(success_flags(results), MAX_ATTEMPTS as int);
}

/// The state of a poll after `steps` steps, each of which sends the request
/// that is due, if any and if a result is at hand, and takes in what it gave.
pub open spec fn poll_state_after(results: Seq<ProbeResult>, steps: nat) -> PollState
    decreases steps,
{
    if steps == 0 {
        waiting(0)
    } else {
        let before = poll_state_after(results, (steps - 1) as nat);
        match before {
            PollState::Polling { made } => if made < results.len() {
                next_poll_state(before, results[made as int])
            } else {
                before
            },
            _ => before,
        }
    }
}

/// Step by step, the poll sends one request after another up to the first
/// that succeeds or to the limit, and from then on stays as it ended and
/// sends nothing.
pub proof fn lemma_poll_steps(results: Seq<ProbeResult>, steps: nat)
    ensures
        steps < poll_requests(results) ==> poll_state_after(results, steps)
            == (PollState::Polling { made: steps as u32 }),
        steps >= poll_requests(results) ==> poll_state_after(results, steps) == poll_outcome(
            results,
        ),
        poll_requests(results) <= MAX_ATTEMPTS,
    decreases steps,
{
    let flags = success_flags(results);
    crate::search::lemma_first_valid(flags);
    if steps > 0 {
        lemma_poll_steps(results, (steps - 1) as nat);
        if steps - 1 < poll_requests(results) {
            assert(flags[steps - 1] == is_success(results[steps - 1]));
        }
    }
}

/// Once the backend is ready, or the poll has given up, further results
/// change nothing and ask for no pause.
pub proof fn lemma_finished_poll_stays(state: PollState, result: ProbeResult)
    requires
        !(state is Polling),
    ensures
        next_poll_state(state, result) == state,
        next_pause(state, result) == 0,
{
}

} // verus!
