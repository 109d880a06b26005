use backend_supervisor::launcher::{
    after_attempt, begin_launch, begin_launch_at, fallback_candidates, launch_candidates,
    launch_with, launched_handle, next_attempt, primary_candidates, BackendHandle, LaunchNote,
    LaunchReport, LaunchState, SpawnOutcome,
};

#[test]
fn fixed_candidates_are_runner_then_interpreter() {
    let all = launch_candidates();
    let programs: Vec<&str> = all.iter().map(|c| c.program.as_str()).collect();
    assert_eq!(
        programs,
        vec![
            "uv",
            "/opt/homebrew/bin/uv",
            "/usr/local/bin/uv",
            "/usr/bin/uv",
            "python3",
            "/usr/bin/python3",
            "/opt/homebrew/bin/python3",
            "/usr/local/bin/python3",
        ]
    );
    for c in &all[..4] {
        assert_eq!(
            c.args,
            vec!["run", "uvicorn", "app.main:app", "--host", "0.0.0.0", "--port", "8484"]
        );
    }
    for c in &all[4..] {
        assert_eq!(
            c.args,
            vec!["-m", "uvicorn", "app.main:app", "--host", "0.0.0.0", "--port", "8484"]
        );
    }
}

#[test]
fn launch_begins_with_first_candidate() {
    let step = begin_launch(true, true, 8);
    assert_eq!(step.state, LaunchState::Attempting { index: 0 });
    assert!(step.notes.is_empty());
    assert_eq!(next_attempt(step.state), Some(0));
}

#[test]
fn missing_directory_rules_launch_out() {
    let step = begin_launch(false, false, 8);
    assert_eq!(step.state, LaunchState::Absent);
    assert_eq!(step.notes, vec![LaunchNote::PathMissing]);
    assert_eq!(next_attempt(step.state), None);
}

#[test]
fn missing_marker_rules_launch_out() {
    let step = begin_launch(true, false, 8);
    assert_eq!(step.state, LaunchState::Absent);
    assert_eq!(step.notes, vec![LaunchNote::MarkerMissing]);
}

#[test]
fn launch_without_candidates_is_exhausted() {
    let step = begin_launch(true, true, 0);
    assert_eq!(step.state, LaunchState::Absent);
    assert_eq!(step.notes, vec![LaunchNote::Exhausted]);
}

#[test]
fn success_ends_attempts() {
    let step = after_attempt(
        LaunchState::Attempting { index: 2 },
        SpawnOutcome::Started { pid: 77 },
        8,
    );
    let handle = BackendHandle { candidate: 2, pid: 77 };
    assert_eq!(step.state, LaunchState::Running { handle });
    assert_eq!(step.notes, vec![LaunchNote::Started { candidate: 2, pid: 77 }]);
    assert_eq!(next_attempt(step.state), None);
    assert_eq!(launched_handle(step.state), Some(handle));
    let again = after_attempt(step.state, SpawnOutcome::Started { pid: 78 }, 8);
    assert_eq!(again.state, step.state);
    assert!(again.notes.is_empty());
}

#[test]
fn failure_moves_to_next_candidate() {
    let step = after_attempt(LaunchState::Attempting { index: 2 }, SpawnOutcome::Failed, 8);
    assert_eq!(step.state, LaunchState::Attempting { index: 3 });
    assert_eq!(step.notes, vec![LaunchNote::AttemptFailed { candidate: 2 }]);
}

#[test]
fn failure_of_last_candidate_gives_up() {
    let step = after_attempt(LaunchState::Attempting { index: 7 }, SpawnOutcome::Failed, 8);
    assert_eq!(step.state, LaunchState::Absent);
    assert_eq!(
        step.notes,
        vec![LaunchNote::AttemptFailed { candidate: 7 }, LaunchNote::Exhausted]
    );
    assert_eq!(launched_handle(step.state), None);
}

#[test]
fn first_success_wins_and_stops() {
    let outcomes = vec![
        SpawnOutcome::Failed,
        SpawnOutcome::Started { pid: 10 },
        SpawnOutcome::Started { pid: 11 },
    ];
    assert_eq!(
        launch_with(&outcomes),
        LaunchReport { handle: Some(BackendHandle { candidate: 1, pid: 10 }), attempts: 2 }
    );
}

#[test]
fn all_failures_give_no_handle() {
    let outcomes = vec![SpawnOutcome::Failed; 8];
    assert_eq!(launch_with(&outcomes), LaunchReport { handle: None, attempts: 8 });
    assert_eq!(launch_with(&vec![]), LaunchReport { handle: None, attempts: 0 });
}

#[test]
fn fallback_interpreter_starts_backend() {
    let candidates = launch_candidates();
    let total = candidates.len();
    let mut state = begin_launch(true, true, total).state;
    let mut notes = Vec::new();
    let mut spawned = Vec::new();
    while let Some(index) = next_attempt(state) {
        let program = candidates[index].program.clone();
        let outcome = if program == "/usr/bin/python3" {
            SpawnOutcome::Started { pid: 4242 }
        } else {
            SpawnOutcome::Failed
        };
        spawned.push(program);
        let step = after_attempt(state, outcome, total);
        notes.extend(step.notes);
        state = step.state;
    }
    assert_eq!(
        spawned,
        vec!["uv", "/opt/homebrew/bin/uv", "/usr/local/bin/uv", "/usr/bin/uv", "python3", "/usr/bin/python3"]
    );
    assert_eq!(launched_handle(state), Some(BackendHandle { candidate: 5, pid: 4242 }));
    assert_eq!(notes.last(), Some(&LaunchNote::Started { candidate: 5, pid: 4242 }));
    assert_eq!(notes.len(), 6);
}

#[test]
fn primary_and_fallback_lists() {
    let primary: Vec<String> = primary_candidates().into_iter().map(|c| c.program).collect();
    assert_eq!(primary, vec!["uv", "/opt/homebrew/bin/uv", "/usr/local/bin/uv", "/usr/bin/uv"]);
    let fallback: Vec<String> = fallback_candidates().into_iter().map(|c| c.program).collect();
    assert_eq!(
        fallback,
        vec!["python3", "/usr/bin/python3", "/opt/homebrew/bin/python3", "/usr/local/bin/python3"]
    );
}

#[test]
fn launch_at_missing_directory_attempts_nothing() {
    let step = begin_launch_at("/no-such-directory-for-the-backend", 8);
    assert_eq!(step.state, LaunchState::Absent);
    assert_eq!(step.notes, vec![LaunchNote::PathMissing]);
}

#[test]
fn launch_at_directory_without_marker_attempts_nothing() {
    let step = begin_launch_at("/proc", 8);
    assert_eq!(step.state, LaunchState::Absent);
    assert_eq!(step.notes, vec![LaunchNote::MarkerMissing]);
}
