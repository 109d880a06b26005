use backend_supervisor::launcher::{launch_with, BackendHandle, SpawnOutcome};
use backend_supervisor::lifecycle::{BackendState, Session, ShutdownAction};

#[test]
fn new_session_is_unstarted() {
    let session = Session::new();
    assert_eq!(session.state(), BackendState::Unstarted);
    assert!(!session.has_backend());
}

#[test]
fn running_backend_is_killed_once() {
    let handle = BackendHandle { candidate: 0, pid: 9 };
    let mut session = Session::new();
    assert!(session.record_launch(Some(handle)));
    assert_eq!(session.state(), BackendState::Running { handle });
    assert!(session.has_backend());
    assert_eq!(session.on_window_destroyed(), ShutdownAction::Kill { handle });
    assert_eq!(session.state(), BackendState::Terminated);
    assert_eq!(session.on_window_destroyed(), ShutdownAction::Nothing);
    assert_eq!(session.state(), BackendState::Terminated);
}

#[test]
fn failed_launch_makes_shutdown_a_no_op() {
    let report = launch_with(&vec![SpawnOutcome::Failed; 8]);
    let mut session = Session::new();
    assert!(session.record_launch(report.handle));
    assert_eq!(session.state(), BackendState::Absent);
    assert!(!session.has_backend());
    assert_eq!(session.on_window_destroyed(), ShutdownAction::Nothing);
    assert_eq!(session.state(), BackendState::Absent);
}

#[test]
fn only_first_launch_result_counts() {
    let first = BackendHandle { candidate: 1, pid: 5 };
    let second = BackendHandle { candidate: 2, pid: 6 };
    let mut session = Session::new();
    assert!(session.record_launch(Some(first)));
    assert!(!session.record_launch(Some(second)));
    assert!(!session.record_launch(None));
    assert_eq!(session.state(), BackendState::Running { handle: first });
}

#[test]
fn window_destroyed_before_launch_does_nothing() {
    let mut session = Session::new();
    assert_eq!(session.on_window_destroyed(), ShutdownAction::Nothing);
    assert_eq!(session.state(), BackendState::Unstarted);
}
