//! Starting the backend.
//!
//! The launcher holds an ordered list of executables and tries them one
//! after another until a process starts. Spawning itself is the caller's
//! work: the launcher says which candidate is due, is told how the attempt
//! went, and says what follows.

use vstd::prelude::*;
use crate::paths::inspect_backend_path;
use crate::search::{first_valid, probes_needed, lemma_first_valid_at};
use crate::text::views;

verus! {

/// An executable and the arguments it is started with.
pub struct LaunchCandidate {
    pub program: String,
    pub args: Vec<String>,
}

/// A started backend process: the candidate that started it and the
/// identifier the system gave it.
#[derive(Clone, Copy, Debug, PartialEq, Eq, Structural)]
pub struct BackendHandle {
    pub candidate: usize,
    pub pid: u32,
}

/// How one spawn attempt went.
#[derive(Clone, Copy, Debug, PartialEq, Eq, Structural)]
pub enum SpawnOutcome {
    Started { pid: u32 },
    Failed,
}

/// Where a launch stands.
#[derive(Clone, Copy, Debug, PartialEq, Eq, Structural)]
pub enum LaunchState {
    /// The candidate at `index` is due.
    Attempting { index: usize },
    /// A candidate started the backend.
    Running { handle: BackendHandle },
    /// No backend was started, and no attempt is due.
    Absent,
}

/// What a launch reports for the log.
#[derive(Clone, Copy, Debug, PartialEq, Eq, Structural)]
pub enum LaunchNote {
    PathMissing,
    MarkerMissing,
    Started { candidate: usize, pid: u32 },
    AttemptFailed { candidate: usize },
    Exhausted,
}

/// A state together with the notes of the step that led to it.
pub struct LaunchStep {
    pub state: LaunchState,
    pub notes: Vec<LaunchNote>,
}

/// The outcome of a whole launch: the handle, if any, and how many spawn
/// attempts were made.
#[derive(Clone, Copy, Debug, PartialEq, Eq, Structural)]
pub struct LaunchReport {
    pub handle: Option<BackendHandle>,
    pub attempts: usize,
}

/// The arguments that serve the backend application on every interface at
/// port 8484.
pub open spec fn server_args() -> Seq<Seq<char>> {
    seq!["uvicorn"@, "app.main:app"@, "--host"@, "0.0.0.0"@, "--port"@, "8484"@]
}

/// The package runner, by name and at its usual install locations.
pub open spec fn primary_programs() -> Seq<Seq<char>> {
    seq!["uv"@, "/opt/homebrew/bin/uv"@, "/usr/local/bin/uv"@, "/usr/bin/uv"@]
}

/// The interpreter, by name and at its usual install locations.
pub open spec fn fallback_programs() -> Seq<Seq<char>> {
    seq!["python3"@, "/usr/bin/python3"@, "/opt/homebrew/bin/python3"@, "/usr/local/bin/python3"@]
}

/// The arguments of the package runner.
pub open spec fn primary_args() -> Seq<Seq<char>> {
    seq!["run"@] + server_args()
}

/// The arguments of the interpreter.
pub open spec fn fallback_args() -> Seq<Seq<char>> {
    seq!["-m"@] + server_args()
}

/// The program of the candidate at `index` of the fixed list: the package
/// runner's locations come first, the interpreter's after them.
pub open spec fn program_at(index: int) -> Seq<char> {
    if index < 4 {
        primary_programs()[index]
    } else {
        fallback_programs()[index - 4]
    }
}

/// The arguments of the candidate at `index` of the fixed list.
pub open spec fn args_at(index: int) -> Seq<Seq<char>> {
    if index < 4 {
        primary_args()
    } else {
        fallback_args()
    }
}

fn server_arg_list(first: &str) -> (r: Vec<String>)
    ensures
        views(r@) == seq![first@] + server_args(),
{
    let mut out: Vec<String> = Vec::new();
    out.push(first.to_owned());
    out.push("uvicorn".to_owned());
    out.push("app.main:app".to_owned());
    out.push("--host".to_owned());
    out.push("0.0.0.0".to_owned());
    out.push("--port".to_owned());
    out.push("8484".to_owned());
    out
}

fn primary(program: &str) -> (r: LaunchCandidate)
    ensures
        r.program@ == program@,
        views(r.args@) == primary_args(),
{
    LaunchCandidate { program: program.to_owned(), args: server_arg_list("run") }
}

fn fallback(program: &str) -> (r: LaunchCandidate)
    ensures
        r.program@ == program@,
        views(r.args@) == fallback_args(),
{
    LaunchCandidate { program: program.to_owned(), args: server_arg_list("-m") }
}

/// The package runner's candidates, in the order in which they are tried.
pub fn primary_candidates() -> (r: Vec<LaunchCandidate>)
    ensures
        r.len() == 4,
        forall|i: int|
            0 <= i < 4 ==> (#[trigger] r[i]).program@ == primary_programs()[i] && views(r[i].args@)
                == primary_args(),
{
    let mut out: Vec<LaunchCandidate> = Vec::new();
    out.push(primary("uv"));
    out.push(primary("/opt/homebrew/bin/uv"));
    out.push(primary("/usr/local/bin/uv"));
    out.push(primary("/usr/bin/uv"));
    out
}

/// The interpreter's candidates, in the order in which they are tried.
pub fn fallback_candidates() -> (r: Vec<LaunchCandidate>)
    ensures
        r.len() == 4,
        forall|i: int|
            0 <= i < 4 ==> (#[trigger] r[i]).program@ == fallback_programs()[i] && views(
                r[i].args@,
            ) == fallback_args(),
{
    let mut out: Vec<LaunchCandidate> = Vec::new();
    out.push(fallback("python3"));
    out.push(fallback("/usr/bin/python3"));
    out.push(fallback("/opt/homebrew/bin/python3"));
    out.push(fallback("/usr/local/bin/python3"));
    out
}

/// All candidates, in the order in which they are tried: the package
/// runner's first, the interpreter's after them.
pub fn launch_candidates() -> (r: Vec<LaunchCandidate>)
    ensures
        r.len() == 8,
        forall|i: int|
            0 <= i < 8 ==> (#[trigger] r[i]).program@ == program_at(i) && views(r[i].args@)
                == args_at(i),
{
    let mut out = primary_candidates();
    let mut rest = fallback_candidates();
    out.append(&mut rest);
    out
}

/// The state in which a launch over `total` candidates begins. A backend
/// directory that is missing, or lacks its entry point, rules the launch out
/// before any attempt.
pub open spec fn begin_state(path_exists: bool, has_marker: bool, total: nat) -> LaunchState {
    if path_exists && has_marker && total > 0 {
        LaunchState::Attempting { index: 0 }
    } else {
        LaunchState::Absent
    }
}

/// The notes with which a launch begins.
pub open spec fn begin_notes(path_exists: bool, has_marker: bool, total: nat) -> Seq<LaunchNote> {
    if !path_exists {
        seq![LaunchNote::PathMissing]
    } else if !has_marker {
        seq![LaunchNote::MarkerMissing]
    } else if total == 0 {
        seq![LaunchNote::Exhausted]
    } else {
        seq![]
    }
}

/// The state after the attempt that was due in `state` went as `outcome`
/// says, with `total` candidates in all. A state in which no attempt is due
/// stays as it is.
pub open spec fn next_state(state: LaunchState, outcome: SpawnOutcome, total: nat) -> LaunchState {
    match state {
        LaunchState::Attempting { index } => match outcome {
            SpawnOutcome::Started { pid } => LaunchState::Running {
                handle: BackendHandle { candidate: index, pid },
            },
            SpawnOutcome::Failed => if index + 1 < total {
                LaunchState::Attempting { index: (index + 1) as usize }
            } else {
                LaunchState::Absent
            },
        },
        _ => state,
    }
}

/// The notes of that step.
pub open spec fn next_notes(state: LaunchState, outcome: SpawnOutcome, total: nat) -> Seq<
    LaunchNote,
> {
    match state {
        LaunchState::Attempting { index } => match outcome {
            SpawnOutcome::Started { pid } => seq![LaunchNote::Started { candidate: index, pid }],
            SpawnOutcome::Failed => if index + 1 < total {
                seq![LaunchNote::AttemptFailed { candidate: index }]
            } else {
                seq![LaunchNote::AttemptFailed { candidate: index }, LaunchNote::Exhausted]
            },
        },
        _ => seq![],
    }
}

/// The candidate that is due in `state`, if any.
pub open spec fn due(state: LaunchState) -> Option<usize> {
    match state {
        LaunchState::Attempting { index } => Some(index),
        _ => None,
    }
}

/// The handle that `state` holds, if any.
pub open spec fn handle_of(state: LaunchState) -> Option<BackendHandle> {
    match state {
        LaunchState::Running { handle } => Some(handle),
        _ => None,
    }
}

/// Whether each attempt started a process.
pub open spec fn started_flags(outcomes: Seq<SpawnOutcome>) -> Seq<bool> {
    outcomes.map_values(|o: SpawnOutcome| o is Started)
}

/// The handle of a launch in which spawning candidate `i` would go as
/// `outcomes[i]` says: that of the first candidate that starts, or none.
pub open spec fn launch_handle(outcomes: Seq<SpawnOutcome>) -> Option<BackendHandle> {
    let k = first_valid(started_flags(outcomes));
    if k < outcomes.len() {
        Some(BackendHandle { candidate: k as usize, pid: outcomes[k as int]->pid })
    } else {
        None
    }
}

/// The number of attempts of such a launch: none is made after a success.
pub open spec fn launch_attempts(outcomes: Seq<SpawnOutcome>) -> nat {
    probes_needed(started_flags(outcomes))
}

/// Begins a launch over `total` candidates, given whether the backend
/// directory exists and holds its entry point.
pub fn begin_launch(path_exists: bool, has_marker: bool, total: usize) -> (r: LaunchStep)
    ensures
        r.state == begin_state(path_exists, has_marker, total as nat),
        r.notes@ == begin_notes(path_exists, has_marker, total as nat),
{
    let mut notes: Vec<LaunchNote> = Vec::new();
    if !path_exists {
        notes.push(LaunchNote::PathMissing);
        LaunchStep { state: LaunchState::Absent, notes }
    } else if !has_marker {
        notes.push(LaunchNote::MarkerMissing);
        LaunchStep { state: LaunchState::Absent, notes }
    } else if total == 0 {
        notes.push(LaunchNote::Exhausted);
        LaunchStep { state: LaunchState::Absent, notes }
    } else {
        LaunchStep { state: LaunchState::Attempting { index: 0 }, notes }
    }
}

/// Begins a launch from the backend directory `backend_path`: asks the
/// file system whether it exists and holds the entry point, and begins
/// accordingly. Whatever the file system answers, the launch begins as
/// `begin_state` and `begin_notes` say of the answers.
pub fn begin_launch_at(backend_path: &str, total: usize) -> (r: LaunchStep)
    ensures
        exists|path_exists: bool, has_marker: bool|
            r.state == begin_state(path_exists, has_marker, total as nat) && r.notes@
                == begin_notes(path_exists, has_marker, total as nat),
        total == 0 ==> r.state == LaunchState::Absent,
{
    let found = inspect_backend_path(backend_path);
    begin_launch(found.0, found.1, total)
}

/// The candidate to spawn next, if the launch is not over.
pub fn next_attempt(state: LaunchState) -> (r: Option<usize>)
    ensures
        r == due(state),
{
    match state {
        LaunchState::Attempting { index } => Some(index),
        _ => None,
    }
}

/// The handle of the started backend, if the launch ended with one.
pub fn launched_handle(state: LaunchState) -> (r: Option<BackendHandle>)
    ensures
        r == handle_of(state),
{
    match state {
        LaunchState::Running { handle } => Some(handle),
        _ => None,
    }
}

/// Takes in how the attempt that was due went. After a success no attempt
/// is due any more; after a failure the next candidate is due, or none when
/// that was the last.
pub fn after_attempt(state: LaunchState, outcome: SpawnOutcome, total: usize) -> (r: LaunchStep)
    ensures
        r.state == next_state(state, outcome, total as nat),
        r.notes@ == next_notes(state, outcome, total as nat),
{
    let mut notes: Vec<LaunchNote> = Vec::new();
    let next = match state {
        LaunchState::Attempting { index } => match outcome {
            SpawnOutcome::Started { pid } => {
                notes.push(LaunchNote::Started { candidate: index, pid });
                LaunchState::Running { handle: BackendHandle { candidate: index, pid } }
            },
            SpawnOutcome::Failed => {
                notes.push(LaunchNote::AttemptFailed { candidate: index });
                if index < total && index + 1 < total {
                    LaunchState::Attempting { index: index + 1 }
                } else {
                    notes.push(LaunchNote::Exhausted);
                    LaunchState::Absent
                }
            },
        },
        _ => state,
    };
    LaunchStep { state: next, notes }
}

/// Runs a whole launch over a directory that validated, with spawning
/// candidate `i` going as `outcomes[i]` says. The handle is that of the
/// first candidate that starts, and the attempts end with it.
pub fn launch_with(outcomes: &Vec<SpawnOutcome>) -> (r: LaunchReport)
    ensures
        r.handle == launch_handle(outcomes@),
        r.attempts == launch_attempts(outcomes@),
{
    let total = outcomes.len();
    let mut state = begin_launch(true, true, total).state;
    let mut attempts: usize = 0;
    loop
        invariant
            total == outcomes.len(),
            attempts <= total,
            forall|j: int| 0 <= j < attempts ==> !#[trigger] started_flags(outcomes@)[j],
            state == (if attempts < total {
                LaunchState::Attempting { index: attempts }
            } else {
                LaunchState::Absent
            }),
        decreases total - attempts,
    {
        match next_attempt(state) {
            None => {
                proof {
                    lemma_first_valid_at(started_flags(outcomes@), total as int);
                }
                return LaunchReport { handle: None, attempts };
            },
            Some(index) => {
                let step = after_attempt(state, outcomes[index], total);
                if let Some(handle) = launched_handle(step.state) {
                    proof {
                        lemma_first_valid_at(started_flags(outcomes@), index as int);
                    }
                    return LaunchReport { handle: Some(handle), attempts: attempts + 1 };
                }
                state = step.state;
                attempts = attempts + 1;
            },
        }
    }
}

/// The launch returns the handle of the first candidate that starts, and
/// makes no attempt after it.
pub proof fn lemma_first_success_wins(outcomes: Seq<SpawnOutcome>, k: int)
    requires
        0 <= k < outcomes.len(),
        outcomes[k] is Started,
        forall|i: int| 0 <= i < k ==> #[trigger] outcomes[i] is Failed,
    ensures
        launch_handle(outcomes) == Some(
            BackendHandle { candidate: k as usize, pid: outcomes[k]->pid },
        ),
        launch_attempts(outcomes) == k + 1,
{
    lemma_first_valid_at(started_flags(outcomes), k);
}

/// Where every candidate fails, the launch returns no handle, having tried
/// each candidate once.
pub proof fn lemma_all_fail_is_absent(outcomes: Seq<SpawnOutcome>)
    requires
        forall|i: int| 0 <= i < outcomes.len() ==> #[trigger] outcomes[i] is Failed,
    ensures
        launch_handle(outcomes) == None::<BackendHandle>,
        launch_attempts(outcomes) == outcomes.len(),
{
    lemma_first_valid_at(started_flags(outcomes), outcomes.len() as int);
}

/// The state in which a launch over a directory that validated ends.
pub open spec fn settled_state(outcomes: Seq<SpawnOutcome>) -> LaunchState {
    match launch_handle(outcomes) {
        Some(handle) => LaunchState::Running { handle },
        None => LaunchState::Absent,
    }
}

/// The state of such a launch after `steps` steps, each of which spawns
/// the candidate that is due, if any, and takes in how that went.
pub open spec fn state_after(outcomes: Seq<SpawnOutcome>, steps: nat) -> LaunchState
    decreases steps,
{
    if steps == 0 {
        begin_state(true, true, outcomes.len())
    } else {
        let before = state_after(outcomes, (steps - 1) as nat);
        match before {
            LaunchState::Attempting { index } => if index < outcomes.len() {
                next_state(before, outcomes[index as int], outcomes.len())
            } else {
                before
            },
            _ => before,
        }
    }
}

/// Step by step, the launch spawns the candidates in order up to the first
/// that starts, and from then on holds its handle and spawns nothing; where
/// none starts it ends without a handle after the last.
pub proof fn lemma_launch_steps(outcomes: Seq<SpawnOutcome>, steps: nat)
    requires
        outcomes.len() <= usize::MAX,
    ensures
        steps < launch_attempts(outcomes) ==> state_after(outcomes, steps)
            == (LaunchState::Attempting { index: steps as usize }),
        steps >= launch_attempts(outcomes) ==> state_after(outcomes, steps) == settled_state(
            outcomes,
        ),
        due(settled_state(outcomes)) == None::<usize>,
    decreases steps,
{
    let flags = started_flags(outcomes);
    crate::search::lemma_first_valid(flags);
    if steps > 0 {
        lemma_launch_steps(outcomes, (steps - 1) as nat);
        if steps - 1 < launch_attempts(outcomes) {
            assert(flags[steps - 1] == (outcomes[steps - 1] is Started));
        }
    }
}

/// Once a process has started, or the launch has given up, no attempt is due
/// and further outcomes change nothing.
pub proof fn lemma_settled_stays(state: LaunchState, outcome: SpawnOutcome, total: nat)
    requires
        !(state is Attempting),
    ensures
        due(state) == None::<usize>,
        next_state(state, outcome, total) == state,
        next_notes(state, outcome, total) == Seq::<LaunchNote>::empty(),
{
}

} // verus!
