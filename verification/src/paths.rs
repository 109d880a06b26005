//! Locating the backend directory.
//!
//! A directory is taken for the backend root when it holds the entry point
//! `app/main.py`. The resolver computes an ordered list of candidate
//! directories, probes them in turn and settles on the first that validates;
//! when none does it falls back to the first candidate.

use vstd::prelude::*;
use crate::search::{first_valid, probes_needed, lemma_first_valid_at};
use crate::text::views;

verus! {

/// What `std::path::Path::join` makes of `base` extended by `part`.
pub uninterp spec fn joined(base: Seq<char>, part: Seq<char>) -> Seq<char>;

/// What `std::path::Path::parent` makes of `path`: the path without its last
/// component, or nothing where the path ends in a root or is empty.
pub uninterp spec fn parent_of(path: Seq<char>) -> Option<Seq<char>>;

/// The view of an optional string.
pub open spec fn opt_view(s: Option<String>) -> Option<Seq<char>> {
    match s {
        Some(t) => Some(t@),
        None => None,
    }
}

/// Calls `std::path::Path::join`. Both arguments are UTF-8, so the joined
/// path is too and is handed back as a string; the contract only names it.
#[verifier::external_body]
fn join_path(base: &str, part: &str) -> (r: String)
    ensures
        r@ == joined(base@, part@),
{
    std::path::Path::new(base).join(part).to_string_lossy().into_owned()
}

/// Calls `std::path::Path::parent`; the contract only names the result.
#[verifier::external_body]
fn parent_path(path: &str) -> (r: Option<String>)
    ensures
        opt_view(r) == parent_of(path@),
{
    match std::path::Path::new(path).parent() {
        Some(p) => Some(p.to_string_lossy().into_owned()),
        None => None,
    }
}

/// Calls `std::path::Path::exists`. The answer depends on what is on disk at
/// the moment of the call, so nothing is claimed of it.
#[verifier::external_body]
fn path_exists(path: &str) -> (r: bool) {
    std::path::Path::new(path).exists()
}

/// The entry point whose presence validates the directory `dir`.
pub open spec fn marker_of(dir: Seq<char>) -> Seq<char> {
    joined(joined(dir, "app"@), "main.py"@)
}

/// The backend directory directly below `dir`.
pub open spec fn backend_under(dir: Seq<char>) -> Seq<char> {
    joined(dir, "backend"@)
}

/// The backend directory below `dir` where `dir` is present, the empty path
/// otherwise.
pub open spec fn backend_under_opt(dir: Option<Seq<char>>) -> Seq<char> {
    match dir {
        Some(d) => backend_under(d),
        None => Seq::<char>::empty(),
    }
}

/// The parent of the parent of `path`.
pub open spec fn grandparent_of(path: Seq<char>) -> Option<Seq<char>> {
    match parent_of(path) {
        Some(p) => parent_of(p),
        None => None,
    }
}

/// Candidates of a packaged installation, in probing order: the backend
/// directory below the resource directory, the one below its `resources`
/// subdirectory, and the resource directory itself.
pub open spec fn release_candidates(resource_dir: Seq<char>) -> Seq<Seq<char>> {
    seq![
        backend_under(resource_dir),
        backend_under(joined(resource_dir, "resources"@)),
        resource_dir,
    ]
}

/// The candidate derived from the build location: the backend directory two
/// levels above it, or the build location itself where it has no such
/// ancestor.
pub open spec fn build_candidate(build_dir: Seq<char>) -> Seq<char> {
    match grandparent_of(build_dir) {
        Some(root) => backend_under(root),
        None => build_dir,
    }
}

/// Candidates of a development checkout, in probing order: the one derived
/// from the build location, then the backend directory below the working
/// directory, below its parent and below its grandparent.
pub open spec fn dev_candidates(build_dir: Seq<char>, cwd: Seq<char>) -> Seq<Seq<char>> {
    seq![
        build_candidate(build_dir),
        backend_under(cwd),
        backend_under_opt(parent_of(cwd)),
        backend_under_opt(grandparent_of(cwd)),
    ]
}

/// The directory the resolver settles on: the first candidate that
/// validates, or the first candidate where none does.
pub open spec fn resolved(candidates: Seq<Seq<char>>, verdicts: Seq<bool>) -> Seq<char>
    recommends
        candidates.len() > 0,
        verdicts.len() <= candidates.len(),
{
    if first_valid(verdicts) < verdicts.len() {
        candidates[first_valid(verdicts) as int]
    } else {
        candidates[0]
    }
}

/// Where the first candidate validates, the resolver settles on it after a
/// single probe: no later candidate is consulted.
pub proof fn lemma_first_candidate_wins(candidates: Seq<Seq<char>>, verdicts: Seq<bool>)
    requires
        verdicts.len() > 0,
        verdicts[0],
    ensures
        resolved(candidates, verdicts) == candidates[0],
        probes_needed(verdicts) == 1,
{
}

/// In a development checkout whose backend directory, two levels above the
/// build location, validates, the resolver settles on that directory after
/// a single probe: the working directory is not consulted.
pub proof fn lemma_build_location_wins(
    build_dir: Seq<char>,
    cwd: Seq<char>,
    root: Seq<char>,
    verdicts: Seq<bool>,
)
    requires
        grandparent_of(build_dir) == Some(root),
        verdicts.len() > 0,
        verdicts[0],
    ensures
        resolved(dev_candidates(build_dir, cwd), verdicts) == backend_under(root),
        probes_needed(verdicts) == 1,
{
}

/// Where no candidate validates, the resolver settles on the first candidate
/// all the same, after probing every one.
pub proof fn lemma_no_valid_candidate(candidates: Seq<Seq<char>>, verdicts: Seq<bool>)
    requires
        forall|i: int| 0 <= i < verdicts.len() ==> !#[trigger] verdicts[i],
    ensures
        resolved(candidates, verdicts) == candidates[0],
        probes_needed(verdicts) == verdicts.len(),
{
    lemma_first_valid_at(verdicts, verdicts.len() as int);
}

/// The resolver settles on the first candidate that validates, having probed
/// it and every candidate before it and none after it.
pub proof fn lemma_first_valid_candidate_wins(
    candidates: Seq<Seq<char>>,
    verdicts: Seq<bool>,
    k: int,
)
    requires
        0 <= k < verdicts.len(),
        verdicts[k],
        forall|i: int| 0 <= i < k ==> !#[trigger] verdicts[i],
    ensures
        resolved(candidates, verdicts) == candidates[k],
        probes_needed(verdicts) == k + 1,
{
    lemma_first_valid_at(verdicts, k);
}

/// The path of the entry point below `dir`.
pub fn marker_path(dir: &str) -> (r: String)
    ensures
        r@ == marker_of(dir@),
{
    let app = join_path(dir, "app");
    join_path(app.as_str(), "main.py")
}

/// Whether `path` holds the backend entry point right now. The answer is
/// that of the file system for `marker_of(path@)`; a later call may differ.
pub fn is_backend_root(path: &str) -> (r: bool) {
    let marker = marker_path(path);
    path_exists(marker.as_str())
}

/// The outcome of a search: the directory settled on and the answers of the
/// probes that were made, in order.
pub struct Resolution {
    pub path: String,
    pub verdicts: Vec<bool>,
}

/// Settles on a directory among `candidates` from the probe answers
/// `verdicts`, which cover the candidates from the first onwards.
pub fn select_backend_path(candidates: &Vec<String>, verdicts: &Vec<bool>) -> (r: String)
    requires
        candidates.len() > 0,
        verdicts.len() <= candidates.len(),
    ensures
        r@ == resolved(views(candidates@), verdicts@),
{
    let mut i: usize = 0;
    while i < verdicts.len()
        invariant
            i <= verdicts.len() <= candidates.len(),
            forall|j: int| 0 <= j < i ==> !#[trigger] verdicts@[j],
        decreases verdicts.len() - i,
    {
        if verdicts[i] {
            proof {
                lemma_first_valid_at(verdicts@, i as int);
            }
            return candidates[i].clone();
        }
        i += 1;
    }
    proof {
        lemma_first_valid_at(verdicts@, verdicts.len() as int);
    }
    candidates[0].clone()
}

/// Probes `candidates` in order until one validates and settles on it, or on
/// the first candidate where none validates. What the probes answer is up to
/// the file system; the result is exact in terms of those answers.
pub fn search_backend_root(candidates: &Vec<String>) -> (r: Resolution)
    requires
        candidates.len() > 0,
    ensures
        r.verdicts.len() <= candidates.len(),
        r.verdicts@.len() == probes_needed(r.verdicts@),
        first_valid(r.verdicts@) == r.verdicts.len() ==> r.verdicts.len() == candidates.len(),
        r.path@ == resolved(views(candidates@), r.verdicts@),
{
    let mut verdicts: Vec<bool> = Vec::new();
    let mut i: usize = 0;
    while i < candidates.len()
        invariant
            i <= candidates.len(),
            verdicts.len() == i,
            forall|j: int| 0 <= j < i ==> !#[trigger] verdicts@[j],
        decreases candidates.len() - i,
    {
        let valid = is_backend_root(candidates[i].as_str());
        verdicts.push(valid);
        if valid {
            proof {
                lemma_first_valid_at(verdicts@, i as int);
            }
            let path = candidates[i].clone();
            return Resolution { path, verdicts };
        }
        i += 1;
    }
    proof {
        lemma_first_valid_at(verdicts@, verdicts.len() as int);
    }
    let path = candidates[0].clone();
    Resolution { path, verdicts }
}

/// The candidates of a packaged installation whose resources lie in
/// `resource_dir`.
pub fn release_candidate_paths(resource_dir: &str) -> (r: Vec<String>)
    ensures
        r.len() == 3,
        views(r@) == release_candidates(resource_dir@),
{
    let first = join_path(resource_dir, "backend");
    let resources = join_path(resource_dir, "resources");
    let second = join_path(resources.as_str(), "backend");
    let third = resource_dir.to_owned();
    let mut out: Vec<String> = Vec::new();
    out.push(first);
    out.push(second);
    out.push(third);
    out
}

/// The backend directory below `dir` where there is one, the empty path
/// otherwise.
fn backend_below(dir: Option<String>) -> (r: String)
    ensures
        r@ == backend_under_opt(opt_view(dir)),
{
    match dir {
        Some(d) => join_path(d.as_str(), "backend"),
        None => String::new(),
    }
}

/// The parent of the parent of `path`.
fn grandparent_path(path: &str) -> (r: Option<String>)
    ensures
        opt_view(r) == grandparent_of(path@),
{
    match parent_path(path) {
        Some(p) => parent_path(p.as_str()),
        None => None,
    }
}

/// The candidates of a development checkout built in `build_dir` and run
/// from `cwd`.
pub fn dev_candidate_paths(build_dir: &str, cwd: &str) -> (r: Vec<String>)
    ensures
        r.len() == 4,
        views(r@) == dev_candidates(build_dir@, cwd@),
{
    let first = match grandparent_path(build_dir) {
        Some(root) => join_path(root.as_str(), "backend"),
        None => build_dir.to_owned(),
    };
    let second = join_path(cwd, "backend");
    let third = backend_below(parent_path(cwd));
    let fourth = backend_below(grandparent_path(cwd));
    let mut out: Vec<String> = Vec::new();
    out.push(first);
    out.push(second);
    out.push(third);
    out.push(fourth);
    out
}

/// Resolves the backend directory of a packaged installation: the first of
/// its candidates that validates, or the first candidate where none does.
pub fn resolve_release_backend_path(resource_dir: &str) -> (r: Resolution)
    ensures
        r.verdicts.len() <= 3,
        r.verdicts@.len() == probes_needed(r.verdicts@),
        first_valid(r.verdicts@) == r.verdicts.len() ==> r.verdicts.len() == 3,
        r.path@ == resolved(release_candidates(resource_dir@), r.verdicts@),
{
    let candidates = release_candidate_paths(resource_dir);
    search_backend_root(&candidates)
}

/// Resolves the backend directory of a development checkout built in
/// `build_dir` and run from `cwd`: the first of its candidates that
/// validates, or the one derived from the build location where none does.
pub fn resolve_dev_backend_path(build_dir: &str, cwd: &str) -> (r: Resolution)
    ensures
        r.verdicts.len() <= 4,
        r.verdicts@.len() == probes_needed(r.verdicts@),
        first_valid(r.verdicts@) == r.verdicts.len() ==> r.verdicts.len() == 4,
        r.path@ == resolved(dev_candidates(build_dir@, cwd@), r.verdicts@),
{
    let candidates = dev_candidate_paths(build_dir, cwd);
    search_backend_root(&candidates)
}

/// The candidates of either mode.
pub open spec fn candidates_for(
    development: bool,
    build_dir: Seq<char>,
    cwd: Seq<char>,
    resource_dir: Seq<char>,
) -> Seq<Seq<char>> {
    if development {
        dev_candidates(build_dir, cwd)
    } else {
        release_candidates(resource_dir)
    }
}

/// Resolves the backend directory: in development from the build location
/// and the working directory, in production from the resource directory.
pub fn resolve_backend_path(
    development: bool,
    build_dir: &str,
    cwd: &str,
    resource_dir: &str,
) -> (r: Resolution)
    ensures
        r.verdicts@.len() == probes_needed(r.verdicts@),
        r.verdicts.len() <= candidates_for(development, build_dir@, cwd@, resource_dir@).len(),
        first_valid(r.verdicts@) == r.verdicts.len() ==> r.verdicts.len() == candidates_for(
            development,
            build_dir@,
            cwd@,
            resource_dir@,
        ).len(),
        r.path@ == resolved(
            candidates_for(development, build_dir@, cwd@, resource_dir@),
            r.verdicts@,
        ),
{
    if development {
        resolve_dev_backend_path(build_dir, cwd)
    } else {
        resolve_release_backend_path(resource_dir)
    }
}

/// Whether `path` exists and whether it holds the backend entry point, as
/// the file system answers right now. A path that does not exist is not
/// asked for its entry point.
pub fn inspect_backend_path(path: &str) -> (r: (bool, bool))
    ensures
        !r.0 ==> !r.1,
{
    if !path_exists(path) {
        (false, false)
    } else {
        (true, is_backend_root(path))
    }
}

} // verus!
