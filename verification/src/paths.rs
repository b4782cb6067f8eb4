//! Paths below the project root, and the choice of the interpreter.
//!
//! Paths are plain strings here. The shell turns them into filesystem paths
//! and reports back which of them exist.

use vstd::prelude::*;

verus! {

/// The family of operating system whose path conventions apply.
#[derive(Clone, Copy, Debug, PartialEq, Eq, Structural)]
pub enum Platform {
    Windows,
    Unix,
}

/// The separator that is put between two parts of a path.
pub open spec fn separator(platform: Platform) -> char {
    match platform {
        Platform::Windows => '\\',
        Platform::Unix => '/',
    }
}

/// Whether `c` separates parts of a path on `platform`.
pub open spec fn is_separator(platform: Platform, c: char) -> bool {
    c == '/' || (platform == Platform::Windows && c == '\\')
}

/// `base` followed by `relative`, with one separator put between them unless
/// `base` is empty or already ends in one.
pub open spec fn join_spec(platform: Platform, base: Seq<char>, relative: Seq<char>) -> Seq<char> {
    if base.len() == 0 || is_separator(platform, base.last()) {
        base + relative
    } else {
        base.push(separator(platform)) + relative
    }
}

/// The directory in which the worker, its script and its manifest live: one
/// level above the project root.
pub open spec fn worker_directory_spec(platform: Platform, project_root: Seq<char>) -> Seq<char> {
    join_spec(platform, project_root, ".."@)
}

/// The worker's entry script, before it is made canonical.
pub open spec fn worker_script_spec(platform: Platform, project_root: Seq<char>) -> Seq<char> {
    join_spec(platform, project_root, "../api_server.py"@)
}

/// The dependency manifest.
pub open spec fn manifest_spec(platform: Platform, project_root: Seq<char>) -> Seq<char> {
    join_spec(platform, project_root, "../requirements.txt"@)
}

/// The number of places in which an interpreter is looked for.
pub const CANDIDATES: usize = 2;

/// Where a virtual environment keeps its interpreter, relative to the project
/// root, in order of preference: the hidden environment first.
pub open spec fn candidate_layout(platform: Platform, index: int) -> Seq<char> {
    match platform {
        Platform::Windows => if index == 0 {
            "..\\.venv\\Scripts\\python.exe"@
        } else {
            "..\\venv\\Scripts\\python.exe"@
        },
        Platform::Unix => if index == 0 {
            "../.venv/bin/python"@
        } else {
            "../venv/bin/python"@
        },
    }
}

/// The `index`-th place in which an interpreter is looked for.
pub open spec fn candidate(platform: Platform, project_root: Seq<char>, index: int) -> Seq<char> {
    join_spec(platform, project_root, candidate_layout(platform, index))
}

/// The command that stands in when no candidate exists. It is left to the
/// search path to find it when a process is spawned.
pub open spec fn fallback_command() -> Seq<char> {
    "python"@
}

/// Whether `index` is the first candidate that `present` reports as existing.
/// A candidate for which `present` has no entry counts as absent.
pub open spec fn is_first_present(present: Seq<bool>, index: int) -> bool {
    &&& 0 <= index < CANDIDATES
    &&& index < present.len()
    &&& present[index]
    &&& forall|earlier: int| 0 <= earlier < index ==> !#[trigger] present[earlier]
}

/// Whether `present` reports no candidate as existing.
pub open spec fn none_present(present: Seq<bool>) -> bool {
    forall|index: int|
        0 <= index < CANDIDATES && index < present.len() ==> !#[trigger] present[index]
}

/// Joins `relative` onto `base` the way `platform` writes paths.
///
/// `relative` is taken as it is: it is not checked for being relative, and a
/// base that is only a drive letter gets its separator like any other.
pub fn join_path(platform: Platform, base: &str, relative: &str) -> (joined: String)
    ensures
        joined@ == join_spec(platform, base@, relative@),
{
    let length: usize = base.unicode_len();
    let mut joined = String::from_str(base);
    if length > 0 {
        let last: char = base.get_char(length - 1);
        let closed = last == '/' || (platform == Platform::Windows && last == '\\');
        if !closed {
            match platform {
                Platform::Windows => {
                    proof {
                        reveal_strlit("\\");
                    }
                    joined.append("\\");
                    assert(joined@ =~= base@.push('\\'));
                },
                Platform::Unix => {
                    proof {
                        reveal_strlit("/");
                    }
                    joined.append("/");
                    assert(joined@ =~= base@.push('/'));
                },
            }
        }
    }
    joined.append(relative);
    joined
}

/// The directory in which the worker runs.
pub fn worker_directory(project_root: &str, platform: Platform) -> (path: String)
    ensures
        path@ == worker_directory_spec(platform, project_root@),
{
    join_path(platform, project_root, "..")
}

/// The path of the worker's entry script, to be made canonical by the shell.
pub fn worker_script(project_root: &str, platform: Platform) -> (path: String)
    ensures
        path@ == worker_script_spec(platform, project_root@),
{
    join_path(platform, project_root, "../api_server.py")
}

/// The path of the dependency manifest.
pub fn requirements_path(project_root: &str, platform: Platform) -> (path: String)
    ensures
        path@ == manifest_spec(platform, project_root@),
{
    join_path(platform, project_root, "../requirements.txt")
}

/// The places in which an interpreter is looked for, in order of preference.
pub fn interpreter_candidates(project_root: &str, platform: Platform) -> (candidates: Vec<String>)
    ensures
        candidates@.len() == CANDIDATES,
        forall|index: int|
            0 <= index < CANDIDATES ==> (#[trigger] candidates@[index])@ == candidate(
                platform,
                project_root@,
                index,
            ),
{
    let (hidden, plain) = match platform {
        Platform::Windows => ("..\\.venv\\Scripts\\python.exe", "..\\venv\\Scripts\\python.exe"),
        Platform::Unix => ("../.venv/bin/python", "../venv/bin/python"),
    };
    let mut candidates: Vec<String> = Vec::new();
    candidates.push(join_path(platform, project_root, hidden));
    candidates.push(join_path(platform, project_root, plain));
    candidates
}

/// The candidates are never empty, whatever the project root.
pub proof fn candidates_are_not_empty(platform: Platform, project_root: Seq<char>, index: int)
    ensures
        candidate(platform, project_root, index).len() > 0,
        fallback_command().len() > 0,
{
    reveal_strlit("..\\.venv\\Scripts\\python.exe");
    reveal_strlit("..\\venv\\Scripts\\python.exe");
    reveal_strlit("../.venv/bin/python");
    reveal_strlit("../venv/bin/python");
    reveal_strlit("python");
}

/// Chooses the interpreter.
///
/// `present[i]` tells whether the `i`-th candidate exists on disk; a
/// candidate without an entry counts as absent. The result is the first
/// candidate that exists, or the fallback command if none does. It is never
/// empty.
pub fn resolve_python_path(
    project_root: &str,
    platform: Platform,
    present: &Vec<bool>,
) -> (path: String)
    ensures
        none_present(present@) ==> path@ == fallback_command(),
        !none_present(present@) ==> exists|index: int|
            #[trigger] is_first_present(present@, index) && path@ == candidate(
                platform,
                project_root@,
                index,
            ),
        path@.len() > 0,
{
    let mut candidates = interpreter_candidates(project_root, platform);
    let mut index: usize = 0;
    while index < CANDIDATES && index < present.len()
        invariant
            index <= CANDIDATES,
            candidates@.len() == CANDIDATES,
            forall|i: int|
                0 <= i < CANDIDATES ==> (#[trigger] candidates@[i])@ == candidate(
                    platform,
                    project_root@,
                    i,
                ),
            forall|earlier: int| 0 <= earlier < index ==> !#[trigger] present@[earlier],
        decreases CANDIDATES - index,
    {
        if present[index] {
            let path = candidates.swap_remove(index);
            proof {
                candidates_are_not_empty(platform, project_root@, index as int);
                assert(is_first_present(present@, index as int));
            }
            return path;
        }
        index += 1;
    }
    proof {
        candidates_are_not_empty(platform, project_root@, 0);
    }
    String::from_str("python")
}

} // verus!
