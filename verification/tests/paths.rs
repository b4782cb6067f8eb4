use worker_supervisor::paths::{
    interpreter_candidates, join_path, requirements_path, resolve_python_path, worker_directory,
    worker_script, Platform, CANDIDATES,
};

#[test]
fn join_puts_one_separator_between_the_parts() {
    assert_eq!(join_path(Platform::Unix, "/srv/app", "x/y"), "/srv/app/x/y");
    assert_eq!(join_path(Platform::Windows, "C:\\app", "x\\y"), "C:\\app\\x\\y");
}

#[test]
fn join_adds_no_separator_after_one() {
    assert_eq!(join_path(Platform::Unix, "/srv/app/", "x"), "/srv/app/x");
    assert_eq!(join_path(Platform::Unix, "/", "x"), "/x");
    assert_eq!(join_path(Platform::Windows, "C:\\app\\", "x"), "C:\\app\\x");
    assert_eq!(join_path(Platform::Windows, "C:/app/", "x"), "C:/app/x");
}

#[test]
fn join_treats_a_backslash_as_a_name_on_unix() {
    assert_eq!(join_path(Platform::Unix, "/srv/app\\", "x"), "/srv/app\\/x");
}

#[test]
fn join_onto_nothing_is_the_relative_part() {
    assert_eq!(join_path(Platform::Unix, "", "x/y"), "x/y");
    assert_eq!(join_path(Platform::Windows, "", "x"), "x");
}

#[test]
fn join_keeps_text_beyond_ascii() {
    let joined = join_path(Platform::Unix, "/home/zo\u{eb}", "\u{fc}ber");
    assert_eq!(joined, "/home/zo\u{eb}/\u{fc}ber");
    assert_eq!(join_path(Platform::Unix, "/home/zo\u{eb}/", "x"), "/home/zo\u{eb}/x");
}

#[test]
fn candidates_follow_the_unix_layout() {
    let candidates = interpreter_candidates("/srv/app/ui", Platform::Unix);
    assert_eq!(candidates.len(), CANDIDATES);
    assert_eq!(candidates[0], "/srv/app/ui/../.venv/bin/python");
    assert_eq!(candidates[1], "/srv/app/ui/../venv/bin/python");
}

#[test]
fn candidates_follow_the_windows_layout() {
    let candidates = interpreter_candidates("C:\\app\\ui", Platform::Windows);
    assert_eq!(candidates.len(), 2);
    assert_eq!(candidates[0], "C:\\app\\ui\\..\\.venv\\Scripts\\python.exe");
    assert_eq!(candidates[1], "C:\\app\\ui\\..\\venv\\Scripts\\python.exe");
}

#[test]
fn resolve_prefers_the_hidden_environment() {
    let path = resolve_python_path("/srv/app/ui", Platform::Unix, &vec![true, true]);
    assert_eq!(path, "/srv/app/ui/../.venv/bin/python");
}

#[test]
fn resolve_takes_the_second_candidate_when_the_first_is_absent() {
    let path = resolve_python_path("/srv/app/ui", Platform::Unix, &vec![false, true]);
    assert_eq!(path, "/srv/app/ui/../venv/bin/python");
    let path = resolve_python_path("C:\\app\\ui", Platform::Windows, &vec![false, true]);
    assert_eq!(path, "C:\\app\\ui\\..\\venv\\Scripts\\python.exe");
}

#[test]
fn resolve_takes_the_first_candidate_alone() {
    let path = resolve_python_path("/srv/app/ui", Platform::Unix, &vec![true]);
    assert_eq!(path, "/srv/app/ui/../.venv/bin/python");
    let path = resolve_python_path("C:\\app\\ui", Platform::Windows, &vec![true, false]);
    assert_eq!(path, "C:\\app\\ui\\..\\.venv\\Scripts\\python.exe");
}

#[test]
fn resolve_falls_back_to_the_bare_command() {
    assert_eq!(resolve_python_path("/srv/app/ui", Platform::Unix, &vec![false, false]), "python");
    let absent = vec![false, false];
    assert_eq!(resolve_python_path("C:\\app\\ui", Platform::Windows, &absent), "python");
}

#[test]
fn resolve_counts_a_candidate_without_an_entry_as_absent() {
    assert_eq!(resolve_python_path("/srv/app/ui", Platform::Unix, &vec![]), "python");
    assert_eq!(resolve_python_path("/srv/app/ui", Platform::Unix, &vec![false]), "python");
}

#[test]
fn resolve_ignores_entries_beyond_the_candidates() {
    let path = resolve_python_path("/srv/app/ui", Platform::Unix, &vec![false, false, true]);
    assert_eq!(path, "python");
}

#[test]
fn resolve_never_returns_an_empty_path() {
    for platform in [Platform::Unix, Platform::Windows] {
        for root in ["", "/", "/srv/app/ui", "C:\\"] {
            for present in [vec![], vec![true], vec![false, true], vec![false, false]] {
                assert!(!resolve_python_path(root, platform, &present).is_empty());
            }
        }
    }
}

#[test]
fn resolve_with_an_empty_root_gives_the_relative_candidate() {
    assert_eq!(resolve_python_path("", Platform::Unix, &vec![true]), "../.venv/bin/python");
}

#[test]
fn worker_files_live_one_level_above_the_root() {
    assert_eq!(worker_directory("/srv/app/ui", Platform::Unix), "/srv/app/ui/..");
    assert_eq!(worker_script("/srv/app/ui", Platform::Unix), "/srv/app/ui/../api_server.py");
    assert_eq!(requirements_path("/srv/app/ui", Platform::Unix), "/srv/app/ui/../requirements.txt");
    assert_eq!(worker_directory("C:\\app\\ui", Platform::Windows), "C:\\app\\ui\\..");
    assert_eq!(worker_script("C:\\app\\ui", Platform::Windows), "C:\\app\\ui\\../api_server.py");
    assert_eq!(
        requirements_path("C:\\app\\ui", Platform::Windows),
        "C:\\app\\ui\\../requirements.txt"
    );
}
