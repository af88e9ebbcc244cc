use kanban_orchestrator::domain::WorkItemId;
use kanban_orchestrator::workspace::clone_url::{
    clone_github_repository, github_repository_directory_name, GitHubRepositoryCloneRequest,
    RepositorySetup,
};
use kanban_orchestrator::workspace::git_cli::GitOutput;
use kanban_orchestrator::workspace::requests::{
    EntryKind, WorkspaceReplies, WorkspaceRequest, WorkspaceStep,
};
use kanban_orchestrator::workspace::names::{is_reserved_windows_directory_name, workspace_name};
use kanban_orchestrator::workspace::paths::{
    join, normalized_absolute_path, paths_equal, resolved_path_for_creation, starts_with_path,
    CanonicalForm, CreationResolution,
};
use kanban_orchestrator::workspace::WorkspaceError;

#[test]
fn mod_reserves_windows_device_names_even_when_running_on_another_platform() {
    assert!(is_reserved_windows_directory_name("con"));
    assert!(is_reserved_windows_directory_name("LPT9"));
    assert!(!is_reserved_windows_directory_name("task-1"));
}

#[test]
fn path_reserves_windows_device_names_even_when_running_on_another_platform() {
    assert!(is_reserved_windows_directory_name("con"));
    assert!(is_reserved_windows_directory_name("LPT9"));
    assert!(!is_reserved_windows_directory_name("task-1"));
}

#[test]
fn reserves_every_device_name_in_any_case() {
    for name in ["CON", "prn", "Aux", "nul", "COM1", "com9", "lpt1"] {
        assert!(is_reserved_windows_directory_name(name), "{name}");
    }
    for name in ["COM0", "LPT", "CONSOLE", "COM10", "", "nul.txt"] {
        assert!(!is_reserved_windows_directory_name(name), "{name}");
    }
}

#[test]
fn accepts_supported_github_https_and_ssh_urls() {
    for url in [
        "https://github.com/acme/reliable-app.git",
        "ssh://git@github.com/acme/reliable-app",
        "git@github.com:acme/reliable-app.git",
    ] {
        assert_eq!(
            github_repository_directory_name(url).expect("URL should be accepted"),
            "reliable-app"
        );
    }
}

#[test]
fn rejects_non_github_or_unsafe_clone_urls() {
    for url in [
        "https://example.test/acme/reliable-app",
        "https://token@github.com/acme/reliable-app",
        "https://github.com/acme/../reliable-app",
        "https://github.com/CON/reliable-app",
        "https://github.com/acme/reliable-app/extra",
        "https://github.com/acme/reliable-app?token=secret",
        "https://github.com/acme/CON",
    ] {
        assert!(matches!(
            github_repository_directory_name(url),
            Err(WorkspaceError::InvalidGitHubRepositoryUrl)
        ));
    }
}

#[test]
fn accepts_trailing_slashes_and_surrounding_space_in_clone_urls() {
    assert_eq!(
        github_repository_directory_name("  https://github.com/acme/app.v2//  ")
            .expect("URL should be accepted"),
        "app.v2"
    );
    assert!(github_repository_directory_name("https://github.com/").is_err());
    assert!(github_repository_directory_name("https://github.com/acme/app#readme").is_err());
    assert!(github_repository_directory_name("https://github.com/acme/.git").is_err());
}

/// Runs a clone against scripted surroundings: the parent's kind, what is at the destination,
/// and how the clone ends.
fn clone_with(
    url: &str,
    parent_is_directory: bool,
    destination: EntryKind,
    clone: Option<GitOutput>,
) -> (Result<RepositorySetup, WorkspaceError>, Vec<String>) {
    clone_leaving(url, parent_is_directory, destination, clone, EntryKind::Directory)
}

/// As `clone_with`, where a failed clone leaves `left` at the destination.
fn clone_leaving(
    url: &str,
    parent_is_directory: bool,
    destination: EntryKind,
    clone: Option<GitOutput>,
    left: EntryKind,
) -> (Result<RepositorySetup, WorkspaceError>, Vec<String>) {
    clone_inspected(url, parent_is_directory, destination, clone, left, &cloned_with_main())
}

/// Git's answers inside a clone whose remote's default branch is `origin/main`.
fn cloned_with_main() -> Vec<GitOutput> {
    vec![
        git_text("origin\n"),
        git_text("origin/main\n"),
        git_text("c0ffee\n"),
    ]
}

/// Git's answers inside a clone of an empty repository: no branch exists anywhere.
fn cloned_empty() -> Vec<GitOutput> {
    let absent = GitOutput {
        exit_code: Some(1),
        stdout: Some(String::new()),
        stderr: String::new(),
    };
    let mut answers = vec![git_text("origin\n")];
    answers.extend(std::iter::repeat(absent).take(7));
    answers.push(GitOutput {
        exit_code: Some(128),
        stdout: Some(String::new()),
        stderr: "fatal: ambiguous argument 'HEAD'".to_owned(),
    });
    answers
}

fn git_text(text: &str) -> GitOutput {
    GitOutput {
        exit_code: Some(0),
        stdout: Some(text.to_owned()),
        stderr: String::new(),
    }
}

/// As `clone_leaving`, where Git answers the inspection of the clone with `inspection`, in order.
fn clone_inspected(
    url: &str,
    parent_is_directory: bool,
    destination: EntryKind,
    clone: Option<GitOutput>,
    left: EntryKind,
    inspection: &[GitOutput],
) -> (Result<RepositorySetup, WorkspaceError>, Vec<String>) {
    let request = GitHubRepositoryCloneRequest {
        repository_url: url.to_owned(),
        destination_parent_path: "/home/user/code/".to_owned(),
    };
    let mut replies = WorkspaceReplies::default();
    let mut requests = Vec::new();
    loop {
        match clone_github_repository(&request, &replies) {
            WorkspaceStep::Done(result) => return (result, requests),
            WorkspaceStep::Ask(asked) => {
                requests.push(format!("{asked:?}"));
                match asked {
                    WorkspaceRequest::ResolveExistingPath { path } => {
                        replies.paths.push(path.trim_end_matches('/').to_owned())
                    }
                    WorkspaceRequest::IsDirectory { .. } => replies.flags.push(parent_is_directory),
                    WorkspaceRequest::InspectEntry { .. } => replies.entries.push(destination),
                    WorkspaceRequest::TryGit { arguments, .. } => {
                        assert_eq!(arguments[..3], ["clone", "--no-recurse-submodules", "--"]);
                        replies.trials.push(clone.clone());
                    }
                    WorkspaceRequest::Git { directory, .. } => {
                        assert!(directory.starts_with("/home/user/code/"));
                        let answer = inspection[replies.git.len()].clone();
                        replies.git.push(answer);
                    }
                    WorkspaceRequest::TryInspectEntry { .. } => {
                        replies.trial_entries.push(Some(left))
                    }
                    WorkspaceRequest::TryRemoveDirectoryTree { .. } => replies.performed += 1,
                    other => panic!("unexpected request {other:?}"),
                }
            }
        }
    }
}

fn succeeded() -> Option<GitOutput> {
    Some(GitOutput {
        exit_code: Some(0),
        stdout: Some(String::new()),
        stderr: String::new(),
    })
}

#[test]
fn clones_below_the_chosen_parent() {
    let (result, requests) = clone_with(
        " https://github.com/acme/reliable-app.git ",
        true,
        EntryKind::Missing,
        succeeded(),
    );
    assert_eq!(
        result.expect("clone should succeed"),
        RepositorySetup {
            repository_path: "/home/user/code/reliable-app".to_owned(),
            name: "reliable-app".to_owned(),
            base_branch: "origin/main".to_owned(),
        }
    );
    assert!(requests
        .iter()
        .any(|r| r.contains("https://github.com/acme/reliable-app.git\", \"/home/user/code/reliable-app")));
}

#[test]
fn rejects_an_existing_clone_target_without_touching_it() {
    for existing in [EntryKind::Directory, EntryKind::Other] {
        let (result, requests) = clone_with(
            "https://github.com/acme/reliable-app",
            true,
            existing,
            succeeded(),
        );
        assert!(matches!(
            result,
            Err(WorkspaceError::CloneDestinationOccupied { .. })
        ));
        assert!(!requests
            .iter()
            .any(|r| r.starts_with("TryGit") || r.starts_with("TryRemoveDirectoryTree")));
    }
}

#[test]
fn rejects_a_file_as_a_clone_destination_before_running_git() {
    let (result, requests) = clone_with(
        "https://github.com/acme/reliable-app",
        false,
        EntryKind::Missing,
        succeeded(),
    );
    assert!(matches!(
        result,
        Err(WorkspaceError::CloneDestinationMustBeDirectory { .. })
    ));
    assert!(!requests.iter().any(|r| r.starts_with("TryGit")));
}

#[test]
fn refuses_a_clone_from_outside_github_before_any_request() {
    let (result, requests) =
        clone_with("https://gitlab.com/acme/tool", true, EntryKind::Missing, succeeded());
    assert!(matches!(result, Err(WorkspaceError::InvalidGitHubRepositoryUrl)));
    assert!(requests.is_empty());
}

#[test]
fn clone_failure_does_not_create_a_target() {
    let failed = Some(GitOutput {
        exit_code: Some(128),
        stdout: Some(String::new()),
        stderr: "fatal: repository not found".to_owned(),
    });
    for outcome in [failed, None] {
        let (result, requests) = clone_with(
            "https://github.com/acme/missing-repository",
            true,
            EntryKind::Missing,
            outcome,
        );
        assert!(matches!(result, Err(WorkspaceError::GitHubCloneFailed)));
        assert!(requests
            .last()
            .expect("a removal")
            .starts_with("TryRemoveDirectoryTree"));
    }
}

#[test]
fn removes_an_invalid_clone_after_git_succeeds() {
    let (result, requests) = clone_inspected(
        "https://github.com/acme/empty-source",
        true,
        EntryKind::Missing,
        succeeded(),
        EntryKind::Directory,
        &cloned_empty(),
    );
    assert!(matches!(result, Err(WorkspaceError::GitHubCloneFailed)));
    assert!(requests.iter().any(|r| r.starts_with("Git {")));
    assert!(requests
        .last()
        .expect("a removal")
        .starts_with("TryRemoveDirectoryTree"));
}

#[test]
fn removes_only_an_ordinary_partial_clone_directory() {
    let failed = Some(GitOutput {
        exit_code: Some(128),
        stdout: Some(String::new()),
        stderr: "fatal: early EOF".to_owned(),
    });
    let (result, requests) = clone_leaving(
        "https://github.com/acme/partial-clone",
        true,
        EntryKind::Missing,
        failed.clone(),
        EntryKind::Directory,
    );
    assert!(matches!(result, Err(WorkspaceError::GitHubCloneFailed)));
    assert!(requests.iter().any(|r| r.starts_with("TryRemoveDirectoryTree")));
    for left in [EntryKind::Other, EntryKind::Missing] {
        let (result, requests) = clone_leaving(
            "https://github.com/acme/partial-clone",
            true,
            EntryKind::Missing,
            failed.clone(),
            left,
        );
        assert!(matches!(result, Err(WorkspaceError::GitHubCloneFailed)));
        assert!(!requests.iter().any(|r| r.starts_with("TryRemoveDirectoryTree")));
    }
}

#[test]
fn names_workspaces_only_after_safe_work_item_ids() {
    assert_eq!(
        workspace_name(&WorkItemId::from("task_1-A")).expect("safe id"),
        "task_1-A"
    );
    for id in ["../escape", "CON", "", "a/b", "a.b", "task 1"] {
        match workspace_name(&WorkItemId::from(id)) {
            Err(WorkspaceError::UnsafeWorkItemId { work_item_id }) => {
                assert_eq!(work_item_id, WorkItemId::from(id));
            }
            other => panic!("{id} should be refused, got {other:?}"),
        }
    }
}

#[test]
fn compares_paths_component_by_component() {
    assert!(starts_with_path("/workspaces/task-1/src", "/workspaces/task-1"));
    assert!(starts_with_path("/workspaces/task-1", "/workspaces/task-1/"));
    assert!(!starts_with_path("/workspaces/task-10", "/workspaces/task-1"));
    assert!(!starts_with_path("workspaces/task-1", "/workspaces"));
    assert!(paths_equal("/a//b/./c", "/a/b/c"));
    assert!(!paths_equal("/a/b", "/a/b/c"));
    assert_eq!(join("/a", "b"), "/a/b");
    assert_eq!(join("/a/", "b"), "/a/b");
}

#[test]
fn mod_normalizes_relative_paths_before_applying_workspace_boundaries() {
    assert_eq!(
        normalized_absolute_path("workspace/../workspace", "/home/user"),
        "/home/user/workspace"
    );
}

#[test]
fn path_normalizes_relative_paths_before_applying_workspace_boundaries() {
    assert_eq!(
        normalized_absolute_path("workspace/../workspace", "/srv/checkout"),
        "/srv/checkout/workspace"
    );
}

#[test]
fn normalizes_relative_paths_against_the_current_directory() {
    assert_eq!(
        normalized_absolute_path("workspace/../workspace", "/home/user"),
        "/home/user/workspace"
    );
    assert_eq!(normalized_absolute_path("/a/./b/../c", "/ignored"), "/a/c");
    assert_eq!(normalized_absolute_path("/../..", "/"), "/");
}

/// Resolves a path for creation against the real file system.
fn resolve_on_this_machine(path: &str) -> Option<String> {
    let mut found = Vec::new();
    let current_dir = Some("/".to_owned());
    loop {
        match resolved_path_for_creation(path, &current_dir, &found) {
            CreationResolution::AskCanonical(candidate) => {
                match std::path::Path::new(&candidate).canonicalize() {
                    Ok(existing) => found.push(CanonicalForm::Existing(
                        existing.to_str().expect("UTF-8 path").to_owned(),
                    )),
                    Err(error) if error.kind() == std::io::ErrorKind::NotFound => {
                        found.push(CanonicalForm::Missing)
                    }
                    Err(_) => found.push(CanonicalForm::Unreadable),
                }
            }
            CreationResolution::Resolved(resolved) => return Some(resolved),
            CreationResolution::Failed | CreationResolution::NoExistingParent => return None,
            CreationResolution::AskCurrentDirectory => unreachable!(),
        }
    }
}

#[test]
fn mod_preserves_non_absence_filesystem_errors_during_path_resolution() {
    assert!(resolve_on_this_machine("/dev/null/child").is_none());
}

#[test]
fn path_preserves_non_absence_filesystem_errors_during_path_resolution() {
    assert!(resolve_on_this_machine("/dev/null/child").is_none());
}

#[test]
fn resolves_a_missing_path_below_its_longest_existing_prefix() {
    let path = "workspace/../workspace/new/file.txt";
    assert_eq!(
        resolved_path_for_creation(path, &None, &Vec::new()),
        CreationResolution::AskCurrentDirectory
    );
    let cwd = Some("/home/user".to_owned());
    assert_eq!(
        resolved_path_for_creation(path, &cwd, &Vec::new()),
        CreationResolution::AskCanonical("/home/user/workspace/new/file.txt".to_owned())
    );
    assert_eq!(
        resolved_path_for_creation(path, &cwd, &vec![CanonicalForm::Missing, CanonicalForm::Missing]),
        CreationResolution::AskCanonical("/home/user/workspace".to_owned())
    );
    assert_eq!(
        resolved_path_for_creation(
            path,
            &cwd,
            &vec![
                CanonicalForm::Missing,
                CanonicalForm::Missing,
                CanonicalForm::Existing("/data/ws".to_owned())
            ]
        ),
        CreationResolution::Resolved("/data/ws/new/file.txt".to_owned())
    );
    assert_eq!(
        resolved_path_for_creation(path, &cwd, &vec![CanonicalForm::Unreadable]),
        CreationResolution::Failed
    );
    assert_eq!(
        resolved_path_for_creation("/a", &None, &vec![CanonicalForm::Missing, CanonicalForm::Missing]),
        CreationResolution::NoExistingParent
    );
    assert_eq!(
        resolved_path_for_creation("/", &None, &vec![CanonicalForm::Existing("/".to_owned())]),
        CreationResolution::Resolved("/".to_owned())
    );
    assert_eq!(
        resolve_on_this_machine("/tmp/../tmp/surely-missing-directory/file").as_deref(),
        std::path::Path::new("/tmp")
            .canonicalize()
            .ok()
            .map(|tmp| format!("{}/surely-missing-directory/file", tmp.display()))
            .as_deref()
    );
}
