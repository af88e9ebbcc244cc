use kanban_orchestrator::domain::WorkItemId;
use kanban_orchestrator::workspace::{GitError, PathAccess, WorkspaceError};

fn filesystem_and_policy_errors() -> (WorkspaceError, WorkspaceError) {
    (
        WorkspaceError::FileSystem(std::io::Error::other("disk unavailable")),
        WorkspaceError::BaseRepositoryMutationDenied {
            path: "/project/README.md".to_owned(),
        },
    )
}

fn every_policy_error() -> Vec<WorkspaceError> {
    vec![
        WorkspaceError::Git(GitError::MalformedWorktreeList),
        WorkspaceError::ProjectRepositoryMustBeRoot {
            declared_path: "/project/nested".to_owned(),
            detected_path: "/project".to_owned(),
        },
        WorkspaceError::WorkspaceRootOverlapsRepository {
            repository_path: "/project".to_owned(),
            workspace_path: "/project/workspaces".to_owned(),
        },
        WorkspaceError::UnsafeWorkItemId {
            work_item_id: WorkItemId::from("../escape"),
        },
        WorkspaceError::WorkspacePathAssignedToDifferentBranch {
            path: "/workspaces/task-1".to_owned(),
            existing_branch: "feature/other".to_owned(),
            requested_branch: "kanban/task-1".to_owned(),
        },
        WorkspaceError::BranchAlreadyAssigned {
            branch_name: "kanban/task-1".to_owned(),
            path: "/workspaces/other".to_owned(),
        },
        WorkspaceError::WorkspacePathOccupied {
            path: "/workspaces/task-1".to_owned(),
        },
        WorkspaceError::RecoveryBranchDiverged {
            branch_name: "kanban/task-1".to_owned(),
            base_ref: "main".to_owned(),
        },
        WorkspaceError::ExecutionWorkItemMismatch {
            execution_work_item_id: WorkItemId::from("task-2"),
            assignment_work_item_id: WorkItemId::from("task-1"),
        },
        WorkspaceError::ExecutionWorkspaceMismatch {
            execution_path: "/project".to_owned(),
            assignment_path: "/workspaces/task-1".to_owned(),
        },
        WorkspaceError::WorktreeIdentityMismatch {
            expected_path: "/workspaces/task-1".to_owned(),
            actual_path: "/workspaces/task-1".to_owned(),
            expected_branch: "kanban/task-1".to_owned(),
            actual_branch: "alternate".to_owned(),
        },
        WorkspaceError::WorkspaceAssignmentOutsideManagedRoot {
            assignment_path: "/outside/task-1".to_owned(),
            workspace_root: "/workspaces".to_owned(),
        },
        WorkspaceError::BaseRepositoryMutationDenied {
            path: "/project/README.md".to_owned(),
        },
        WorkspaceError::UndeclaredPathAccessDenied {
            path: "/outside".to_owned(),
            access: PathAccess::Read,
        },
    ]
}

#[test]
fn tests_reports_workspace_errors_with_sources_only_for_wrapped_failures() {
    let (filesystem_error, policy_error) = filesystem_and_policy_errors();

    assert_eq!(
        policy_error.to_string(),
        "writing the base repository path /project/README.md is denied"
    );
    assert!(filesystem_error.source().is_some());
    assert!(policy_error.source().is_none());
}

#[test]
fn error_tests_reports_workspace_errors_with_sources_only_for_wrapped_failures() {
    let (filesystem_error, policy_error) = filesystem_and_policy_errors();

    assert_eq!(
        policy_error.to_string(),
        "writing the base repository path /project/README.md is denied"
    );
    assert!(filesystem_error.source().is_some());
    assert!(policy_error.source().is_none());
}

#[test]
fn tests_formats_every_workspace_policy_error_for_an_actionable_user_response() {
    for error in every_policy_error() {
        assert!(!error.to_string().is_empty());
    }
    assert!(WorkspaceError::Git(GitError::MalformedWorktreeList)
        .source()
        .is_some());
    assert_eq!(PathAccess::Read.to_string(), "read");
    assert_eq!(PathAccess::Write.to_string(), "write");
}

#[test]
fn error_tests_formats_every_workspace_policy_error_for_an_actionable_user_response() {
    for error in every_policy_error() {
        assert!(!error.to_string().is_empty());
    }
    assert!(WorkspaceError::Git(GitError::MalformedWorktreeList)
        .source()
        .is_some());
    assert_eq!(PathAccess::Read.to_string(), "read");
    assert_eq!(PathAccess::Write.to_string(), "write");
}

#[test]
fn spells_out_each_workspace_refusal() {
    let messages: Vec<String> = every_policy_error()
        .iter()
        .map(|error| error.to_string())
        .collect();
    assert_eq!(
        messages,
        vec![
            "workspace Git error: Git returned an invalid worktree list",
            "declared project path /project/nested must be the repository root /project, not a subdirectory",
            "workspace root /project/workspaces must not overlap project repository /project",
            "work item id ../escape is not safe for a workspace directory",
            "workspace path /workspaces/task-1 already belongs to branch feature/other; expected kanban/task-1",
            "task branch kanban/task-1 is already assigned to workspace /workspaces/other",
            "workspace path /workspaces/task-1 is occupied and cannot be recovered safely",
            "recovery branch kanban/task-1 no longer matches declared base ref main",
            "execution work item task-2 does not match workspace work item task-1",
            "execution workspace /project does not match assigned workspace /workspaces/task-1",
            "worktree identity mismatch: expected kanban/task-1 on /workspaces/task-1, found alternate on /workspaces/task-1",
            "workspace assignment /outside/task-1 is outside this manager's declared root /workspaces",
            "writing the base repository path /project/README.md is denied",
            "read access to undeclared path /outside is denied",
        ]
    );
}

#[test]
fn spells_out_clone_refusals() {
    assert_eq!(
        WorkspaceError::InvalidGitHubRepositoryUrl.to_string(),
        "enter a GitHub repository URL such as https://github.com/owner/repository"
    );
    assert_eq!(
        WorkspaceError::CloneDestinationMustBeDirectory {
            path: "/tmp/file".to_owned()
        }
        .to_string(),
        "choose an existing folder for the clone destination, not /tmp/file"
    );
    assert_eq!(
        WorkspaceError::CloneDestinationOccupied {
            path: "/tmp/reliable-app".to_owned()
        }
        .to_string(),
        "/tmp/reliable-app already exists; choose another destination folder or rename the repository first"
    );
    assert_eq!(
        WorkspaceError::GitHubCloneFailed.to_string(),
        "Kanban could not clone that repository. Check the URL and your existing Git access, then try again."
    );
}

#[test]
fn git_failures_name_the_operation_and_exit_code() {
    let failed = GitError::CommandFailed {
        operation: "create the task worktree",
        exit_code: Some(2),
        stderr: "invalid reference".to_owned(),
    };
    assert_eq!(
        failed.to_string(),
        "Git could not create the task worktree (exit code 2): invalid reference"
    );
    assert!(failed.source().is_none());
    let negative = GitError::CommandFailed {
        operation: "list registered worktrees",
        exit_code: Some(-9),
        stderr: String::new(),
    };
    assert_eq!(
        negative.to_string(),
        "Git could not list registered worktrees (exit code -9): "
    );
    let killed = GitError::CommandFailed {
        operation: "list registered worktrees",
        exit_code: None,
        stderr: "killed".to_owned(),
    };
    assert_eq!(
        killed.to_string(),
        "Git could not list registered worktrees (exit code unknown): killed"
    );
    assert_eq!(
        GitError::NonUtf8Output {
            operation: "inspect the project repository"
        }
        .to_string(),
        "Git returned non-UTF-8 output while trying to inspect the project repository"
    );
    let unavailable = GitError::CommandIo(std::io::Error::other("Git executable unavailable"));
    assert!(unavailable.source().is_some());
    assert!(unavailable.to_string().starts_with("could not start Git: "));
    assert!(unavailable.to_string().contains("Git executable unavailable"));
    let wrapped = WorkspaceError::Git(unavailable);
    assert!(wrapped.to_string().starts_with("workspace Git error: could not start Git: "));
}

#[test]
fn filesystem_failures_keep_the_operating_system_message() {
    let (filesystem_error, _) = filesystem_and_policy_errors();
    assert_eq!(
        filesystem_error.to_string(),
        "workspace filesystem error: disk unavailable"
    );
}
