//! Failures of the workspace boundary, with the messages that users see.
use vstd::prelude::*;
use crate::domain::WorkItemId;
use vstd::string::to_string_from_display_ensures;
use crate::text::{decimal, push_decimal};

verus! {

/// The operating system's description of an I/O failure; its content is never inspected.
#[verifier::external_type_specification]
#[verifier::external_body]
pub struct ExIoError(std::io::Error);

/// Whether a path is read or written.
#[derive(Clone, Copy, Debug, PartialEq, Eq, Structural)]
pub enum PathAccess {
    Read,
    Write,
}

/// The name of an access kind in messages.
pub open spec fn access_name(access: PathAccess) -> Seq<char> {
    match access {
        PathAccess::Read => "read"@,
        PathAccess::Write => "write"@,
    }
}

impl PathAccess {
    /// The name of this access kind in messages.
    pub fn to_string(&self) -> (r: String)
        ensures
            r@ == access_name(*self),
    {
        let mut r = String::new();
        match self {
            PathAccess::Read => r.append("read"),
            PathAccess::Write => r.append("write"),
        }
        r
    }
}

/// A failure at the boundary to the Git command line.
#[derive(Debug)]
pub enum GitError {
    CommandIo(std::io::Error),
    CommandFailed { operation: &'static str, exit_code: Option<i32>, stderr: String },
    NonUtf8Output { operation: &'static str },
    MalformedWorktreeList,
}

/// The content of a Git failure; the operating system's description of a start failure is not
/// part of it.
pub enum GitErrorView {
    CommandIo,
    CommandFailed { operation: Seq<char>, exit_code: Option<i32>, stderr: Seq<char> },
    NonUtf8Output { operation: Seq<char> },
    MalformedWorktreeList,
}

impl View for GitError {
    type V = GitErrorView;

    open spec fn view(&self) -> GitErrorView {
        match self {
            GitError::CommandIo(_) => GitErrorView::CommandIo,
            GitError::CommandFailed { operation, exit_code, stderr } => GitErrorView::CommandFailed {
                operation: operation@,
                exit_code: *exit_code,
                stderr: stderr@,
            },
            GitError::NonUtf8Output { operation } => GitErrorView::NonUtf8Output {
                operation: operation@,
            },
            GitError::MalformedWorktreeList => GitErrorView::MalformedWorktreeList,
        }
    }
}

/// The decimal text of a signed number.
pub open spec fn signed_decimal(value: int) -> Seq<char> {
    if value < 0 {
        "-"@ + decimal((-value) as nat)
    } else {
        decimal(value as nat)
    }
}

/// The text of an exit code, `unknown` when the process ended without one.
pub open spec fn exit_code_text(exit_code: Option<i32>) -> Seq<char> {
    match exit_code {
        Some(code) => signed_decimal(code as int),
        None => "unknown"@,
    }
}

/// The message of a Git failure, when it does not quote the operating system.
pub open spec fn git_message(error: GitError) -> Option<Seq<char>> {
    match error {
        GitError::CommandIo(_) => None,
        GitError::CommandFailed { operation, exit_code, stderr } => Some(
            "Git could not "@ + operation@ + " (exit code "@ + exit_code_text(exit_code) + "): "@
                + stderr@,
        ),
        GitError::NonUtf8Output { operation } => Some(
            "Git returned non-UTF-8 output while trying to "@ + operation@,
        ),
        GitError::MalformedWorktreeList => Some("Git returned an invalid worktree list"@),
    }
}

/// Appends the decimal text of a signed number.
fn push_signed_decimal(s: &mut String, value: i32)
    ensures
        final(s)@ == old(s)@ + signed_decimal(value as int),
{
    if value < 0 {
        s.append("-");
        let magnitude = (0 - (value as i64)) as u64;
        push_decimal(s, magnitude);
    } else {
        push_decimal(s, value as u64);
    }
}

impl GitError {
    /// The message of this failure.
    pub fn to_string(&self) -> (r: String)
        ensures
            git_message(*self) matches Some(m) ==> r@ == m,
            self matches GitError::CommandIo(e) ==> exists|detail: String|
                to_string_from_display_ensures::<std::io::Error>(&e, detail) && r@
                    == "could not start Git: "@ + detail@,
    {
        let mut r = String::new();
        match self {
            GitError::CommandIo(error) => {
                r.append("could not start Git: ");
                let detail = error.to_string();
                r.append(detail.as_str());
            },
            GitError::CommandFailed { operation, exit_code, stderr } => {
                r.append("Git could not ");
                r.append(operation);
                r.append(" (exit code ");
                match exit_code {
                    Some(code) => push_signed_decimal(&mut r, *code),
                    None => r.append("unknown"),
                }
                r.append("): ");
                r.append(stderr.as_str());
            },
            GitError::NonUtf8Output { operation } => {
                r.append("Git returned non-UTF-8 output while trying to ");
                r.append(operation);
            },
            GitError::MalformedWorktreeList => {
                r.append("Git returned an invalid worktree list");
            },
        }
        r
    }

    /// The underlying failure: only an I/O failure to start Git has one.
    pub fn source(&self) -> (r: Option<&std::io::Error>)
        ensures
            r is Some <==> self is CommandIo,
            r matches Some(e) ==> *self == GitError::CommandIo(*e),
    {
        match self {
            GitError::CommandIo(error) => Some(error),
            _ => None,
        }
    }
}

/// A refusal or failure of the workspace boundary.
#[derive(Debug)]
pub enum WorkspaceError {
    FileSystem(std::io::Error),
    Git(GitError),
    ProjectRepositoryMustBeRoot { declared_path: String, detected_path: String },
    InvalidGitHubRepositoryUrl,
    CloneDestinationMustBeDirectory { path: String },
    CloneDestinationOccupied { path: String },
    GitHubCloneFailed,
    WorkspaceRootOverlapsRepository { repository_path: String, workspace_path: String },
    UnsafeWorkItemId { work_item_id: WorkItemId },
    WorkspacePathAssignedToDifferentBranch {
        path: String,
        existing_branch: String,
        requested_branch: String,
    },
    BranchAlreadyAssigned { branch_name: String, path: String },
    WorkspacePathOccupied { path: String },
    RecoveryBranchDiverged { branch_name: String, base_ref: String },
    ExecutionWorkItemMismatch {
        execution_work_item_id: WorkItemId,
        assignment_work_item_id: WorkItemId,
    },
    ExecutionWorkspaceMismatch { execution_path: String, assignment_path: String },
    WorktreeIdentityMismatch {
        expected_path: String,
        actual_path: String,
        expected_branch: String,
        actual_branch: String,
    },
    WorkspaceAssignmentOutsideManagedRoot { assignment_path: String, workspace_root: String },
    BaseRepositoryMutationDenied { path: String },
    UndeclaredPathAccessDenied { path: String, access: PathAccess },
}

/// The content of a workspace failure; the operating system's description of a file system
/// failure is not part of it.
pub enum WorkspaceErrorView {
    FileSystem,
    Git(GitErrorView),
    ProjectRepositoryMustBeRoot { declared_path: Seq<char>, detected_path: Seq<char> },
    InvalidGitHubRepositoryUrl,
    CloneDestinationMustBeDirectory { path: Seq<char> },
    CloneDestinationOccupied { path: Seq<char> },
    GitHubCloneFailed,
    WorkspaceRootOverlapsRepository { repository_path: Seq<char>, workspace_path: Seq<char> },
    UnsafeWorkItemId { work_item_id: Seq<char> },
    WorkspacePathAssignedToDifferentBranch {
        path: Seq<char>,
        existing_branch: Seq<char>,
        requested_branch: Seq<char>,
    },
    BranchAlreadyAssigned { branch_name: Seq<char>, path: Seq<char> },
    WorkspacePathOccupied { path: Seq<char> },
    RecoveryBranchDiverged { branch_name: Seq<char>, base_ref: Seq<char> },
    ExecutionWorkItemMismatch {
        execution_work_item_id: Seq<char>,
        assignment_work_item_id: Seq<char>,
    },
    ExecutionWorkspaceMismatch { execution_path: Seq<char>, assignment_path: Seq<char> },
    WorktreeIdentityMismatch {
        expected_path: Seq<char>,
        actual_path: Seq<char>,
        expected_branch: Seq<char>,
        actual_branch: Seq<char>,
    },
    WorkspaceAssignmentOutsideManagedRoot { assignment_path: Seq<char>, workspace_root: Seq<char> },
    BaseRepositoryMutationDenied { path: Seq<char> },
    UndeclaredPathAccessDenied { path: Seq<char>, access: PathAccess },
}

impl View for WorkspaceError {
    type V = WorkspaceErrorView;

    open spec fn view(&self) -> WorkspaceErrorView {
        match self {
            WorkspaceError::FileSystem(_) => WorkspaceErrorView::FileSystem,
            WorkspaceError::Git(g) => WorkspaceErrorView::Git(g@),
            WorkspaceError::ProjectRepositoryMustBeRoot { declared_path, detected_path } =>
                WorkspaceErrorView::ProjectRepositoryMustBeRoot {
                declared_path: declared_path@,
                detected_path: detected_path@,
            },
            WorkspaceError::InvalidGitHubRepositoryUrl => WorkspaceErrorView::InvalidGitHubRepositoryUrl,
            WorkspaceError::CloneDestinationMustBeDirectory { path } =>
                WorkspaceErrorView::CloneDestinationMustBeDirectory { path: path@ },
            WorkspaceError::CloneDestinationOccupied { path } =>
                WorkspaceErrorView::CloneDestinationOccupied { path: path@ },
            WorkspaceError::GitHubCloneFailed => WorkspaceErrorView::GitHubCloneFailed,
            WorkspaceError::WorkspaceRootOverlapsRepository { repository_path, workspace_path } =>
                WorkspaceErrorView::WorkspaceRootOverlapsRepository {
                repository_path: repository_path@,
                workspace_path: workspace_path@,
            },
            WorkspaceError::UnsafeWorkItemId { work_item_id } =>
                WorkspaceErrorView::UnsafeWorkItemId { work_item_id: work_item_id@ },
            WorkspaceError::WorkspacePathAssignedToDifferentBranch {
                path,
                existing_branch,
                requested_branch,
            } => WorkspaceErrorView::WorkspacePathAssignedToDifferentBranch {
                path: path@,
                existing_branch: existing_branch@,
                requested_branch: requested_branch@,
            },
            WorkspaceError::BranchAlreadyAssigned { branch_name, path } =>
                WorkspaceErrorView::BranchAlreadyAssigned { branch_name: branch_name@, path: path@ },
            WorkspaceError::WorkspacePathOccupied { path } =>
                WorkspaceErrorView::WorkspacePathOccupied { path: path@ },
            WorkspaceError::RecoveryBranchDiverged { branch_name, base_ref } =>
                WorkspaceErrorView::RecoveryBranchDiverged {
                branch_name: branch_name@,
                base_ref: base_ref@,
            },
            WorkspaceError::ExecutionWorkItemMismatch {
                execution_work_item_id,
                assignment_work_item_id,
            } => WorkspaceErrorView::ExecutionWorkItemMismatch {
                execution_work_item_id: execution_work_item_id@,
                assignment_work_item_id: assignment_work_item_id@,
            },
            WorkspaceError::ExecutionWorkspaceMismatch { execution_path, assignment_path } =>
                WorkspaceErrorView::ExecutionWorkspaceMismatch {
                execution_path: execution_path@,
                assignment_path: assignment_path@,
            },
            WorkspaceError::WorktreeIdentityMismatch {
                expected_path,
                actual_path,
                expected_branch,
                actual_branch,
            } => WorkspaceErrorView::WorktreeIdentityMismatch {
                expected_path: expected_path@,
                actual_path: actual_path@,
                expected_branch: expected_branch@,
                actual_branch: actual_branch@,
            },
            WorkspaceError::WorkspaceAssignmentOutsideManagedRoot { assignment_path, workspace_root } =>
                WorkspaceErrorView::WorkspaceAssignmentOutsideManagedRoot {
                assignment_path: assignment_path@,
                workspace_root: workspace_root@,
            },
            WorkspaceError::BaseRepositoryMutationDenied { path } =>
                WorkspaceErrorView::BaseRepositoryMutationDenied { path: path@ },
            WorkspaceError::UndeclaredPathAccessDenied { path, access } =>
                WorkspaceErrorView::UndeclaredPathAccessDenied { path: path@, access: *access },
        }
    }
}

/// The message of a workspace failure, when it does not quote the operating system.
pub open spec fn workspace_message(error: WorkspaceError) -> Option<Seq<char>> {
    match error {
        WorkspaceError::FileSystem(_) => None,
        WorkspaceError::Git(g) => match git_message(g) {
            Some(m) => Some("workspace Git error: "@ + m),
            None => None,
        },
        WorkspaceError::ProjectRepositoryMustBeRoot { declared_path, detected_path } => Some(
            "declared project path "@ + declared_path@ + " must be the repository root "@
                + detected_path@ + ", not a subdirectory"@,
        ),
        WorkspaceError::InvalidGitHubRepositoryUrl => Some(
            "enter a GitHub repository URL such as https://github.com/owner/repository"@,
        ),
        WorkspaceError::CloneDestinationMustBeDirectory { path } => Some(
            "choose an existing folder for the clone destination, not "@ + path@,
        ),
        WorkspaceError::CloneDestinationOccupied { path } => Some(
            path@
                + " already exists; choose another destination folder or rename the repository first"@,
        ),
        WorkspaceError::GitHubCloneFailed => Some(
            "Kanban could not clone that repository. Check the URL and your existing Git access, then try again."@,
        ),
        WorkspaceError::WorkspaceRootOverlapsRepository { repository_path, workspace_path } => Some(
            "workspace root "@ + workspace_path@ + " must not overlap project repository "@
                + repository_path@,
        ),
        WorkspaceError::UnsafeWorkItemId { work_item_id } => Some(
            "work item id "@ + work_item_id@ + " is not safe for a workspace directory"@,
        ),
        WorkspaceError::WorkspacePathAssignedToDifferentBranch {
            path,
            existing_branch,
            requested_branch,
        } => Some(
            "workspace path "@ + path@ + " already belongs to branch "@ + existing_branch@
                + "; expected "@ + requested_branch@,
        ),
        WorkspaceError::BranchAlreadyAssigned { branch_name, path } => Some(
            "task branch "@ + branch_name@ + " is already assigned to workspace "@ + path@,
        ),
        WorkspaceError::WorkspacePathOccupied { path } => Some(
            "workspace path "@ + path@ + " is occupied and cannot be recovered safely"@,
        ),
        WorkspaceError::RecoveryBranchDiverged { branch_name, base_ref } => Some(
            "recovery branch "@ + branch_name@ + " no longer matches declared base ref "@
                + base_ref@,
        ),
        WorkspaceError::ExecutionWorkItemMismatch {
            execution_work_item_id,
            assignment_work_item_id,
        } => Some(
            "execution work item "@ + execution_work_item_id@
                + " does not match workspace work item "@ + assignment_work_item_id@,
        ),
        WorkspaceError::ExecutionWorkspaceMismatch { execution_path, assignment_path } => Some(
            "execution workspace "@ + execution_path@ + " does not match assigned workspace "@
                + assignment_path@,
        ),
        WorkspaceError::WorktreeIdentityMismatch {
            expected_path,
            actual_path,
            expected_branch,
            actual_branch,
        } => Some(
            "worktree identity mismatch: expected "@ + expected_branch@ + " on "@
                + expected_path@ + ", found "@ + actual_branch@ + " on "@ + actual_path@,
        ),
        WorkspaceError::WorkspaceAssignmentOutsideManagedRoot { assignment_path, workspace_root } =>
            Some(
            "workspace assignment "@ + assignment_path@
                + " is outside this manager's declared root "@ + workspace_root@,
        ),
        WorkspaceError::BaseRepositoryMutationDenied { path } => Some(
            "writing the base repository path "@ + path@ + " is denied"@,
        ),
        WorkspaceError::UndeclaredPathAccessDenied { path, access } => Some(
            access_name(access) + " access to undeclared path "@ + path@ + " is denied"@,
        ),
    }
}

/// The failure beneath a workspace failure.
pub enum WorkspaceErrorSource<'a> {
    FileSystem(&'a std::io::Error),
    Git(&'a GitError),
}

impl WorkspaceError {
    /// The message of this failure for the user.
    pub fn to_string(&self) -> (r: String)
        ensures
            workspace_message(*self) matches Some(m) ==> r@ == m,
            self matches WorkspaceError::FileSystem(e) ==> exists|detail: String|
                to_string_from_display_ensures::<std::io::Error>(&e, detail) && r@
                    == "workspace filesystem error: "@ + detail@,
            self matches WorkspaceError::Git(GitError::CommandIo(e)) ==> exists|detail: String|
                to_string_from_display_ensures::<std::io::Error>(&e, detail) && r@
                    == "workspace Git error: could not start Git: "@ + detail@,
    {
        let mut r = String::new();
        match self {
            WorkspaceError::FileSystem(error) => {
                r.append("workspace filesystem error: ");
                let detail = error.to_string();
                r.append(detail.as_str());
            },
            WorkspaceError::Git(error) => {
                r.append("workspace Git error: ");
                let detail = error.to_string();
                r.append(detail.as_str());
                proof {
                    if let GitError::CommandIo(e) = error {
                        let d = choose|d: String| to_string_from_display_ensures::<std::io::Error>(&e, d)
                            && detail@ == "could not start Git: "@ + d@;
                        assert(r@ =~= "workspace Git error: could not start Git: "@ + d@) by {
                            reveal_strlit("workspace Git error: ");
                            reveal_strlit("could not start Git: ");
                            reveal_strlit("workspace Git error: could not start Git: ");
                        }
                    }
                }
            },
            WorkspaceError::ProjectRepositoryMustBeRoot { declared_path, detected_path } => {
                r.append("declared project path ");
                r.append(declared_path.as_str());
                r.append(" must be the repository root ");
                r.append(detected_path.as_str());
                r.append(", not a subdirectory");
            },
            WorkspaceError::InvalidGitHubRepositoryUrl => {
                r.append("enter a GitHub repository URL such as https://github.com/owner/repository");
            },
            WorkspaceError::CloneDestinationMustBeDirectory { path } => {
                r.append("choose an existing folder for the clone destination, not ");
                r.append(path.as_str());
            },
            WorkspaceError::CloneDestinationOccupied { path } => {
                r.append(path.as_str());
                r.append(" already exists; choose another destination folder or rename the repository first");
            },
            WorkspaceError::GitHubCloneFailed => {
                r.append("Kanban could not clone that repository. Check the URL and your existing Git access, then try again.");
            },
            WorkspaceError::WorkspaceRootOverlapsRepository { repository_path, workspace_path } => {
                r.append("workspace root ");
                r.append(workspace_path.as_str());
                r.append(" must not overlap project repository ");
                r.append(repository_path.as_str());
            },
            WorkspaceError::UnsafeWorkItemId { work_item_id } => {
                r.append("work item id ");
                r.append(work_item_id.0.as_str());
                r.append(" is not safe for a workspace directory");
            },
            WorkspaceError::WorkspacePathAssignedToDifferentBranch {
                path,
                existing_branch,
                requested_branch,
            } => {
                r.append("workspace path ");
                r.append(path.as_str());
                r.append(" already belongs to branch ");
                r.append(existing_branch.as_str());
                r.append("; expected ");
                r.append(requested_branch.as_str());
            },
            WorkspaceError::BranchAlreadyAssigned { branch_name, path } => {
                r.append("task branch ");
                r.append(branch_name.as_str());
                r.append(" is already assigned to workspace ");
                r.append(path.as_str());
            },
            WorkspaceError::WorkspacePathOccupied { path } => {
                r.append("workspace path ");
                r.append(path.as_str());
                r.append(" is occupied and cannot be recovered safely");
            },
            WorkspaceError::RecoveryBranchDiverged { branch_name, base_ref } => {
                r.append("recovery branch ");
                r.append(branch_name.as_str());
                r.append(" no longer matches declared base ref ");
                r.append(base_ref.as_str());
            },
            WorkspaceError::ExecutionWorkItemMismatch {
                execution_work_item_id,
                assignment_work_item_id,
            } => {
                r.append("execution work item ");
                r.append(execution_work_item_id.0.as_str());
                r.append(" does not match workspace work item ");
                r.append(assignment_work_item_id.0.as_str());
            },
            WorkspaceError::ExecutionWorkspaceMismatch { execution_path, assignment_path } => {
                r.append("execution workspace ");
                r.append(execution_path.as_str());
                r.append(" does not match assigned workspace ");
                r.append(assignment_path.as_str());
            },
            WorkspaceError::WorktreeIdentityMismatch {
                expected_path,
                actual_path,
                expected_branch,
                actual_branch,
            } => {
                r.append("worktree identity mismatch: expected ");
                r.append(expected_branch.as_str());
                r.append(" on ");
                r.append(expected_path.as_str());
                r.append(", found ");
                r.append(actual_branch.as_str());
                r.append(" on ");
                r.append(actual_path.as_str());
            },
            WorkspaceError::WorkspaceAssignmentOutsideManagedRoot { assignment_path, workspace_root } => {
                r.append("workspace assignment ");
                r.append(assignment_path.as_str());
                r.append(" is outside this manager's declared root ");
                r.append(workspace_root.as_str());
            },
            WorkspaceError::BaseRepositoryMutationDenied { path } => {
                r.append("writing the base repository path ");
                r.append(path.as_str());
                r.append(" is denied");
            },
            WorkspaceError::UndeclaredPathAccessDenied { path, access } => {
                let name = access.to_string();
                r.append(name.as_str());
                r.append(" access to undeclared path ");
                r.append(path.as_str());
                r.append(" is denied");
            },
        }
        r
    }

    /// The failure beneath this one: only wrapped file system and Git failures have one.
    pub fn source(&self) -> (r: Option<WorkspaceErrorSource<'_>>)
        ensures
            r is Some <==> (self is FileSystem || self is Git),
            r matches Some(WorkspaceErrorSource::FileSystem(e)) ==> *self == WorkspaceError::FileSystem(*e),
            r matches Some(WorkspaceErrorSource::Git(g)) ==> *self == WorkspaceError::Git(*g),
    {
        match self {
            WorkspaceError::FileSystem(error) => Some(WorkspaceErrorSource::FileSystem(error)),
            WorkspaceError::Git(error) => Some(WorkspaceErrorSource::Git(error)),
            _ => None,
        }
    }
}

} // verus!
