//! The workspace manager: provisions each task's worktree below a workspace root that never
//! overlaps the project repository, checks executions against their worktrees, and decides every
//! path access.
use vstd::prelude::*;
use crate::domain::{Execution, Project, WorkItemId};
use crate::text::{has_char, owned};
use super::error::{GitErrorView, PathAccess, WorkspaceError, WorkspaceErrorView};
use super::git::{
    attach_existing_branch_arguments, branch_exists_arguments, branch_name_check_arguments,
    create_worktree_arguments, git_path_argument, git_path_text, parse_worktrees,
    parsed_worktrees, reference_commit_arguments, repository_root_arguments, texts,
    worktree_branch_arguments, worktree_list_arguments, worktree_view, worktrees_view, GitWorktree,
};
use super::git_cli::{
    presence_answer, presence_reply, reference_commit_command, text_answer, text_reply,
};
use super::names::{is_safe_workspace_name, is_workspace_name_char, workspace_name};
use super::paths::{
    components, joined, join, lemma_common_descendant_overlaps,
    lemma_components_of_joined, lemma_starts_with_transitive, path_starts_with, paths_equal,
    same_path, starts_with_path,
};
use super::requests::{
    workspace_step_view, EntryKind, RepliesView, RequestView, WorkspaceReplies, WorkspaceRequest,
    WorkspaceStep, WorkspaceStepView,
};

verus! {

/// How a workspace gets its dependencies.
#[derive(Debug, PartialEq, Eq)]
pub enum DependencySharingStrategy {
    IsolatedInstall,
    ManagedSharedCache,
    ExplicitProjectApprovedLink { approval_id: String },
}

/// The content of a dependency sharing strategy.
pub enum DependencySharingView {
    IsolatedInstall,
    ManagedSharedCache,
    ExplicitProjectApprovedLink { approval_id: Seq<char> },
}

impl View for DependencySharingStrategy {
    type V = DependencySharingView;

    open spec fn view(&self) -> DependencySharingView {
        match self {
            DependencySharingStrategy::IsolatedInstall => DependencySharingView::IsolatedInstall,
            DependencySharingStrategy::ManagedSharedCache => DependencySharingView::ManagedSharedCache,
            DependencySharingStrategy::ExplicitProjectApprovedLink { approval_id } =>
                DependencySharingView::ExplicitProjectApprovedLink { approval_id: approval_id@ },
        }
    }
}

impl Clone for DependencySharingStrategy {
    fn clone(&self) -> (r: Self)
        ensures
            r@ == self@,
    {
        match self {
            DependencySharingStrategy::IsolatedInstall => DependencySharingStrategy::IsolatedInstall,
            DependencySharingStrategy::ManagedSharedCache => DependencySharingStrategy::ManagedSharedCache,
            DependencySharingStrategy::ExplicitProjectApprovedLink { approval_id } =>
                DependencySharingStrategy::ExplicitProjectApprovedLink { approval_id: approval_id.clone() },
        }
    }
}

/// A request for a work item's workspace.
#[derive(Clone, Debug, PartialEq, Eq)]
pub struct WorkspaceProvisionRequest {
    pub work_item_id: WorkItemId,
    pub dependency_sharing: DependencySharingStrategy,
}

/// The worktree that a work item works in.
#[derive(Debug, PartialEq, Eq)]
pub struct WorkspaceAssignment {
    work_item_id: WorkItemId,
    branch_name: String,
    path: String,
    dependency_sharing: DependencySharingStrategy,
}

impl Clone for WorkspaceAssignment {
    fn clone(&self) -> (r: Self)
        ensures
            r.work_item() == self.work_item(),
            r.branch() == self.branch(),
            r.location() == self.location(),
            r.sharing() == self.sharing(),
    {
        WorkspaceAssignment {
            work_item_id: self.work_item_id.clone(),
            branch_name: self.branch_name.clone(),
            path: self.path.clone(),
            dependency_sharing: self.dependency_sharing.clone(),
        }
    }
}

impl WorkspaceAssignment {
    /// The work item.
    pub closed spec fn work_item(&self) -> Seq<char> {
        self.work_item_id@
    }

    /// The task branch.
    pub closed spec fn branch(&self) -> Seq<char> {
        self.branch_name@
    }

    /// The worktree directory.
    pub closed spec fn location(&self) -> Seq<char> {
        self.path@
    }

    /// How dependencies are shared.
    pub closed spec fn sharing(&self) -> DependencySharingView {
        self.dependency_sharing@
    }

    /// The work item.
    pub fn work_item_id(&self) -> (r: &WorkItemId)
        ensures
            r@ == self.work_item(),
    {
        &self.work_item_id
    }

    /// The task branch.
    pub fn branch_name(&self) -> (r: &str)
        ensures
            r@ == self.branch(),
    {
        self.branch_name.as_str()
    }

    /// The worktree directory.
    pub fn path(&self) -> (r: &str)
        ensures
            r@ == self.location(),
    {
        self.path.as_str()
    }

    /// How dependencies are shared.
    pub fn dependency_sharing(&self) -> (r: &DependencySharingStrategy)
        ensures
            r@ == self.sharing(),
    {
        &self.dependency_sharing
    }
}

/// The prefix of every task branch.
pub open spec fn task_branch(name: Seq<char>) -> Seq<char> {
    "kanban/"@ + name
}

/// The reference under which Git lists a local branch.
pub open spec fn branch_reference(branch: Seq<char>) -> Seq<char> {
    "refs/heads/"@ + branch
}

/// How Git's branch of a registered worktree reads in messages.
pub open spec fn listed_branch(branch: Option<Seq<char>>) -> Seq<char> {
    match branch {
        Some(b) => b,
        None => "detached HEAD"@,
    }
}

/// Whether the two roots overlap: one lies within the other.
pub open spec fn roots_overlap(repository_root: Seq<char>, workspace_root: Seq<char>) -> bool {
    path_starts_with(workspace_root, repository_root) || path_starts_with(
        repository_root,
        workspace_root,
    )
}

/// The first registered worktree, from index `i` on, that has `reference` checked out.
pub open spec fn first_on_branch(
    worktrees: Seq<(Seq<char>, Option<Seq<char>>)>,
    reference: Seq<char>,
    i: int,
) -> Option<int>
    decreases worktrees.len() - i,
{
    if i < 0 || i >= worktrees.len() {
        None
    } else if worktrees[i].1 == Some(reference) {
        Some(i)
    } else {
        first_on_branch(worktrees, reference, i + 1)
    }
}


/// The search for a registered worktree at the assignment's path: each registered path and the
/// assignment's path are resolved, in turn, and compared.
pub enum PathSearchView {
    Ask(RequestView),
    /// The registered worktree at this index is at the path; resolved paths were read up to the
    /// second index.
    Matched(int, int),
    /// None is; resolved paths were read up to this index.
    Unmatched(int),
}

/// The search for a registered worktree at `path`, from worktree `i` on, reading resolved paths
/// from index `p` on.
pub open spec fn registered_path_search(
    worktrees: Seq<(Seq<char>, Option<Seq<char>>)>,
    path: Seq<char>,
    paths: Seq<Seq<char>>,
    i: int,
    p: int,
) -> PathSearchView
    decreases worktrees.len() - i,
{
    if i < 0 || i >= worktrees.len() {
        PathSearchView::Unmatched(p)
    } else if p < 0 || p >= paths.len() {
        PathSearchView::Ask(RequestView::ResolvePath { path: worktrees[i].0 })
    } else if p + 1 >= paths.len() {
        PathSearchView::Ask(RequestView::ResolvePath { path })
    } else if same_path(paths[p], paths[p + 1]) {
        PathSearchView::Matched(i, p + 2)
    } else {
        registered_path_search(worktrees, path, paths, i + 1, p + 2)
    }
}

/// Checks that the worktree at `path` is the assignment's: it lies within the workspace root,
/// and Git reports its resolved root as `path` and its checked-out branch as `branch`. Git's
/// answers are read from index `g` on, resolved paths from index `p` on.
pub open spec fn identity_check(
    workspace_root: Seq<char>,
    path: Seq<char>,
    branch: Seq<char>,
    replies: RepliesView,
    g: int,
    p: int,
) -> WorkspaceStepView<()> {
    if !path_starts_with(path, workspace_root) {
        WorkspaceStepView::Done(
            Err(
                WorkspaceErrorView::WorkspaceAssignmentOutsideManagedRoot {
                    assignment_path: path,
                    workspace_root,
                },
            ),
        )
    } else if g < 0 || g >= replies.git.len() {
        WorkspaceStepView::Ask(
            RequestView::Git { directory: path, arguments: seq!["rev-parse"@, "--show-toplevel"@] },
        )
    } else {
        match text_answer("resolve the task worktree root"@, replies.git[g]) {
            Err(e) => WorkspaceStepView::Done(Err(WorkspaceErrorView::Git(e))),
            Ok(root) => if g + 1 >= replies.git.len() {
                WorkspaceStepView::Ask(
                    RequestView::Git {
                        directory: path,
                        arguments: seq!["symbolic-ref"@, "--quiet"@, "--short"@, "HEAD"@],
                    },
                )
            } else {
                match text_answer("resolve the task worktree branch"@, replies.git[g + 1]) {
                    Err(e) => WorkspaceStepView::Done(Err(WorkspaceErrorView::Git(e))),
                    Ok(actual_branch) => if p < 0 || p >= replies.paths.len() {
                        WorkspaceStepView::Ask(RequestView::ResolveExistingPath { path: root })
                    } else if same_path(replies.paths[p], path) && actual_branch == branch {
                        WorkspaceStepView::Done(Ok(()))
                    } else {
                        WorkspaceStepView::Done(
                            Err(
                                WorkspaceErrorView::WorktreeIdentityMismatch {
                                    expected_path: path,
                                    actual_path: replies.paths[p],
                                    expected_branch: branch,
                                    actual_branch,
                                },
                            ),
                        )
                    },
                }
            },
        }
    }
}

/// What happens to a workspace target before its worktree is created.
pub enum TargetPreparationView {
    Ask(RequestView),
    /// Something is there that must not be touched: a file, a symbolic link or a directory with
    /// content.
    Occupied,
    Ready,
}

/// Prepares the workspace target: nothing to do when it is missing; an empty directory left by
/// an interrupted provisioning is removed; anything else is left alone and refused.
pub open spec fn target_preparation(path: Seq<char>, replies: RepliesView) -> TargetPreparationView {
    if replies.entries.len() == 0 {
        TargetPreparationView::Ask(RequestView::InspectEntry { path })
    } else {
        match replies.entries[0] {
            EntryKind::Missing => TargetPreparationView::Ready,
            EntryKind::Other => TargetPreparationView::Occupied,
            EntryKind::Directory => if replies.flags.len() == 0 {
                TargetPreparationView::Ask(RequestView::HasEntries { path })
            } else if replies.flags[0] {
                TargetPreparationView::Occupied
            } else if replies.performed == 0 {
                TargetPreparationView::Ask(RequestView::RemoveEmptyDirectory { path })
            } else {
                TargetPreparationView::Ready
            },
        }
    }
}

/// Creates the task worktree at the prepared target, on the existing task branch or on a new one
/// from the base reference, then checks its identity. Git's answers are read from index `g` on.
pub open spec fn worktree_answer(
    repository_root: Seq<char>,
    workspace_root: Seq<char>,
    base_ref: Seq<char>,
    path: Seq<char>,
    branch: Seq<char>,
    replies: RepliesView,
    branch_exists: bool,
    g: int,
    p: int,
) -> WorkspaceStepView<()> {
    match target_preparation(path, replies) {
        TargetPreparationView::Ask(r) => WorkspaceStepView::Ask(r),
        TargetPreparationView::Occupied => WorkspaceStepView::Done(
            Err(WorkspaceErrorView::WorkspacePathOccupied { path }),
        ),
        TargetPreparationView::Ready => if g < 0 || g >= replies.git.len() {
            WorkspaceStepView::Ask(
                RequestView::Git {
                    directory: repository_root,
                    arguments: if branch_exists {
                        seq!["worktree"@, "add"@, git_path_text(path, replies.windows), branch]
                    } else {
                        seq!["worktree"@, "add"@, "-b"@, branch, git_path_text(path, replies.windows), base_ref]
                    },
                },
            )
        } else {
            match text_answer(
                if branch_exists {
                    "attach the recovered task branch to its worktree"@
                } else {
                    "create the task worktree"@
                },
                replies.git[g],
            ) {
                Err(e) => WorkspaceStepView::Done(Err(WorkspaceErrorView::Git(e))),
                Ok(_) => identity_check(workspace_root, path, branch, replies, g + 1, p),
            }
        },
    }
}

/// Provisions a worktree for a task branch that no worktree has checked out: an existing task
/// branch is only reused while it still points at the base reference's commit.
pub open spec fn creation_answer(
    repository_root: Seq<char>,
    workspace_root: Seq<char>,
    base_ref: Seq<char>,
    path: Seq<char>,
    branch: Seq<char>,
    replies: RepliesView,
    p: int,
) -> WorkspaceStepView<()> {
    let git = replies.git;
    if git.len() <= 2 {
        WorkspaceStepView::Ask(
            RequestView::Git {
                directory: repository_root,
                arguments: seq!["show-ref"@, "--verify"@, "--quiet"@, "refs/heads/"@ + branch],
            },
        )
    } else {
        match presence_answer("check whether the task branch exists"@, git[2]) {
            Err(e) => WorkspaceStepView::Done(Err(WorkspaceErrorView::Git(e))),
            Ok(false) => worktree_answer(
                repository_root,
                workspace_root,
                base_ref,
                path,
                branch,
                replies,
                false,
                3,
                p,
            ),
            Ok(true) => if git.len() == 3 {
                WorkspaceStepView::Ask(
                    RequestView::Git {
                        directory: repository_root,
                        arguments: reference_commit_command(branch),
                    },
                )
            } else {
                match text_answer("resolve a Git reference"@, git[3]) {
                    Err(e) => WorkspaceStepView::Done(Err(WorkspaceErrorView::Git(e))),
                    Ok(branch_commit) => if git.len() == 4 {
                        WorkspaceStepView::Ask(
                            RequestView::Git {
                                directory: repository_root,
                                arguments: reference_commit_command(base_ref),
                            },
                        )
                    } else {
                        match text_answer("resolve a Git reference"@, git[4]) {
                            Err(e) => WorkspaceStepView::Done(Err(WorkspaceErrorView::Git(e))),
                            Ok(base_commit) => if branch_commit != base_commit {
                                WorkspaceStepView::Done(
                                    Err(
                                        WorkspaceErrorView::RecoveryBranchDiverged {
                                            branch_name: branch,
                                            base_ref,
                                        },
                                    ),
                                )
                            } else {
                                worktree_answer(
                                    repository_root,
                                    workspace_root,
                                    base_ref,
                                    path,
                                    branch,
                                    replies,
                                    true,
                                    5,
                                    p,
                                )
                            },
                        }
                    },
                }
            },
        }
    }
}

/// Provisions the worktree of work item `id`: the directory named after it directly below the
/// workspace root, on the task branch `kanban/<id>`. The branch name is validated and the
/// registered worktrees are read first: the worktree registered at the path is reused when it has
/// the task branch checked out and refused otherwise; a task branch checked out elsewhere is
/// refused; else the worktree is created.
pub open spec fn provision_answer(
    repository_root: Seq<char>,
    workspace_root: Seq<char>,
    base_ref: Seq<char>,
    id: Seq<char>,
    replies: RepliesView,
) -> WorkspaceStepView<()> {
    let branch = task_branch(id);
    let path = joined(workspace_root, id);
    let git = replies.git;
    if !is_safe_workspace_name(id) {
        WorkspaceStepView::Done(Err(WorkspaceErrorView::UnsafeWorkItemId { work_item_id: id }))
    } else if git.len() == 0 {
        WorkspaceStepView::Ask(
            RequestView::Git {
                directory: repository_root,
                arguments: seq!["check-ref-format"@, "--branch"@, branch],
            },
        )
    } else {
        match text_answer("validate the task branch name"@, git[0]) {
            Err(e) => WorkspaceStepView::Done(Err(WorkspaceErrorView::Git(e))),
            Ok(_) => if git.len() == 1 {
                WorkspaceStepView::Ask(
                    RequestView::Git {
                        directory: repository_root,
                        arguments: seq!["worktree"@, "list"@, "--porcelain"@, "-z"@],
                    },
                )
            } else {
                match text_answer("list registered worktrees"@, git[1]) {
                    Err(e) => WorkspaceStepView::Done(Err(WorkspaceErrorView::Git(e))),
                    Ok(listing) => match parsed_worktrees(listing) {
                        None => WorkspaceStepView::Done(
                            Err(WorkspaceErrorView::Git(GitErrorView::MalformedWorktreeList)),
                        ),
                        Some(ws) => match registered_path_search(ws, path, replies.paths, 0, 0) {
                            PathSearchView::Ask(r) => WorkspaceStepView::Ask(r),
                            PathSearchView::Matched(i, p) => if listed_branch(ws[i].1)
                                != branch_reference(branch) {
                                WorkspaceStepView::Done(
                                    Err(
                                        WorkspaceErrorView::WorkspacePathAssignedToDifferentBranch {
                                            path,
                                            existing_branch: listed_branch(ws[i].1),
                                            requested_branch: branch,
                                        },
                                    ),
                                )
                            } else {
                                identity_check(workspace_root, path, branch, replies, 2, p)
                            },
                            PathSearchView::Unmatched(p) => match first_on_branch(
                                ws,
                                branch_reference(branch),
                                0,
                            ) {
                                Some(k) => if p >= replies.paths.len() {
                                    WorkspaceStepView::Ask(RequestView::ResolvePath { path: ws[k].0 })
                                } else {
                                    WorkspaceStepView::Done(
                                        Err(
                                            WorkspaceErrorView::BranchAlreadyAssigned {
                                                branch_name: branch,
                                                path: replies.paths[p],
                                            },
                                        ),
                                    )
                                },
                                None => creation_answer(
                                    repository_root,
                                    workspace_root,
                                    base_ref,
                                    path,
                                    branch,
                                    replies,
                                    p,
                                ),
                            },
                        },
                    },
                }
            }
        }
    }
}

/// Checks that an execution works in its assignment: the assignment belongs to this manager, the
/// execution is for the assignment's work item, its workspace resolves to the assignment's path,
/// and the worktree there is the assignment's.
pub open spec fn execution_workspace_answer(
    workspace_root: Seq<char>,
    work_item: Seq<char>,
    branch: Seq<char>,
    path: Seq<char>,
    execution_work_item: Seq<char>,
    execution_path: Seq<char>,
    replies: RepliesView,
) -> WorkspaceStepView<()> {
    if !path_starts_with(path, workspace_root) {
        WorkspaceStepView::Done(
            Err(
                WorkspaceErrorView::WorkspaceAssignmentOutsideManagedRoot {
                    assignment_path: path,
                    workspace_root,
                },
            ),
        )
    } else if execution_work_item != work_item {
        WorkspaceStepView::Done(
            Err(
                WorkspaceErrorView::ExecutionWorkItemMismatch {
                    execution_work_item_id: execution_work_item,
                    assignment_work_item_id: work_item,
                },
            ),
        )
    } else if replies.paths.len() == 0 {
        WorkspaceStepView::Ask(RequestView::ResolveExistingPath { path: execution_path })
    } else if !same_path(replies.paths[0], path) {
        WorkspaceStepView::Done(
            Err(
                WorkspaceErrorView::ExecutionWorkspaceMismatch {
                    execution_path: replies.paths[0],
                    assignment_path: path,
                },
            ),
        )
    } else {
        identity_check(workspace_root, path, branch, replies, 0, 1)
    }
}

/// Decides an access to a path by an assignment: the path is resolved first. Everything within
/// the assignment's worktree is allowed; writes within the base repository and any other access
/// are denied.
pub open spec fn path_access_answer(
    repository_root: Seq<char>,
    workspace_root: Seq<char>,
    path: Seq<char>,
    requested_path: Seq<char>,
    access: PathAccess,
    replies: RepliesView,
) -> WorkspaceStepView<()> {
    if !path_starts_with(path, workspace_root) {
        WorkspaceStepView::Done(
            Err(
                WorkspaceErrorView::WorkspaceAssignmentOutsideManagedRoot {
                    assignment_path: path,
                    workspace_root,
                },
            ),
        )
    } else if replies.paths.len() == 0 {
        WorkspaceStepView::Ask(RequestView::ResolvePath { path: requested_path })
    } else if path_starts_with(replies.paths[0], path) {
        WorkspaceStepView::Done(Ok(()))
    } else if access == PathAccess::Write && path_starts_with(replies.paths[0], repository_root) {
        WorkspaceStepView::Done(
            Err(WorkspaceErrorView::BaseRepositoryMutationDenied { path: replies.paths[0] }),
        )
    } else {
        WorkspaceStepView::Done(
            Err(WorkspaceErrorView::UndeclaredPathAccessDenied { path: replies.paths[0], access }),
        )
    }
}

/// Sets a workspace manager up for a project: the declared repository path must be the root of
/// its repository and the base reference must name a commit; the workspace root is created and
/// may neither lie within the repository nor contain it, before or after it is resolved.
pub open spec fn manager_answer(
    declared_path: Seq<char>,
    base_ref: Seq<char>,
    workspace_root: Seq<char>,
    replies: RepliesView,
) -> WorkspaceStepView<(Seq<char>, Seq<char>, Seq<char>)> {
    let paths = replies.paths;
    let git = replies.git;
    if paths.len() == 0 {
        WorkspaceStepView::Ask(RequestView::ResolvePath { path: declared_path })
    } else if git.len() == 0 {
        WorkspaceStepView::Ask(
            RequestView::Git { directory: paths[0], arguments: seq!["rev-parse"@, "--show-toplevel"@] },
        )
    } else {
        match text_answer("resolve the project repository"@, git[0]) {
            Err(e) => WorkspaceStepView::Done(Err(WorkspaceErrorView::Git(e))),
            Ok(root) => if paths.len() == 1 {
                WorkspaceStepView::Ask(RequestView::ResolveExistingPath { path: root })
            } else if !same_path(paths[0], paths[1]) {
                WorkspaceStepView::Done(
                    Err(
                        WorkspaceErrorView::ProjectRepositoryMustBeRoot {
                            declared_path: paths[0],
                            detected_path: paths[1],
                        },
                    ),
                )
            } else if git.len() == 1 {
                WorkspaceStepView::Ask(
                    RequestView::Git { directory: paths[1], arguments: reference_commit_command(base_ref) },
                )
            } else {
                match text_answer("resolve a Git reference"@, git[1]) {
                    Err(e) => WorkspaceStepView::Done(Err(WorkspaceErrorView::Git(e))),
                    Ok(_) => if paths.len() == 2 {
                        WorkspaceStepView::Ask(RequestView::ResolvePath { path: workspace_root })
                    } else if roots_overlap(paths[1], paths[2]) {
                        WorkspaceStepView::Done(
                            Err(
                                WorkspaceErrorView::WorkspaceRootOverlapsRepository {
                                    repository_path: paths[1],
                                    workspace_path: paths[2],
                                },
                            ),
                        )
                    } else if replies.performed == 0 {
                        WorkspaceStepView::Ask(RequestView::CreateDirectories { path: paths[2] })
                    } else if paths.len() == 3 {
                        WorkspaceStepView::Ask(RequestView::ResolveExistingPath { path: paths[2] })
                    } else if roots_overlap(paths[1], paths[3]) {
                        WorkspaceStepView::Done(
                            Err(
                                WorkspaceErrorView::WorkspaceRootOverlapsRepository {
                                    repository_path: paths[1],
                                    workspace_path: paths[3],
                                },
                            ),
                        )
                    } else {
                        WorkspaceStepView::Done(Ok((paths[1], paths[3], base_ref)))
                    },
                }
            },
        }
    }
}

/// Owns the workspace root of one project repository.
#[derive(Debug)]
pub struct WorkspaceManager {
    repository_root: String,
    workspace_root: String,
    base_ref: String,
}

/// The search for a registered worktree at a path.
enum PathSearch {
    Ask(WorkspaceRequest),
    Matched(usize, usize),
    Unmatched(usize),
}

/// The content of a search.
spec fn path_search_view(s: PathSearch) -> PathSearchView {
    match s {
        PathSearch::Ask(r) => PathSearchView::Ask(r@),
        PathSearch::Matched(i, p) => PathSearchView::Matched(i as int, p as int),
        PathSearch::Unmatched(p) => PathSearchView::Unmatched(p as int),
    }
}

/// The preparation of a workspace target.
enum TargetPreparation {
    Ask(WorkspaceRequest),
    Occupied,
    Ready,
}

/// The content of a preparation.
spec fn preparation_view(t: TargetPreparation) -> TargetPreparationView {
    match t {
        TargetPreparation::Ask(r) => TargetPreparationView::Ask(r@),
        TargetPreparation::Occupied => TargetPreparationView::Occupied,
        TargetPreparation::Ready => TargetPreparationView::Ready,
    }
}

fn git_request(directory: &str, arguments: Vec<String>) -> (r: WorkspaceRequest)
    ensures
        r@ == (RequestView::Git { directory: directory@, arguments: texts(arguments@) }),
{
    WorkspaceRequest::Git { directory: owned(directory), arguments }
}

fn search_registered_path(worktrees: &Vec<GitWorktree>, path: &str, paths: &Vec<String>) -> (r: PathSearch)
    ensures
        path_search_view(r) == registered_path_search(worktrees_view(worktrees@), path@, texts(paths@), 0, 0),
        r matches PathSearch::Matched(i, p) ==> i < worktrees@.len() && p <= paths@.len(),
        r matches PathSearch::Unmatched(p) ==> p <= paths@.len(),
{
    let ghost ws = worktrees_view(worktrees@);
    let ghost ps = texts(paths@);
    let mut i: usize = 0;
    let mut p: usize = 0;
    while i < worktrees.len()
        invariant
            ws == worktrees_view(worktrees@),
            ps == texts(paths@),
            i <= worktrees@.len(),
            p <= paths@.len(),
            registered_path_search(ws, path@, ps, 0, 0) == registered_path_search(ws, path@, ps, i as int, p as int),
        decreases worktrees@.len() - i,
    {
        assert(ws[i as int] == worktree_view(worktrees@[i as int]));
        if p >= paths.len() {
            return PathSearch::Ask(WorkspaceRequest::ResolvePath { path: worktrees[i].path.clone() });
        }
        if p + 1 >= paths.len() {
            return PathSearch::Ask(WorkspaceRequest::ResolvePath { path: owned(path) });
        }
        assert(ps[p as int] == paths@[p as int]@);
        assert(ps[p + 1] == paths@[p + 1]@);
        if paths_equal(paths[p].as_str(), paths[p + 1].as_str()) {
            return PathSearch::Matched(i, p + 2);
        }
        i = i + 1;
        p = p + 2;
    }
    PathSearch::Unmatched(p)
}

fn find_on_branch(worktrees: &Vec<GitWorktree>, reference: &String) -> (r: Option<usize>)
    ensures
        r matches Some(k) ==> k < worktrees@.len() && first_on_branch(worktrees_view(worktrees@), reference@, 0) == Some(k as int),
        r is None ==> first_on_branch(worktrees_view(worktrees@), reference@, 0) is None,
{
    let ghost ws = worktrees_view(worktrees@);
    let mut i: usize = 0;
    while i < worktrees.len()
        invariant
            ws == worktrees_view(worktrees@),
            i <= worktrees@.len(),
            first_on_branch(ws, reference@, 0) == first_on_branch(ws, reference@, i as int),
        decreases worktrees@.len() - i,
    {
        assert(ws[i as int] == worktree_view(worktrees@[i as int]));
        let on_branch = match &worktrees[i].branch {
            Some(b) => *b == *reference,
            None => false,
        };
        if on_branch {
            return Some(i);
        }
        i = i + 1;
    }
    None
}

fn prepare_target(path: &str, replies: &WorkspaceReplies) -> (r: TargetPreparation)
    ensures
        preparation_view(r) == target_preparation(path@, replies@),
{
    if replies.entries.len() == 0 {
        return TargetPreparation::Ask(WorkspaceRequest::InspectEntry { path: owned(path) });
    }
    match replies.entries[0] {
        EntryKind::Missing => TargetPreparation::Ready,
        EntryKind::Other => TargetPreparation::Occupied,
        EntryKind::Directory => {
            if replies.flags.len() == 0 {
                TargetPreparation::Ask(WorkspaceRequest::HasEntries { path: owned(path) })
            } else if replies.flags[0] {
                TargetPreparation::Occupied
            } else if replies.performed == 0 {
                TargetPreparation::Ask(WorkspaceRequest::RemoveEmptyDirectory { path: owned(path) })
            } else {
                TargetPreparation::Ready
            }
        },
    }
}

fn outside_managed_root(path: &String, workspace_root: &String) -> (e: WorkspaceError)
    ensures
        e@ == (WorkspaceErrorView::WorkspaceAssignmentOutsideManagedRoot {
            assignment_path: path@,
            workspace_root: workspace_root@,
        }),
{
    WorkspaceError::WorkspaceAssignmentOutsideManagedRoot {
        assignment_path: path.clone(),
        workspace_root: workspace_root.clone(),
    }
}

impl WorkspaceManager {
    #[verifier::type_invariant]
    closed spec fn roots_apart(self) -> bool {
        !roots_overlap(self.repository_root@, self.workspace_root@)
    }

    /// The project repository root.
    pub closed spec fn repository(&self) -> Seq<char> {
        self.repository_root@
    }

    /// The root below which task workspaces are created.
    pub closed spec fn workspaces(&self) -> Seq<char> {
        self.workspace_root@
    }

    /// The reference that task branches start from.
    pub closed spec fn base(&self) -> Seq<char> {
        self.base_ref@
    }

    /// Sets up the manager of a project's workspaces below `workspace_root`.
    pub fn new(project: &Project, workspace_root: &str, replies: &WorkspaceReplies) -> (r: WorkspaceStep<WorkspaceManager>)
        ensures
            workspace_step_view(r, |m: WorkspaceManager| (m.repository(), m.workspaces(), m.base()))
                == manager_answer(project.repository_path@, project.base_ref@, workspace_root@, replies@),
    {
        let ghost rs = replies@;
        if replies.paths.len() == 0 {
            return WorkspaceStep::Ask(
                WorkspaceRequest::ResolvePath { path: project.repository_path.clone() },
            );
        }
        assert(rs.paths[0] == replies.paths@[0]@);
        let declared = &replies.paths[0];
        if replies.git.len() == 0 {
            return WorkspaceStep::Ask(git_request(declared.as_str(), repository_root_arguments()));
        }
        assert(rs.git[0] == replies.git@[0]@);
        let root = match text_reply("resolve the project repository", &replies.git[0]) {
            Ok(t) => t,
            Err(e) => return WorkspaceStep::Done(Err(WorkspaceError::Git(e))),
        };
        if replies.paths.len() == 1 {
            return WorkspaceStep::Ask(WorkspaceRequest::ResolveExistingPath { path: root });
        }
        assert(rs.paths[1] == replies.paths@[1]@);
        let detected = &replies.paths[1];
        if !paths_equal(declared.as_str(), detected.as_str()) {
            return WorkspaceStep::Done(
                Err(WorkspaceError::ProjectRepositoryMustBeRoot {
                    declared_path: declared.clone(),
                    detected_path: detected.clone(),
                }),
            );
        }
        if replies.git.len() == 1 {
            return WorkspaceStep::Ask(
                git_request(detected.as_str(), reference_commit_arguments(project.base_ref.as_str())),
            );
        }
        assert(rs.git[1] == replies.git@[1]@);
        match text_reply("resolve a Git reference", &replies.git[1]) {
            Ok(_) => {},
            Err(e) => return WorkspaceStep::Done(Err(WorkspaceError::Git(e))),
        }
        if replies.paths.len() == 2 {
            return WorkspaceStep::Ask(WorkspaceRequest::ResolvePath { path: owned(workspace_root) });
        }
        assert(rs.paths[2] == replies.paths@[2]@);
        let planned_root = &replies.paths[2];
        if let Err(e) = reject_overlapping_roots(detected.as_str(), planned_root.as_str()) {
            return WorkspaceStep::Done(Err(e));
        }
        if replies.performed == 0 {
            return WorkspaceStep::Ask(WorkspaceRequest::CreateDirectories { path: planned_root.clone() });
        }
        if replies.paths.len() == 3 {
            return WorkspaceStep::Ask(WorkspaceRequest::ResolveExistingPath { path: planned_root.clone() });
        }
        assert(rs.paths[3] == replies.paths@[3]@);
        let created_root = &replies.paths[3];
        if let Err(e) = reject_overlapping_roots(detected.as_str(), created_root.as_str()) {
            return WorkspaceStep::Done(Err(e));
        }
        WorkspaceStep::Done(
            Ok(WorkspaceManager {
                repository_root: detected.clone(),
                workspace_root: created_root.clone(),
                base_ref: project.base_ref.clone(),
            }),
        )
    }

    /// The project repository root.
    pub fn repository_root(&self) -> (r: &str)
        ensures
            r@ == self.repository(),
    {
        self.repository_root.as_str()
    }

    /// The root below which task workspaces are created.
    pub fn workspace_root(&self) -> (r: &str)
        ensures
            r@ == self.workspaces(),
    {
        self.workspace_root.as_str()
    }

    /// The reference that task branches start from.
    pub fn base_ref(&self) -> (r: &str)
        ensures
            r@ == self.base(),
    {
        self.base_ref.as_str()
    }

    /// Refuses an assignment that does not lie within this manager's workspace root.
    fn verify_assignment_belongs_to_manager(&self, path: &String) -> (r: Result<(), WorkspaceError>)
        ensures
            r is Ok <==> path_starts_with(path@, self.workspaces()),
            r matches Err(e) ==> e@ == (WorkspaceErrorView::WorkspaceAssignmentOutsideManagedRoot {
                assignment_path: path@,
                workspace_root: self.workspaces(),
            }),
    {
        if !starts_with_path(path.as_str(), self.workspace_root.as_str()) {
            return Err(outside_managed_root(path, &self.workspace_root));
        }
        Ok(())
    }

    /// Checks the identity of the worktree at `path`.
    fn verify_assignment_identity(
        &self,
        path: &String,
        branch: &String,
        replies: &WorkspaceReplies,
        g: usize,
        p: usize,
    ) -> (r: WorkspaceStep<()>)
        ensures
            workspace_step_view(r, |u: ()| u) == identity_check(
                self.workspaces(),
                path@,
                branch@,
                replies@,
                g as int,
                p as int,
            ),
    {
        let ghost rs = replies@;
        if let Err(e) = self.verify_assignment_belongs_to_manager(path) {
            return WorkspaceStep::Done(Err(e));
        }
        if g >= replies.git.len() {
            return WorkspaceStep::Ask(git_request(path.as_str(), repository_root_arguments()));
        }
        assert(rs.git[g as int] == replies.git@[g as int]@);
        let root = match text_reply("resolve the task worktree root", &replies.git[g]) {
            Ok(t) => t,
            Err(e) => return WorkspaceStep::Done(Err(WorkspaceError::Git(e))),
        };
        if g + 1 >= replies.git.len() {
            return WorkspaceStep::Ask(git_request(path.as_str(), worktree_branch_arguments()));
        }
        assert(rs.git[g + 1] == replies.git@[g + 1]@);
        let actual_branch = match text_reply("resolve the task worktree branch", &replies.git[g + 1]) {
            Ok(t) => t,
            Err(e) => return WorkspaceStep::Done(Err(WorkspaceError::Git(e))),
        };
        if p >= replies.paths.len() {
            return WorkspaceStep::Ask(WorkspaceRequest::ResolveExistingPath { path: root });
        }
        assert(rs.paths[p as int] == replies.paths@[p as int]@);
        let actual_root = &replies.paths[p];
        if !paths_equal(actual_root.as_str(), path.as_str()) || actual_branch != *branch {
            return WorkspaceStep::Done(
                Err(WorkspaceError::WorktreeIdentityMismatch {
                    expected_path: path.clone(),
                    actual_path: actual_root.clone(),
                    expected_branch: branch.clone(),
                    actual_branch,
                }),
            );
        }
        WorkspaceStep::Done(Ok(()))
    }

    /// Creates the worktree at the prepared target and checks it.
    fn create_worktree(
        &self,
        path: &String,
        branch: &String,
        replies: &WorkspaceReplies,
        branch_exists: bool,
        g: usize,
        p: usize,
    ) -> (r: WorkspaceStep<()>)
        ensures
            workspace_step_view(r, |u: ()| u) == worktree_answer(
                self.repository(),
                self.workspaces(),
                self.base(),
                path@,
                branch@,
                replies@,
                branch_exists,
                g as int,
                p as int,
            ),
    {
        let ghost rs = replies@;
        match prepare_target(path.as_str(), replies) {
            TargetPreparation::Ask(request) => return WorkspaceStep::Ask(request),
            TargetPreparation::Occupied => {
                return WorkspaceStep::Done(
                    Err(WorkspaceError::WorkspacePathOccupied { path: path.clone() }),
                )
            },
            TargetPreparation::Ready => {},
        }
        if g >= replies.git.len() {
            let git_path = git_path_argument(path.as_str(), replies.windows);
            let arguments = if branch_exists {
                attach_existing_branch_arguments(git_path.as_str(), branch.as_str())
            } else {
                create_worktree_arguments(git_path.as_str(), branch.as_str(), self.base_ref.as_str())
            };
            return WorkspaceStep::Ask(git_request(self.repository_root.as_str(), arguments));
        }
        assert(rs.git[g as int] == replies.git@[g as int]@);
        let outcome = if branch_exists {
            text_reply("attach the recovered task branch to its worktree", &replies.git[g])
        } else {
            text_reply("create the task worktree", &replies.git[g])
        };
        match outcome {
            Ok(_) => self.verify_assignment_identity(path, branch, replies, g + 1, p),
            Err(e) => WorkspaceStep::Done(Err(WorkspaceError::Git(e))),
        }
    }

    /// Provisions a worktree for a task branch that no worktree has checked out.
    fn provision_new_worktree(
        &self,
        path: &String,
        branch: &String,
        replies: &WorkspaceReplies,
        p: usize,
    ) -> (r: WorkspaceStep<()>)
        ensures
            workspace_step_view(r, |u: ()| u) == creation_answer(
                self.repository(),
                self.workspaces(),
                self.base(),
                path@,
                branch@,
                replies@,
                p as int,
            ),
    {
        let ghost rs = replies@;
        if replies.git.len() <= 2 {
            return WorkspaceStep::Ask(
                git_request(self.repository_root.as_str(), branch_exists_arguments(branch.as_str())),
            );
        }
        assert(rs.git[2] == replies.git@[2]@);
        let exists = match presence_reply("check whether the task branch exists", &replies.git[2]) {
            Ok(b) => b,
            Err(e) => return WorkspaceStep::Done(Err(WorkspaceError::Git(e))),
        };
        if !exists {
            return self.create_worktree(path, branch, replies, false, 3, p);
        }
        if replies.git.len() == 3 {
            return WorkspaceStep::Ask(
                git_request(self.repository_root.as_str(), reference_commit_arguments(branch.as_str())),
            );
        }
        assert(rs.git[3] == replies.git@[3]@);
        let branch_commit = match text_reply("resolve a Git reference", &replies.git[3]) {
            Ok(t) => t,
            Err(e) => return WorkspaceStep::Done(Err(WorkspaceError::Git(e))),
        };
        if replies.git.len() == 4 {
            return WorkspaceStep::Ask(
                git_request(
                    self.repository_root.as_str(),
                    reference_commit_arguments(self.base_ref.as_str()),
                ),
            );
        }
        assert(rs.git[4] == replies.git@[4]@);
        let base_commit = match text_reply("resolve a Git reference", &replies.git[4]) {
            Ok(t) => t,
            Err(e) => return WorkspaceStep::Done(Err(WorkspaceError::Git(e))),
        };
        if branch_commit != base_commit {
            return WorkspaceStep::Done(
                Err(WorkspaceError::RecoveryBranchDiverged {
                    branch_name: branch.clone(),
                    base_ref: self.base_ref.clone(),
                }),
            );
        }
        self.create_worktree(path, branch, replies, true, 5, p)
    }

    /// Provisions the worktree of a work item: reuses the one registered for it, or creates it on
    /// its task branch, and checks its identity.
    pub fn provision(&self, request: WorkspaceProvisionRequest, replies: &WorkspaceReplies) -> (r: WorkspaceStep<WorkspaceAssignment>)
        ensures
            workspace_step_view(r, |a: WorkspaceAssignment| ()) == provision_answer(
                self.repository(),
                self.workspaces(),
                self.base(),
                request.work_item_id@,
                replies@,
            ),
            r matches WorkspaceStep::Done(Ok(a)) ==> provisioned_as(
                a,
                self.workspaces(),
                request.work_item_id@,
                request.dependency_sharing@,
            ),
            r matches WorkspaceStep::Done(Ok(a)) ==> path_starts_with(a.location(), self.workspaces())
                && !path_starts_with(a.location(), self.repository()),
    {
        let ghost rs = replies@;
        let name = match workspace_name(&request.work_item_id) {
            Ok(n) => n,
            Err(e) => return WorkspaceStep::Done(Err(e)),
        };
        let mut branch_name = owned("kanban/");
        branch_name.append(name.as_str());
        let path = join(self.workspace_root.as_str(), name.as_str());
        if replies.git.len() == 0 {
            return WorkspaceStep::Ask(
                git_request(self.repository_root.as_str(), branch_name_check_arguments(branch_name.as_str())),
            );
        }
        assert(rs.git[0] == replies.git@[0]@);
        match text_reply("validate the task branch name", &replies.git[0]) {
            Ok(_) => {},
            Err(e) => return WorkspaceStep::Done(Err(WorkspaceError::Git(e))),
        }
        if replies.git.len() == 1 {
            return WorkspaceStep::Ask(git_request(self.repository_root.as_str(), worktree_list_arguments()));
        }
        assert(rs.git[1] == replies.git@[1]@);
        let listing = match text_reply("list registered worktrees", &replies.git[1]) {
            Ok(t) => t,
            Err(e) => return WorkspaceStep::Done(Err(WorkspaceError::Git(e))),
        };
        let worktrees = match parse_worktrees(listing.as_str()) {
            Ok(w) => w,
            Err(e) => return WorkspaceStep::Done(Err(WorkspaceError::Git(e))),
        };
        let mut reference = owned("refs/heads/");
        reference.append(branch_name.as_str());
        let outcome = match search_registered_path(&worktrees, path.as_str(), &replies.paths) {
            PathSearch::Ask(r) => return WorkspaceStep::Ask(r),
            PathSearch::Matched(i, p) => {
                assert(worktrees_view(worktrees@)[i as int] == worktree_view(worktrees@[i as int]));
                let existing_branch = match &worktrees[i].branch {
                    Some(b) => b.clone(),
                    None => owned("detached HEAD"),
                };
                if existing_branch != reference {
                    return WorkspaceStep::Done(
                        Err(WorkspaceError::WorkspacePathAssignedToDifferentBranch {
                            path,
                            existing_branch,
                            requested_branch: branch_name,
                        }),
                    );
                }
                self.verify_assignment_identity(&path, &branch_name, replies, 2, p)
            },
            PathSearch::Unmatched(p) => match find_on_branch(&worktrees, &reference) {
                Some(k) => {
                    assert(worktrees_view(worktrees@)[k as int] == worktree_view(worktrees@[k as int]));
                    if p >= replies.paths.len() {
                        return WorkspaceStep::Ask(
                            WorkspaceRequest::ResolvePath { path: worktrees[k].path.clone() },
                        );
                    }
                    assert(rs.paths[p as int] == replies.paths@[p as int]@);
                    return WorkspaceStep::Done(
                        Err(WorkspaceError::BranchAlreadyAssigned {
                            branch_name,
                            path: replies.paths[p].clone(),
                        }),
                    );
                },
                None => self.provision_new_worktree(&path, &branch_name, replies, p),
            },
        };
        match outcome {
            WorkspaceStep::Ask(r) => WorkspaceStep::Ask(r),
            WorkspaceStep::Done(Err(e)) => WorkspaceStep::Done(Err(e)),
            WorkspaceStep::Done(Ok(())) => {
                proof {
                    use_type_invariant(self);
                    if path_starts_with(path@, self.repository()) {
                        lemma_common_descendant_overlaps(path@, self.workspaces(), self.repository());
                    }
                }
                WorkspaceStep::Done(
                Ok(WorkspaceAssignment {
                    work_item_id: request.work_item_id,
                    branch_name,
                    path,
                    dependency_sharing: request.dependency_sharing,
                }),
            )
            },
        }
    }

    /// Checks that an execution works in its assigned worktree.
    pub fn verify_execution_workspace(
        &self,
        execution: &Execution,
        assignment: &WorkspaceAssignment,
        replies: &WorkspaceReplies,
    ) -> (r: WorkspaceStep<()>)
        ensures
            workspace_step_view(r, |u: ()| u) == execution_workspace_answer(
                self.workspaces(),
                assignment.work_item(),
                assignment.branch(),
                assignment.location(),
                execution.work_item_id@,
                execution.workspace_path@,
                replies@,
            ),
            r matches WorkspaceStep::Done(Ok(())) ==> path_starts_with(
                assignment.location(),
                self.workspaces(),
            ) && execution.work_item_id@ == assignment.work_item() && same_path(
                replies@.paths[0],
                assignment.location(),
            ),
    {
        let ghost rs = replies@;
        if let Err(e) = self.verify_assignment_belongs_to_manager(&assignment.path) {
            return WorkspaceStep::Done(Err(e));
        }
        if !execution.work_item_id.same_as(&assignment.work_item_id) {
            return WorkspaceStep::Done(
                Err(WorkspaceError::ExecutionWorkItemMismatch {
                    execution_work_item_id: execution.work_item_id.clone(),
                    assignment_work_item_id: assignment.work_item_id.clone(),
                }),
            );
        }
        if replies.paths.len() == 0 {
            return WorkspaceStep::Ask(
                WorkspaceRequest::ResolveExistingPath { path: execution.workspace_path.clone() },
            );
        }
        assert(rs.paths[0] == replies.paths@[0]@);
        if !paths_equal(replies.paths[0].as_str(), assignment.path.as_str()) {
            return WorkspaceStep::Done(
                Err(WorkspaceError::ExecutionWorkspaceMismatch {
                    execution_path: replies.paths[0].clone(),
                    assignment_path: assignment.path.clone(),
                }),
            );
        }
        self.verify_assignment_identity(&assignment.path, &assignment.branch_name, replies, 0, 1)
    }

    /// Decides whether an assignment may access a path.
    pub fn authorize_path(
        &self,
        assignment: &WorkspaceAssignment,
        requested_path: &str,
        access: PathAccess,
        replies: &WorkspaceReplies,
    ) -> (r: WorkspaceStep<()>)
        ensures
            workspace_step_view(r, |u: ()| u) == path_access_answer(
                self.repository(),
                self.workspaces(),
                assignment.location(),
                requested_path@,
                access,
                replies@,
            ),
            r matches WorkspaceStep::Done(Ok(())) ==> !path_starts_with(replies@.paths[0], self.repository()),
    {
        let ghost rs = replies@;
        if let Err(e) = self.verify_assignment_belongs_to_manager(&assignment.path) {
            return WorkspaceStep::Done(Err(e));
        }
        if replies.paths.len() == 0 {
            return WorkspaceStep::Ask(WorkspaceRequest::ResolvePath { path: owned(requested_path) });
        }
        assert(rs.paths[0] == replies.paths@[0]@);
        let resolved = &replies.paths[0];
        if starts_with_path(resolved.as_str(), assignment.path.as_str()) {
            proof {
                use_type_invariant(self);
                law_allowed_paths_stay_outside_repository(
                    self.repository(),
                    self.workspaces(),
                    assignment.location(),
                    rs.paths[0],
                );
            }
            return WorkspaceStep::Done(Ok(()));
        }
        if access == PathAccess::Write && starts_with_path(resolved.as_str(), self.repository_root.as_str()) {
            return WorkspaceStep::Done(
                Err(WorkspaceError::BaseRepositoryMutationDenied { path: resolved.clone() }),
            );
        }
        WorkspaceStep::Done(Err(WorkspaceError::UndeclaredPathAccessDenied { path: resolved.clone(), access }))
    }
}

/// Refuses roots that overlap: the workspace root may neither lie within the repository nor
/// contain it.
pub fn reject_overlapping_roots(repository_root: &str, workspace_root: &str) -> (r: Result<(), WorkspaceError>)
    ensures
        r is Ok <==> !roots_overlap(repository_root@, workspace_root@),
        r matches Err(e) ==> e@ == (WorkspaceErrorView::WorkspaceRootOverlapsRepository {
            repository_path: repository_root@,
            workspace_path: workspace_root@,
        }),
{
    if starts_with_path(workspace_root, repository_root) || starts_with_path(
        repository_root,
        workspace_root,
    ) {
        return Err(WorkspaceError::WorkspaceRootOverlapsRepository {
            repository_path: owned(repository_root),
            workspace_path: owned(workspace_root),
        });
    }
    Ok(())
}

/// The assignment that provisioning gives for work item `id` below `workspaces`: the work item,
/// its task branch, its path directly below the root, and the requested dependency sharing.
pub open spec fn provisioned_as(
    a: WorkspaceAssignment,
    workspaces: Seq<char>,
    id: Seq<char>,
    sharing: DependencySharingView,
) -> bool {
    &&& a.work_item() == id
    &&& a.branch() == task_branch(id)
    &&& a.location() == joined(workspaces, id)
    &&& a.sharing() == sharing
}

/// Provisioning is idempotent in what it gives: two successful provisionings of the same request
/// by the same manager give the same assignment, whatever Git and the file system answered.
pub proof fn law_repeated_provisioning_agrees(
    a1: WorkspaceAssignment,
    a2: WorkspaceAssignment,
    workspaces: Seq<char>,
    id: Seq<char>,
    sharing: DependencySharingView,
)
    requires
        provisioned_as(a1, workspaces, id, sharing),
        provisioned_as(a2, workspaces, id, sharing),
    ensures
        a1.work_item() == a2.work_item(),
        a1.branch() == a2.branch(),
        a1.location() == a2.location(),
        a1.sharing() == a2.sharing(),
{
}

/// A path within an assignment that lies within the workspace root is never within the project
/// repository, as long as the two roots do not overlap.
pub proof fn law_allowed_paths_stay_outside_repository(
    repository_root: Seq<char>,
    workspace_root: Seq<char>,
    assignment_path: Seq<char>,
    requested_path: Seq<char>,
)
    requires
        !roots_overlap(repository_root, workspace_root),
        path_starts_with(assignment_path, workspace_root),
        path_starts_with(requested_path, assignment_path),
    ensures
        !path_starts_with(requested_path, repository_root),
{
    lemma_starts_with_transitive(requested_path, assignment_path, workspace_root);
    if path_starts_with(requested_path, repository_root) {
        lemma_common_descendant_overlaps(requested_path, workspace_root, repository_root);
    }
}

/// The search for a registered worktree only ever asks for paths to be resolved.
pub proof fn lemma_path_search_only_resolves(
    worktrees: Seq<(Seq<char>, Option<Seq<char>>)>,
    path: Seq<char>,
    paths: Seq<Seq<char>>,
    i: int,
    p: int,
)
    ensures
        registered_path_search(worktrees, path, paths, i, p) matches PathSearchView::Ask(r) ==> r is ResolvePath,
    decreases worktrees.len() - i,
{
    if 0 <= i < worktrees.len() && 0 <= p && p + 1 < paths.len() && !same_path(paths[p], paths[p + 1]) {
        lemma_path_search_only_resolves(worktrees, path, paths, i + 1, p + 2);
    }
}

/// Provisioning removes nothing but an empty directory at the task's own workspace path: a file,
/// a symbolic link or a directory with content there is left alone.
pub proof fn law_only_empty_targets_are_removed(
    repository_root: Seq<char>,
    workspace_root: Seq<char>,
    base_ref: Seq<char>,
    id: Seq<char>,
    replies: RepliesView,
    removed: Seq<char>,
)
    requires
        provision_answer(repository_root, workspace_root, base_ref, id, replies)
            == WorkspaceStepView::<()>::Ask(RequestView::RemoveEmptyDirectory { path: removed }),
    ensures
        removed == joined(workspace_root, id),
        replies.entries.len() > 0 && replies.entries[0] == EntryKind::Directory,
        replies.flags.len() > 0 && !replies.flags[0],
        replies.performed == 0,
{
    let git = replies.git;
    if is_safe_workspace_name(id) && git.len() > 1 {
        if let Ok(listing) = text_answer("list registered worktrees"@, git[1]) {
            if let Some(ws) = parsed_worktrees(listing) {
                lemma_path_search_only_resolves(ws, joined(workspace_root, id), replies.paths, 0, 0);
            }
        }
    }
}

/// A safe workspace name is one component: it holds no `/` and is neither empty nor `.`.
proof fn lemma_safe_name_is_one_component(name: Seq<char>)
    requires
        is_safe_workspace_name(name),
    ensures
        !has_char(name, '/'),
        name.len() > 0 && name != seq!['.'],
{
    assert(is_workspace_name_char(name[0]));
    if has_char(name, '/') {
        let i = choose|i: int| 0 <= i < name.len() && name[i] == '/';
        assert(is_workspace_name_char(name[i]));
    }
    if name == seq!['.'] {
        assert(name[0] == '.');
    }
}

/// Every task's worktree lies directly within the workspace root.
pub proof fn law_task_worktrees_lie_within_the_root(workspace_root: Seq<char>, id: Seq<char>)
    requires
        is_safe_workspace_name(id),
    ensures
        path_starts_with(joined(workspace_root, id), workspace_root),
        components(joined(workspace_root, id)) == components(workspace_root).push(id),
{
    lemma_safe_name_is_one_component(id);
    lemma_components_of_joined(workspace_root, id);
    let c = components(workspace_root);
    assert(c.push(id).subrange(0, c.len() as int) =~= c);
    if workspace_root.len() > 0 {
        assert(joined(workspace_root, id)[0] == workspace_root[0]);
    } else {
        assert(joined(workspace_root, id) =~= id);
        assert(is_workspace_name_char(id[0]));
    }
}

/// The worktrees of two different work items are apart: neither lies within the other, so a
/// path allowed to one task is never within another task's worktree.
pub proof fn law_task_worktrees_are_apart(workspace_root: Seq<char>, a: Seq<char>, b: Seq<char>)
    requires
        is_safe_workspace_name(a),
        is_safe_workspace_name(b),
        a != b,
    ensures
        !path_starts_with(joined(workspace_root, a), joined(workspace_root, b)),
{
    law_task_worktrees_lie_within_the_root(workspace_root, a);
    law_task_worktrees_lie_within_the_root(workspace_root, b);
    let c = components(workspace_root);
    if path_starts_with(joined(workspace_root, a), joined(workspace_root, b)) {
        assert(c.push(a).subrange(0, c.push(b).len() as int) =~= c.push(a));
        assert(c.push(a).last() == a);
        assert(c.push(b).last() == b);
    }
}

} // verus!
