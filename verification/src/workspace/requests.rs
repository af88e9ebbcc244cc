//! What the workspace boundary asks of its surroundings, and the answers it is given back. The
//! boundary decides; the caller runs Git, resolves paths and touches the file system, one request
//! at a time, and calls the operation again with the answers so far. Every answer of a kind is
//! appended to the list of that kind. A request that fails in the operating system ends the
//! operation: a command that cannot be started with `GitError::CommandIo`, any other failure with
//! `WorkspaceError::FileSystem`; only the requests marked as trials answer their failure instead.
use vstd::prelude::*;
use super::error::{WorkspaceError, WorkspaceErrorView};
use super::git::texts;
use super::git_cli::{outputs_view, GitOutput, GitOutputView};

verus! {

/// One request to the surroundings.
#[derive(Debug)]
pub enum WorkspaceRequest {
    /// Run Git with these arguments in the directory; answered with its output.
    Git { directory: String, arguments: Vec<String> },
    /// A trial: run Git with these arguments in the directory; answered with its output, or
    /// with none when it could not be started.
    TryGit { directory: String, arguments: Vec<String> },
    /// The absolute path with symbolic links resolved, as far as it exists, and the missing rest
    /// appended; answered with a path.
    ResolvePath { path: String },
    /// The canonical form of an existing path; answered with a path.
    ResolveExistingPath { path: String },
    /// What is at the path, without following a symbolic link; answered with an entry kind.
    InspectEntry { path: String },
    /// Whether a directory has any entry; answered with a flag.
    HasEntries { path: String },
    /// Whether the path is a directory, following symbolic links; answered with a flag.
    IsDirectory { path: String },
    /// Remove an empty directory; answered by counting it as performed.
    RemoveEmptyDirectory { path: String },
    /// Create a directory and its missing parents; answered by counting it as performed.
    CreateDirectories { path: String },
    /// A trial: what is at the path, without following a symbolic link; answered with an entry
    /// kind, or with none when it could not be read.
    TryInspectEntry { path: String },
    /// A trial: remove a directory with its content; answered by counting it as performed,
    /// whether it succeeded or not.
    TryRemoveDirectoryTree { path: String },
}

/// The content of a request.
pub enum RequestView {
    Git { directory: Seq<char>, arguments: Seq<Seq<char>> },
    TryGit { directory: Seq<char>, arguments: Seq<Seq<char>> },
    ResolvePath { path: Seq<char> },
    ResolveExistingPath { path: Seq<char> },
    InspectEntry { path: Seq<char> },
    HasEntries { path: Seq<char> },
    IsDirectory { path: Seq<char> },
    RemoveEmptyDirectory { path: Seq<char> },
    CreateDirectories { path: Seq<char> },
    TryInspectEntry { path: Seq<char> },
    TryRemoveDirectoryTree { path: Seq<char> },
}

impl View for WorkspaceRequest {
    type V = RequestView;

    open spec fn view(&self) -> RequestView {
        match self {
            WorkspaceRequest::Git { directory, arguments } => RequestView::Git {
                directory: directory@,
                arguments: texts(arguments@),
            },
            WorkspaceRequest::TryGit { directory, arguments } => RequestView::TryGit {
                directory: directory@,
                arguments: texts(arguments@),
            },
            WorkspaceRequest::ResolvePath { path } => RequestView::ResolvePath { path: path@ },
            WorkspaceRequest::ResolveExistingPath { path } => RequestView::ResolveExistingPath {
                path: path@,
            },
            WorkspaceRequest::InspectEntry { path } => RequestView::InspectEntry { path: path@ },
            WorkspaceRequest::HasEntries { path } => RequestView::HasEntries { path: path@ },
            WorkspaceRequest::IsDirectory { path } => RequestView::IsDirectory { path: path@ },
            WorkspaceRequest::RemoveEmptyDirectory { path } => RequestView::RemoveEmptyDirectory {
                path: path@,
            },
            WorkspaceRequest::CreateDirectories { path } => RequestView::CreateDirectories {
                path: path@,
            },
            WorkspaceRequest::TryInspectEntry { path } => RequestView::TryInspectEntry { path: path@ },
            WorkspaceRequest::TryRemoveDirectoryTree { path } => RequestView::TryRemoveDirectoryTree {
                path: path@,
            },
        }
    }
}

/// What is at a path.
#[derive(Clone, Copy, Debug, PartialEq, Eq, Structural)]
pub enum EntryKind {
    Missing,
    Directory,
    /// A file or a symbolic link.
    Other,
}

/// The answers so far, by kind, in the order the requests were made.
#[derive(Debug, Default)]
pub struct WorkspaceReplies {
    pub git: Vec<GitOutput>,
    pub paths: Vec<String>,
    pub entries: Vec<EntryKind>,
    pub flags: Vec<bool>,
    /// How many removals and creations were carried out.
    pub performed: usize,
    /// The answers to Git trials.
    pub trials: Vec<Option<GitOutput>>,
    /// The answers to entry inspection trials.
    pub trial_entries: Vec<Option<EntryKind>>,
    /// Whether the surroundings are a Windows host, whose canonical paths carry verbatim
    /// prefixes that Git does not read.
    pub windows: bool,
}

/// The content of the answers.
pub struct RepliesView {
    pub git: Seq<GitOutputView>,
    pub paths: Seq<Seq<char>>,
    pub entries: Seq<EntryKind>,
    pub flags: Seq<bool>,
    pub performed: nat,
    pub trials: Seq<Option<GitOutputView>>,
    pub trial_entries: Seq<Option<EntryKind>>,
    pub windows: bool,
}

impl View for WorkspaceReplies {
    type V = RepliesView;

    open spec fn view(&self) -> RepliesView {
        RepliesView {
            git: outputs_view(self.git@),
            paths: texts(self.paths@),
            entries: self.entries@,
            flags: self.flags@,
            performed: self.performed as nat,
            trials: self.trials@.map_values(|t: Option<GitOutput>| match t {
                Some(o) => Some(o@),
                None => None,
            }),
            trial_entries: self.trial_entries@,
            windows: self.windows,
        }
    }
}

/// The next step of an operation: a request, or the result.
#[derive(Debug)]
pub enum WorkspaceStep<T> {
    Ask(WorkspaceRequest),
    Done(Result<T, WorkspaceError>),
}

/// The content of a step.
pub enum WorkspaceStepView<T> {
    Ask(RequestView),
    Done(Result<T, WorkspaceErrorView>),
}

/// The content of a step, its result read by `f`.
pub open spec fn workspace_step_view<T, V>(step: WorkspaceStep<T>, f: spec_fn(T) -> V) -> WorkspaceStepView<V> {
    match step {
        WorkspaceStep::Ask(request) => WorkspaceStepView::Ask(request@),
        WorkspaceStep::Done(Ok(value)) => WorkspaceStepView::Done(Ok(f(value))),
        WorkspaceStep::Done(Err(e)) => WorkspaceStepView::Done(Err(e@)),
    }
}

} // verus!
