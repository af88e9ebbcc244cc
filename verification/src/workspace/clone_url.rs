//! Which GitHub repository URLs may be cloned, and into which directory.
use vstd::prelude::*;
use crate::text::{
    chars_of, contains_char, has_char, pieces_view, split, split_on, string_of, strip_prefix,
    strip_suffix, stripped_prefix, stripped_suffix, trim, trim_end_char, trimmed,
    trimmed_end_char,
};
use super::error::{WorkspaceError, WorkspaceErrorView};
use super::git::{clone_arguments, git_path_argument, git_path_text};
use super::git_cli::{base_branch_answer, text_answer, text_reply, GitCli, GitOutputView, GitStep, StepView};
use super::names::{is_safe_directory_component, is_safe_directory_name};
use super::paths::{join, joined};
use super::requests::{
    workspace_step_view, EntryKind, RepliesView, RequestView, WorkspaceReplies, WorkspaceRequest,
    WorkspaceStep, WorkspaceStepView,
};

verus! {

/// A request to clone a GitHub repository below a chosen parent directory.
#[derive(Clone, Debug)]
pub struct GitHubRepositoryCloneRequest {
    pub repository_url: String,
    pub destination_parent_path: String,
}

/// A cloned project repository, ready to hold boards: where it is, its name and the branch that
/// work starts from.
#[derive(Clone, Debug, PartialEq, Eq)]
pub struct RepositorySetup {
    pub repository_path: String,
    pub name: String,
    pub base_branch: String,
}

/// The content of a repository setup.
pub struct RepositorySetupView {
    pub repository_path: Seq<char>,
    pub name: Seq<char>,
    pub base_branch: Seq<char>,
}

impl View for RepositorySetup {
    type V = RepositorySetupView;

    open spec fn view(&self) -> RepositorySetupView {
        RepositorySetupView {
            repository_path: self.repository_path@,
            name: self.name@,
            base_branch: self.base_branch@,
        }
    }
}

/// The `owner/repository` part of a supported GitHub URL: `https://github.com/`,
/// `ssh://git@github.com/` or `git@github.com:` followed by a path without trailing slashes,
/// query, fragment or backslash.
pub open spec fn github_repository_path(url: Seq<char>) -> Option<Seq<char>> {
    let url = trim(url);
    let stripped = match strip_prefix(url, "https://github.com/"@) {
        Some(p) => Some(p),
        None => match strip_prefix(url, "ssh://git@github.com/"@) {
            Some(p) => Some(p),
            None => strip_prefix(url, "git@github.com:"@),
        },
    };
    match stripped {
        Some(p) => {
            let path = trim_end_char(p, '/');
            if path.len() > 0 && !has_char(path, '?') && !has_char(path, '#') && !has_char(
                path,
                '\\',
            ) {
                Some(path)
            } else {
                None
            }
        },
        None => None,
    }
}

/// The repository name without a `.git` ending.
pub open spec fn without_git_suffix(name: Seq<char>) -> Seq<char> {
    match strip_suffix(name, ".git"@) {
        Some(n) => n,
        None => name,
    }
}

/// The directory that a clone of a GitHub URL goes to: the repository name, when the URL names
/// exactly an owner and a repository and both are safe directory names.
pub open spec fn github_directory_name(url: Seq<char>) -> Option<Seq<char>> {
    match github_repository_path(url) {
        Some(path) => {
            let segments = split_on(path, seq!['/']);
            if segments.len() == 2 && is_safe_directory_name(segments[0])
                && is_safe_directory_name(without_git_suffix(segments[1])) {
                Some(without_git_suffix(segments[1]))
            } else {
                None
            }
        },
        None => None,
    }
}

fn repository_path(url: &str) -> (r: Option<Vec<char>>)
    ensures
        r matches Some(v) ==> github_repository_path(url@) == Some(v@),
        r is None ==> github_repository_path(url@) is None,
{
    let trimmed_url = trimmed(&chars_of(url));
    let https = chars_of("https://github.com/");
    let ssh = chars_of("ssh://git@github.com/");
    let scp = chars_of("git@github.com:");
    let stripped = match stripped_prefix(&trimmed_url, &https) {
        Some(p) => Some(p),
        None => match stripped_prefix(&trimmed_url, &ssh) {
            Some(p) => Some(p),
            None => stripped_prefix(&trimmed_url, &scp),
        },
    };
    match stripped {
        Some(p) => {
            let path = trimmed_end_char(&p, '/');
            if path.len() > 0 && !contains_char(&path, '?') && !contains_char(&path, '#')
                && !contains_char(&path, '\\') {
                Some(path)
            } else {
                None
            }
        },
        None => None,
    }
}

/// The directory name for a clone of a GitHub repository URL.
pub fn github_repository_directory_name(repository_url: &str) -> (r: Result<String, WorkspaceError>)
    ensures
        r is Ok <==> github_directory_name(repository_url@) is Some,
        r matches Ok(name) ==> github_directory_name(repository_url@) == Some(name@),
        r is Err ==> r matches Err(WorkspaceError::InvalidGitHubRepositoryUrl),
{
    let path = match repository_path(repository_url) {
        Some(p) => p,
        None => return Err(WorkspaceError::InvalidGitHubRepositoryUrl),
    };
    let slash = vec!['/'];
    assert(slash@ =~= seq!['/']);
    let segments = split(&path, &slash);
    assert(pieces_view(segments@).len() == segments@.len());
    if segments.len() != 2 {
        return Err(WorkspaceError::InvalidGitHubRepositoryUrl);
    }
    let git_suffix = chars_of(".git");
    let repository = match stripped_suffix(&segments[1], &git_suffix) {
        Some(n) => n,
        None => segments[1].clone(),
    };
    if !is_safe_directory_component(&segments[0]) || !is_safe_directory_component(&repository) {
        return Err(WorkspaceError::InvalidGitHubRepositoryUrl);
    }
    Ok(string_of(&repository))
}

/// Whether a clone trial succeeded: Git started and answered with UTF-8 text.
pub open spec fn clone_succeeded(trial: Option<GitOutputView>) -> bool {
    trial matches Some(output) && text_answer("clone the selected GitHub repository"@, output) is Ok
}

/// After a clone that cannot be used: look at what is at the destination, remove it when it is a
/// real directory (never a symbolic link or a file), and report the failure without Git's
/// details.
pub open spec fn clone_cleanup(destination: Seq<char>, replies: RepliesView) -> WorkspaceStepView<RepositorySetupView> {
    if replies.trial_entries.len() == 0 {
        WorkspaceStepView::Ask(RequestView::TryInspectEntry { path: destination })
    } else if replies.trial_entries[0] == Some(EntryKind::Directory) && replies.performed == 0 {
        WorkspaceStepView::Ask(RequestView::TryRemoveDirectoryTree { path: destination })
    } else {
        WorkspaceStepView::Done(Err(WorkspaceErrorView::GitHubCloneFailed))
    }
}

/// After Git reported a clone as made: the clone is inspected as a project repository by
/// detecting its base branch in it (the Git replies so far are that conversation). A clone whose
/// base branch cannot be detected, such as a clone of an empty repository, is removed and the
/// clone reported as failed; otherwise the result is the repository's setup.
pub open spec fn clone_inspection(destination: Seq<char>, name: Seq<char>, replies: RepliesView) -> WorkspaceStepView<RepositorySetupView> {
    match base_branch_answer(replies.git) {
        StepView::Run(arguments) => WorkspaceStepView::Ask(
            RequestView::Git { directory: destination, arguments },
        ),
        StepView::Done(Ok(base_branch)) => WorkspaceStepView::Done(
            Ok(RepositorySetupView { repository_path: destination, name, base_branch }),
        ),
        StepView::Done(Err(_)) => clone_cleanup(destination, replies),
    }
}

/// Clones a GitHub repository below a chosen parent directory: the URL must name a repository
/// whose name is a safe directory name, the parent must resolve to an existing directory and the
/// destination below it must not exist. The clone is then inspected as a project repository. A
/// failed or unusable clone leaves no directory behind (only a real directory is removed, never a
/// symbolic link) and is reported without Git's details.
pub open spec fn clone_answer(
    repository_url: Seq<char>,
    destination_parent: Seq<char>,
    replies: RepliesView,
) -> WorkspaceStepView<RepositorySetupView> {
    match github_directory_name(repository_url) {
        None => WorkspaceStepView::Done(Err(WorkspaceErrorView::InvalidGitHubRepositoryUrl)),
        Some(name) => if replies.paths.len() == 0 {
            WorkspaceStepView::Ask(RequestView::ResolveExistingPath { path: destination_parent })
        } else if replies.flags.len() == 0 {
            WorkspaceStepView::Ask(RequestView::IsDirectory { path: replies.paths[0] })
        } else if !replies.flags[0] {
            WorkspaceStepView::Done(
                Err(WorkspaceErrorView::CloneDestinationMustBeDirectory { path: replies.paths[0] }),
            )
        } else if replies.entries.len() == 0 {
            WorkspaceStepView::Ask(
                RequestView::InspectEntry { path: joined(replies.paths[0], name) },
            )
        } else if replies.entries[0] != EntryKind::Missing {
            WorkspaceStepView::Done(
                Err(
                    WorkspaceErrorView::CloneDestinationOccupied {
                        path: joined(replies.paths[0], name),
                    },
                ),
            )
        } else if replies.trials.len() == 0 {
            WorkspaceStepView::Ask(
                RequestView::TryGit {
                    directory: replies.paths[0],
                    arguments: seq![
                        "clone"@,
                        "--no-recurse-submodules"@,
                        "--"@,
                        trim(repository_url),
                        git_path_text(joined(replies.paths[0], name), replies.windows),
                    ],
                },
            )
        } else if clone_succeeded(replies.trials[0]) {
            clone_inspection(joined(replies.paths[0], name), name, replies)
        } else {
            clone_cleanup(joined(replies.paths[0], name), replies)
        },
    }
}

/// Clones a GitHub repository below the chosen parent directory and inspects the clone; its
/// result is the setup of the cloned repository.
pub fn clone_github_repository(request: &GitHubRepositoryCloneRequest, replies: &WorkspaceReplies) -> (r: WorkspaceStep<RepositorySetup>)
    ensures
        workspace_step_view(r, |s: RepositorySetup| s@) == clone_answer(
            request.repository_url@,
            request.destination_parent_path@,
            replies@,
        ),
{
    let ghost rs = replies@;
    let url = string_of(&trimmed(&chars_of(request.repository_url.as_str())));
    assert(github_repository_path(url@) == github_repository_path(request.repository_url@)) by {
        crate::text::lemma_trim_idempotent(request.repository_url@);
    }
    let name = match github_repository_directory_name(url.as_str()) {
        Ok(n) => n,
        Err(e) => return WorkspaceStep::Done(Err(e)),
    };
    if replies.paths.len() == 0 {
        return WorkspaceStep::Ask(
            WorkspaceRequest::ResolveExistingPath { path: request.destination_parent_path.clone() },
        );
    }
    assert(rs.paths[0] == replies.paths@[0]@);
    let parent = &replies.paths[0];
    if replies.flags.len() == 0 {
        return WorkspaceStep::Ask(WorkspaceRequest::IsDirectory { path: parent.clone() });
    }
    if !replies.flags[0] {
        return WorkspaceStep::Done(
            Err(WorkspaceError::CloneDestinationMustBeDirectory { path: parent.clone() }),
        );
    }
    let destination = join(parent.as_str(), name.as_str());
    if replies.entries.len() == 0 {
        return WorkspaceStep::Ask(WorkspaceRequest::InspectEntry { path: destination });
    }
    if replies.entries[0] != EntryKind::Missing {
        return WorkspaceStep::Done(Err(WorkspaceError::CloneDestinationOccupied { path: destination }));
    }
    if replies.trials.len() == 0 {
        let git_destination = git_path_argument(destination.as_str(), replies.windows);
        return WorkspaceStep::Ask(
            WorkspaceRequest::TryGit {
                directory: parent.clone(),
                arguments: clone_arguments(url.as_str(), git_destination.as_str()),
            },
        );
    }
    let succeeded = match &replies.trials[0] {
        Some(output) => {
            assert(rs.trials[0] == Some(output@));
            text_reply("clone the selected GitHub repository", output).is_ok()
        },
        None => false,
    };
    if succeeded {
        match GitCli.preferred_base_branch(&replies.git) {
            GitStep::Run(arguments) => {
                return WorkspaceStep::Ask(WorkspaceRequest::Git { directory: destination, arguments });
            },
            GitStep::Done(Ok(base_branch)) => {
                return WorkspaceStep::Done(
                    Ok(RepositorySetup { repository_path: destination, name, base_branch }),
                );
            },
            GitStep::Done(Err(_)) => {},
        }
    }
    if replies.trial_entries.len() == 0 {
        return WorkspaceStep::Ask(WorkspaceRequest::TryInspectEntry { path: destination });
    }
    if replies.trial_entries[0] == Some(EntryKind::Directory) && replies.performed == 0 {
        return WorkspaceStep::Ask(WorkspaceRequest::TryRemoveDirectoryTree { path: destination });
    }
    WorkspaceStep::Done(Err(WorkspaceError::GitHubCloneFailed))
}

/// A clone never touches what already exists: Git runs only when nothing is at the destination,
/// only a directory that the clone left is removed, a clone is reported as made only once Git
/// made it and its base branch was detected, and a failed clone is reported only once such a
/// directory is gone.
pub proof fn law_clone_never_touches_existing_destinations(
    repository_url: Seq<char>,
    destination_parent: Seq<char>,
    replies: RepliesView,
)
    ensures
        clone_answer(repository_url, destination_parent, replies) matches WorkspaceStepView::Ask(
            RequestView::TryGit { .. },
        ) ==> replies.entries.len() > 0 && replies.entries[0] == EntryKind::Missing,
        clone_answer(repository_url, destination_parent, replies) matches WorkspaceStepView::Ask(
            RequestView::TryRemoveDirectoryTree { .. },
        ) ==> replies.entries[0] == EntryKind::Missing && replies.trials.len() > 0
            && replies.trial_entries.len() > 0
            && replies.trial_entries[0] == Some(EntryKind::Directory),
        clone_answer(repository_url, destination_parent, replies) matches WorkspaceStepView::Done(Ok(setup))
            ==> replies.entries[0] == EntryKind::Missing && replies.trials.len() > 0
            && clone_succeeded(replies.trials[0])
            && base_branch_answer(replies.git) == StepView::<Seq<char>>::Done(Ok(setup.base_branch)),
        clone_answer(repository_url, destination_parent, replies) == WorkspaceStepView::<RepositorySetupView>::Done(
            Err(WorkspaceErrorView::GitHubCloneFailed),
        ) ==> replies.trial_entries.len() > 0 && (replies.trial_entries[0] == Some(EntryKind::Directory)
            ==> replies.performed > 0),
{
}

} // verus!
