//! The conversation with the Git command line, kept apart from running it: each operation is
//! given the outputs of the commands it asked for so far and answers with the next command to
//! run in its directory, or with its result. The caller runs each command it is asked for and
//! calls the operation again with one more output; a command that cannot be started ends the
//! operation with `GitError::CommandIo`.
use vstd::prelude::*;
use crate::domain::text_view;
use crate::text::{chars_of, string_of, trim, trim_end, trimmed, trimmed_end};
use super::error::{GitError, GitErrorView};
use super::git::{
    attach_existing_branch_arguments, base_branch_candidates, base_branch_candidates_for,
    branch_exists_arguments, branch_name_check_arguments, checked_out_branch_arguments,
    clone_arguments, committed_diff_arguments, create_worktree_arguments, git_path_argument,
    git_path_text, parse_worktrees, parsed_worktrees, reference_commit_arguments,
    reference_exists_arguments, remote_head_arguments, remote_list_arguments, remote_names,
    repository_root_arguments, text_lines, texts, working_diff_arguments,
    worktree_branch_arguments, worktree_list_arguments, worktrees_view, GitReviewArtifacts,
    GitWorktree,
};

verus! {

/// What a finished Git command gave back: its exit code (none when a signal ended it), its
/// standard output when that is UTF-8, and its standard error.
#[derive(Clone, Debug, PartialEq, Eq)]
pub struct GitOutput {
    pub exit_code: Option<i32>,
    pub stdout: Option<String>,
    pub stderr: String,
}

/// The content of a command's output.
pub struct GitOutputView {
    pub exit_code: Option<i32>,
    pub stdout: Option<Seq<char>>,
    pub stderr: Seq<char>,
}

impl View for GitOutput {
    type V = GitOutputView;

    open spec fn view(&self) -> GitOutputView {
        GitOutputView { exit_code: self.exit_code, stdout: text_view(self.stdout), stderr: self.stderr@ }
    }
}

/// The contents of a list of outputs.
pub open spec fn outputs_view(v: Seq<GitOutput>) -> Seq<GitOutputView> {
    v.map_values(|o: GitOutput| o@)
}

/// The next step of an operation: a command to run (its arguments), or the result.
#[derive(Debug)]
pub enum GitStep<T> {
    Run(Vec<String>),
    Done(Result<T, GitError>),
}

/// The content of a step.
pub enum StepView<T> {
    Run(Seq<Seq<char>>),
    Done(Result<T, GitErrorView>),
}

/// The content of a step, its result read by `f`.
pub open spec fn step_view<T, V>(step: GitStep<T>, f: spec_fn(T) -> V) -> StepView<V> {
    match step {
        GitStep::Run(arguments) => StepView::Run(texts(arguments@)),
        GitStep::Done(Ok(value)) => StepView::Done(Ok(f(value))),
        GitStep::Done(Err(e)) => StepView::Done(Err(e@)),
    }
}

/// The failure that a command reports for `operation`: its exit code and trimmed error output.
pub open spec fn failed(operation: Seq<char>, reply: GitOutputView) -> GitErrorView {
    GitErrorView::CommandFailed { operation, exit_code: reply.exit_code, stderr: trim(reply.stderr) }
}

/// The answer of a command that must succeed with UTF-8 text: the text without trailing
/// whitespace.
pub open spec fn text_answer(operation: Seq<char>, reply: GitOutputView) -> Result<Seq<char>, GitErrorView> {
    if reply.exit_code != Some(0i32) {
        Err(failed(operation, reply))
    } else {
        match reply.stdout {
            Some(out) => Ok(trim_end(out)),
            None => Err(GitErrorView::NonUtf8Output { operation }),
        }
    }
}

/// The answer of a command that tests for something: exit code 0 means present, 1 absent.
pub open spec fn presence_answer(operation: Seq<char>, reply: GitOutputView) -> Result<bool, GitErrorView> {
    if reply.exit_code == Some(0i32) {
        Ok(true)
    } else if reply.exit_code == Some(1i32) {
        Ok(false)
    } else {
        Err(failed(operation, reply))
    }
}

/// An operation of one command whose text is its result.
pub open spec fn one_text(arguments: Seq<Seq<char>>, operation: Seq<char>, replies: Seq<GitOutputView>) -> StepView<Seq<char>> {
    if replies.len() == 0 {
        StepView::Run(arguments)
    } else {
        StepView::Done(text_answer(operation, replies[0]))
    }
}

/// An operation of one command that must succeed.
pub open spec fn one_command(arguments: Seq<Seq<char>>, operation: Seq<char>, replies: Seq<GitOutputView>) -> StepView<()> {
    if replies.len() == 0 {
        StepView::Run(arguments)
    } else {
        StepView::Done(
            match text_answer(operation, replies[0]) {
                Ok(_) => Ok(()),
                Err(e) => Err(e),
            },
        )
    }
}

/// An operation of one command that tests for something.
pub open spec fn one_presence(arguments: Seq<Seq<char>>, operation: Seq<char>, replies: Seq<GitOutputView>) -> StepView<bool> {
    if replies.len() == 0 {
        StepView::Run(arguments)
    } else {
        StepView::Done(presence_answer(operation, replies[0]))
    }
}

/// The arguments that resolve the commit a reference names.
pub open spec fn reference_commit_command(reference: Seq<char>) -> Seq<Seq<char>> {
    seq!["rev-parse"@, "--verify"@, "--end-of-options"@, reference + "^{commit}"@]
}

/// The arguments that test whether a reference names a commit.
pub open spec fn reference_exists_command(reference: Seq<char>) -> Seq<Seq<char>> {
    seq!["rev-parse"@, "--verify"@, "--quiet"@, "--end-of-options"@, reference + "^{commit}"@]
}

/// The arguments that read a remote's default branch.
pub open spec fn remote_head_command(remote: Seq<char>) -> Seq<Seq<char>> {
    seq!["symbolic-ref"@, "--quiet"@, "--short"@, "refs/remotes/"@ + remote + "/HEAD"@]
}

/// The arguments that summarise changes against `revision`.
pub open spec fn diff_command(revision: Seq<char>) -> Seq<Seq<char>> {
    seq!["diff"@, "--stat"@, "--no-ext-diff"@, "--stat-width=80"@, "--stat-count=20"@, revision]
}

/// Whether two references name the same commit: the commit of `left`, then that of `right`.
pub open spec fn references_answer(left: Seq<char>, right: Seq<char>, replies: Seq<GitOutputView>) -> StepView<bool> {
    if replies.len() == 0 {
        StepView::Run(reference_commit_command(left))
    } else {
        match text_answer("resolve a Git reference"@, replies[0]) {
            Err(e) => StepView::Done(Err(e)),
            Ok(left_commit) => if replies.len() == 1 {
                StepView::Run(reference_commit_command(right))
            } else {
                match text_answer("resolve a Git reference"@, replies[1]) {
                    Err(e) => StepView::Done(Err(e)),
                    Ok(right_commit) => StepView::Done(Ok(left_commit == right_commit)),
                }
            },
        }
    }
}

/// The root and checked-out branch of a worktree.
pub open spec fn identity_answer(replies: Seq<GitOutputView>) -> StepView<(Seq<char>, Seq<char>)> {
    if replies.len() == 0 {
        StepView::Run(seq!["rev-parse"@, "--show-toplevel"@])
    } else {
        match text_answer("resolve the task worktree root"@, replies[0]) {
            Err(e) => StepView::Done(Err(e)),
            Ok(root) => if replies.len() == 1 {
                StepView::Run(seq!["symbolic-ref"@, "--quiet"@, "--short"@, "HEAD"@])
            } else {
                match text_answer("resolve the task worktree branch"@, replies[1]) {
                    Err(e) => StepView::Done(Err(e)),
                    Ok(branch) => StepView::Done(Ok((root, branch))),
                }
            },
        }
    }
}

/// A summary, unless it is empty.
pub open spec fn non_empty(text: Seq<char>) -> Option<Seq<char>> {
    if text.len() > 0 {
        Some(text)
    } else {
        None
    }
}

/// The content of review material: head commit, committed and uncommitted change summaries.
pub open spec fn review_view(a: GitReviewArtifacts) -> (Option<Seq<char>>, Option<Seq<char>>, Option<Seq<char>>) {
    (text_view(a.head_commit), text_view(a.committed_diff_stat), text_view(a.working_diff_stat))
}

/// Review material of a worktree against `base_ref`. Whether the task branch moved is read from
/// the commits of `base_ref` and `HEAD`; only then are the committed changes summarised (after
/// them, the uncommitted ones) and the head commit resolved.
pub open spec fn review_answer(base_ref: Seq<char>, replies: Seq<GitOutputView>) -> StepView<(Option<Seq<char>>, Option<Seq<char>>, Option<Seq<char>>)> {
    match references_answer(base_ref, "HEAD"@, replies) {
        StepView::Run(a) => StepView::Run(a),
        StepView::Done(Err(e)) => StepView::Done(Err(e)),
        StepView::Done(Ok(unchanged)) => if !unchanged {
            if replies.len() == 2 {
                StepView::Run(diff_command(base_ref + "...HEAD"@))
            } else {
                match text_answer("summarize committed task changes"@, replies[2]) {
                    Err(e) => StepView::Done(Err(e)),
                    Ok(committed) => if replies.len() == 3 {
                        StepView::Run(diff_command("HEAD"@))
                    } else {
                        match text_answer("summarize uncommitted task changes"@, replies[3]) {
                            Err(e) => StepView::Done(Err(e)),
                            Ok(working) => if replies.len() == 4 {
                                StepView::Run(reference_commit_command("HEAD"@))
                            } else {
                                match text_answer("resolve a Git reference"@, replies[4]) {
                                    Err(e) => StepView::Done(Err(e)),
                                    Ok(head) => StepView::Done(
                                        Ok((Some(head), non_empty(committed), non_empty(working))),
                                    ),
                                }
                            },
                        }
                    },
                }
            }
        } else {
            if replies.len() == 2 {
                StepView::Run(diff_command("HEAD"@))
            } else {
                match text_answer("summarize uncommitted task changes"@, replies[2]) {
                    Err(e) => StepView::Done(Err(e)),
                    Ok(working) => StepView::Done(Ok((None, None, non_empty(working)))),
                }
            }
        },
    }
}

/// Where a search through references stands.
pub enum SearchView {
    /// The next command to run.
    Ask(Seq<Seq<char>>),
    Found(Seq<char>),
    Failed(GitErrorView),
    /// Nothing found; the search read the outputs before this index.
    Exhausted(int),
}

/// The search for a remote's default branch that exists locally, from remote `i` on, reading
/// outputs from index `j` on.
pub open spec fn remote_default_search(
    remotes: Seq<Seq<char>>,
    replies: Seq<GitOutputView>,
    i: int,
    j: int,
) -> SearchView
    decreases remotes.len() - i,
{
    if i < 0 || i >= remotes.len() {
        SearchView::Exhausted(j)
    } else if j < 0 || j >= replies.len() {
        SearchView::Ask(remote_head_command(remotes[i]))
    } else if replies[j].exit_code == Some(0i32) {
        match replies[j].stdout {
            None => SearchView::Failed(
                GitErrorView::NonUtf8Output { operation: "resolve the remote default branch"@ },
            ),
            Some(out) => if j + 1 >= replies.len() {
                SearchView::Ask(reference_exists_command(trim_end(out)))
            } else {
                match presence_answer("check whether a repository reference exists"@, replies[j + 1]) {
                    Ok(true) => SearchView::Found(trim_end(out)),
                    Ok(false) => remote_default_search(remotes, replies, i + 1, j + 2),
                    Err(e) => SearchView::Failed(e),
                }
            },
        }
    } else if replies[j].exit_code == Some(1i32) {
        remote_default_search(remotes, replies, i + 1, j + 1)
    } else {
        SearchView::Failed(failed("resolve the remote default branch"@, replies[j]))
    }
}

/// The search for the first candidate reference that exists, from candidate `i` on, reading
/// outputs from index `j` on.
pub open spec fn candidate_search(
    candidates: Seq<Seq<char>>,
    replies: Seq<GitOutputView>,
    i: int,
    j: int,
) -> SearchView
    decreases candidates.len() - i,
{
    if i < 0 || i >= candidates.len() {
        SearchView::Exhausted(j)
    } else if j < 0 || j >= replies.len() {
        SearchView::Ask(reference_exists_command(candidates[i]))
    } else {
        match presence_answer("check whether a repository reference exists"@, replies[j]) {
            Ok(true) => SearchView::Found(candidates[i]),
            Ok(false) => candidate_search(candidates, replies, i + 1, j + 1),
            Err(e) => SearchView::Failed(e),
        }
    }
}

/// How a base branch search ends once the candidates were searched.
pub open spec fn after_candidates(replies: Seq<GitOutputView>, search: SearchView) -> StepView<Seq<char>> {
    match search {
        SearchView::Ask(a) => StepView::Run(a),
        SearchView::Found(b) => StepView::Done(Ok(b)),
        SearchView::Failed(e) => StepView::Done(Err(e)),
        SearchView::Exhausted(k) => if k >= replies.len() {
            StepView::Run(seq!["rev-parse"@, "--abbrev-ref"@, "HEAD"@])
        } else {
            StepView::Done(text_answer("resolve the repository checked-out branch"@, replies[k]))
        },
    }
}

/// How a base branch search goes on once the remotes' default branches were searched.
pub open spec fn after_remotes(
    remotes: Seq<Seq<char>>,
    replies: Seq<GitOutputView>,
    search: SearchView,
) -> StepView<Seq<char>> {
    match search {
        SearchView::Ask(a) => StepView::Run(a),
        SearchView::Found(b) => StepView::Done(Ok(b)),
        SearchView::Failed(e) => StepView::Done(Err(e)),
        SearchView::Exhausted(j) => after_candidates(
            replies,
            candidate_search(base_branch_candidates_for(remotes), replies, 0, j),
        ),
    }
}

/// The branch a repository's tasks start from: the default branch of the first remote that has
/// one existing locally; else the first conventional branch that exists, locally, then on each
/// remote; else the checked-out branch.
pub open spec fn base_branch_answer(replies: Seq<GitOutputView>) -> StepView<Seq<char>> {
    if replies.len() == 0 {
        StepView::Run(seq!["remote"@])
    } else {
        match text_answer("list repository remotes"@, replies[0]) {
            Err(e) => StepView::Done(Err(e)),
            Ok(listing) => after_remotes(
                text_lines(listing),
                replies,
                remote_default_search(text_lines(listing), replies, 0, 1),
            ),
        }
    }
}

/// The failure a command reports for `operation`.
fn command_failure(operation: &'static str, reply: &GitOutput) -> (e: GitError)
    ensures
        e@ == failed(operation@, reply@),
{
    GitError::CommandFailed {
        operation,
        exit_code: reply.exit_code,
        stderr: string_of(&trimmed(&chars_of(reply.stderr.as_str()))),
    }
}

/// Reads the output of a command that must succeed with UTF-8 text.
pub(crate) fn text_reply(operation: &'static str, reply: &GitOutput) -> (r: Result<String, GitError>)
    ensures
        match text_answer(operation@, reply@) {
            Ok(t) => r matches Ok(s) && s@ == t,
            Err(e) => r matches Err(f) && f@ == e,
        },
{
    match reply.exit_code {
        Some(0) => {},
        _ => return Err(command_failure(operation, reply)),
    }
    match &reply.stdout {
        Some(out) => Ok(string_of(&trimmed_end(&chars_of(out.as_str())))),
        None => Err(GitError::NonUtf8Output { operation }),
    }
}

/// Reads the output of a command that tests for something.
pub(crate) fn presence_reply(operation: &'static str, reply: &GitOutput) -> (r: Result<bool, GitError>)
    ensures
        match presence_answer(operation@, reply@) {
            Ok(b) => r == Ok::<bool, GitError>(b),
            Err(e) => r matches Err(f) && f@ == e,
        },
{
    match reply.exit_code {
        Some(0) => Ok(true),
        Some(1) => Ok(false),
        _ => Err(command_failure(operation, reply)),
    }
}

/// The Git command line.
#[derive(Clone, Copy, Debug, Default)]
pub struct GitCli;

impl GitCli {
    fn one_text(
        &self,
        arguments: Vec<String>,
        operation: &'static str,
        replies: &Vec<GitOutput>,
    ) -> (r: GitStep<String>)
        ensures
            step_view(r, |s: String| s@) == one_text(texts(arguments@), operation@, outputs_view(replies@)),
    {
        if replies.len() == 0 {
            return GitStep::Run(arguments);
        }
        assert(outputs_view(replies@)[0] == replies@[0]@);
        GitStep::Done(text_reply(operation, &replies[0]))
    }

    fn one_command(
        &self,
        arguments: Vec<String>,
        operation: &'static str,
        replies: &Vec<GitOutput>,
    ) -> (r: GitStep<()>)
        ensures
            step_view(r, |u: ()| u) == one_command(texts(arguments@), operation@, outputs_view(replies@)),
    {
        if replies.len() == 0 {
            return GitStep::Run(arguments);
        }
        assert(outputs_view(replies@)[0] == replies@[0]@);
        match text_reply(operation, &replies[0]) {
            Ok(_) => GitStep::Done(Ok(())),
            Err(e) => GitStep::Done(Err(e)),
        }
    }

    /// The root of the repository around the directory.
    pub fn repository_root(&self, replies: &Vec<GitOutput>) -> (r: GitStep<String>)
        ensures
            step_view(r, |s: String| s@) == one_text(
                seq!["rev-parse"@, "--show-toplevel"@],
                "resolve the project repository"@,
                outputs_view(replies@),
            ),
    {
        self.one_text(repository_root_arguments(), "resolve the project repository", replies)
    }

    /// Checks that a task branch name is a valid branch name.
    pub fn validate_branch_name(&self, branch: &str, replies: &Vec<GitOutput>) -> (r: GitStep<()>)
        ensures
            step_view(r, |u: ()| u) == one_command(
                seq!["check-ref-format"@, "--branch"@, branch@],
                "validate the task branch name"@,
                outputs_view(replies@),
            ),
    {
        self.one_command(branch_name_check_arguments(branch), "validate the task branch name", replies)
    }

    /// The worktrees that the repository has registered.
    pub fn worktrees(&self, replies: &Vec<GitOutput>) -> (r: GitStep<Vec<GitWorktree>>)
        ensures
            step_view(r, |v: Vec<GitWorktree>| worktrees_view(v@)) == if replies@.len() == 0 {
                StepView::Run(seq!["worktree"@, "list"@, "--porcelain"@, "-z"@])
            } else {
                match text_answer("list registered worktrees"@, replies@[0]@) {
                    Err(e) => StepView::Done(Err(e)),
                    Ok(listing) => match parsed_worktrees(listing) {
                        Some(ws) => StepView::Done(Ok(ws)),
                        None => StepView::Done(Err(GitErrorView::MalformedWorktreeList)),
                    },
                }
            },
    {
        if replies.len() == 0 {
            return GitStep::Run(worktree_list_arguments());
        }
        match text_reply("list registered worktrees", &replies[0]) {
            Ok(listing) => GitStep::Done(parse_worktrees(listing.as_str())),
            Err(e) => GitStep::Done(Err(e)),
        }
    }

    /// Whether a local branch exists.
    pub fn branch_exists(&self, branch: &str, replies: &Vec<GitOutput>) -> (r: GitStep<bool>)
        ensures
            step_view(r, |b: bool| b) == one_presence(
                seq!["show-ref"@, "--verify"@, "--quiet"@, "refs/heads/"@ + branch@],
                "check whether the task branch exists"@,
                outputs_view(replies@),
            ),
    {
        if replies.len() == 0 {
            return GitStep::Run(branch_exists_arguments(branch));
        }
        assert(outputs_view(replies@)[0] == replies@[0]@);
        GitStep::Done(presence_reply("check whether the task branch exists", &replies[0]))
    }

    /// Whether two references name the same commit.
    pub fn references_match(&self, left: &str, right: &str, replies: &Vec<GitOutput>) -> (r: GitStep<bool>)
        ensures
            step_view(r, |b: bool| b) == references_answer(left@, right@, outputs_view(replies@)),
    {
        if replies.len() == 0 {
            return GitStep::Run(reference_commit_arguments(left));
        }
        assert(outputs_view(replies@)[0] == replies@[0]@);
        let left_commit = match text_reply("resolve a Git reference", &replies[0]) {
            Ok(c) => c,
            Err(e) => return GitStep::Done(Err(e)),
        };
        if replies.len() == 1 {
            return GitStep::Run(reference_commit_arguments(right));
        }
        assert(outputs_view(replies@)[1] == replies@[1]@);
        let right_commit = match text_reply("resolve a Git reference", &replies[1]) {
            Ok(c) => c,
            Err(e) => return GitStep::Done(Err(e)),
        };
        GitStep::Done(Ok(left_commit == right_commit))
    }

    /// Checks that a revision names a commit.
    pub fn validate_revision(&self, revision: &str, replies: &Vec<GitOutput>) -> (r: GitStep<()>)
        ensures
            step_view(r, |u: ()| u) == one_command(
                reference_commit_command(revision@),
                "resolve a Git reference"@,
                outputs_view(replies@),
            ),
    {
        self.one_command(reference_commit_arguments(revision), "resolve a Git reference", replies)
    }

    /// Creates the task branch from `base_ref` in a new worktree at `path`.
    pub fn create_worktree(&self, path: &str, branch: &str, base_ref: &str, windows: bool, replies: &Vec<GitOutput>) -> (r: GitStep<()>)
        ensures
            step_view(r, |u: ()| u) == one_command(
                seq!["worktree"@, "add"@, "-b"@, branch@, git_path_text(path@, windows), base_ref@],
                "create the task worktree"@,
                outputs_view(replies@),
            ),
    {
        let git_path = git_path_argument(path, windows);
        self.one_command(
            create_worktree_arguments(git_path.as_str(), branch, base_ref),
            "create the task worktree",
            replies,
        )
    }

    /// Clones a repository into `destination`, without its submodules.
    pub fn clone(&self, repository_url: &str, destination: &str, windows: bool, replies: &Vec<GitOutput>) -> (r: GitStep<()>)
        ensures
            step_view(r, |u: ()| u) == one_command(
                seq![
                    "clone"@,
                    "--no-recurse-submodules"@,
                    "--"@,
                    repository_url@,
                    git_path_text(destination@, windows),
                ],
                "clone the selected GitHub repository"@,
                outputs_view(replies@),
            ),
    {
        let git_path = git_path_argument(destination, windows);
        self.one_command(
            clone_arguments(repository_url, git_path.as_str()),
            "clone the selected GitHub repository",
            replies,
        )
    }

    /// Checks an existing task branch out in a new worktree at `path`.
    pub fn attach_existing_branch(&self, path: &str, branch: &str, windows: bool, replies: &Vec<GitOutput>) -> (r: GitStep<()>)
        ensures
            step_view(r, |u: ()| u) == one_command(
                seq!["worktree"@, "add"@, git_path_text(path@, windows), branch@],
                "attach the recovered task branch to its worktree"@,
                outputs_view(replies@),
            ),
    {
        let git_path = git_path_argument(path, windows);
        self.one_command(
            attach_existing_branch_arguments(git_path.as_str(), branch),
            "attach the recovered task branch to its worktree",
            replies,
        )
    }

    /// The root and the checked-out branch of the worktree around the directory.
    pub fn worktree_identity(&self, replies: &Vec<GitOutput>) -> (r: GitStep<(String, String)>)
        ensures
            step_view(r, |p: (String, String)| (p.0@, p.1@)) == identity_answer(outputs_view(replies@)),
    {
        if replies.len() == 0 {
            return GitStep::Run(repository_root_arguments());
        }
        assert(outputs_view(replies@)[0] == replies@[0]@);
        let root = match text_reply("resolve the task worktree root", &replies[0]) {
            Ok(t) => t,
            Err(e) => return GitStep::Done(Err(e)),
        };
        if replies.len() == 1 {
            return GitStep::Run(worktree_branch_arguments());
        }
        assert(outputs_view(replies@)[1] == replies@[1]@);
        let branch = match text_reply("resolve the task worktree branch", &replies[1]) {
            Ok(t) => t,
            Err(e) => return GitStep::Done(Err(e)),
        };
        GitStep::Done(Ok((root, branch)))
    }

    /// Review material of the worktree around the directory, against `base_ref`.
    pub fn review_artifacts(&self, base_ref: &str, replies: &Vec<GitOutput>) -> (r: GitStep<GitReviewArtifacts>)
        ensures
            step_view(r, |a: GitReviewArtifacts| review_view(a)) == review_answer(base_ref@, outputs_view(replies@)),
    {
        let unchanged = match self.references_match(base_ref, "HEAD", replies) {
            GitStep::Run(a) => return GitStep::Run(a),
            GitStep::Done(Err(e)) => return GitStep::Done(Err(e)),
            GitStep::Done(Ok(same)) => same,
        };
        let ghost rs = outputs_view(replies@);
        if !unchanged {
            if replies.len() == 2 {
                return GitStep::Run(committed_diff_arguments(base_ref));
            }
            assert(rs[2] == replies@[2]@);
            let committed = match text_reply("summarize committed task changes", &replies[2]) {
                Ok(t) => t,
                Err(e) => return GitStep::Done(Err(e)),
            };
            if replies.len() == 3 {
                return GitStep::Run(working_diff_arguments());
            }
            assert(rs[3] == replies@[3]@);
            let working = match text_reply("summarize uncommitted task changes", &replies[3]) {
                Ok(t) => t,
                Err(e) => return GitStep::Done(Err(e)),
            };
            if replies.len() == 4 {
                return GitStep::Run(reference_commit_arguments("HEAD"));
            }
            assert(rs[4] == replies@[4]@);
            let head = match text_reply("resolve a Git reference", &replies[4]) {
                Ok(t) => t,
                Err(e) => return GitStep::Done(Err(e)),
            };
            GitStep::Done(Ok(GitReviewArtifacts {
                head_commit: Some(head),
                committed_diff_stat: non_empty_text(committed),
                working_diff_stat: non_empty_text(working),
            }))
        } else {
            if replies.len() == 2 {
                return GitStep::Run(working_diff_arguments());
            }
            assert(rs[2] == replies@[2]@);
            let working = match text_reply("summarize uncommitted task changes", &replies[2]) {
                Ok(t) => t,
                Err(e) => return GitStep::Done(Err(e)),
            };
            GitStep::Done(Ok(GitReviewArtifacts {
                head_commit: None,
                committed_diff_stat: None,
                working_diff_stat: non_empty_text(working),
            }))
        }
    }

    /// The branch that a repository's tasks should start from.
    pub fn preferred_base_branch(&self, replies: &Vec<GitOutput>) -> (r: GitStep<String>)
        ensures
            step_view(r, |s: String| s@) == base_branch_answer(outputs_view(replies@)),
    {
        let ghost rs = outputs_view(replies@);
        if replies.len() == 0 {
            return GitStep::Run(remote_list_arguments());
        }
        assert(rs[0] == replies@[0]@);
        let listing = match text_reply("list repository remotes", &replies[0]) {
            Ok(t) => t,
            Err(e) => return GitStep::Done(Err(e)),
        };
        assert(rs.len() > 0);
        assert(text_answer("list repository remotes"@, rs[0]) == Ok::<Seq<char>, GitErrorView>(listing@));
        let remotes = remote_names(listing.as_str());
        let ghost names = text_lines(listing@);
        assert(base_branch_answer(rs) == after_remotes(names, rs, remote_default_search(names, rs, 0, 1)));
        let mut i: usize = 0;
        let mut j: usize = 1;
        while i < remotes.len()
            invariant
                rs == outputs_view(replies@),
                texts(remotes@) == names,
                i <= remotes@.len(),
                1 <= j <= replies@.len(),
                base_branch_answer(rs) == after_remotes(names, rs, remote_default_search(names, rs, 0, 1)),
                remote_default_search(names, rs, 0, 1) == remote_default_search(names, rs, i as int, j as int),
            decreases remotes@.len() - i,
        {
            assert(names[i as int] == remotes@[i as int]@);
            if j >= replies.len() {
                return GitStep::Run(remote_head_arguments(remotes[i].as_str()));
            }
            assert(rs[j as int] == replies@[j as int]@);
            let reply = &replies[j];
            match reply.exit_code {
                Some(0) => {
                    let branch = match &reply.stdout {
                        Some(out) => string_of(&trimmed_end(&chars_of(out.as_str()))),
                        None => {
                            return GitStep::Done(
                                Err(GitError::NonUtf8Output { operation: "resolve the remote default branch" }),
                            )
                        },
                    };
                    if j + 1 >= replies.len() {
                        return GitStep::Run(reference_exists_arguments(branch.as_str()));
                    }
                    assert(rs[j + 1] == replies@[j + 1]@);
                    match presence_reply("check whether a repository reference exists", &replies[j + 1]) {
                        Ok(true) => return GitStep::Done(Ok(branch)),
                        Ok(false) => {
                            i = i + 1;
                            j = j + 2;
                        },
                        Err(e) => return GitStep::Done(Err(e)),
                    }
                },
                Some(1) => {
                    i = i + 1;
                    j = j + 1;
                },
                _ => return GitStep::Done(Err(command_failure("resolve the remote default branch", reply))),
            }
        }
        let candidates = base_branch_candidates(&remotes);
        let ghost cs = base_branch_candidates_for(names);
        let ghost start = j as int;
        assert(remote_default_search(names, rs, i as int, j as int) == SearchView::Exhausted(start));
        let mut k: usize = 0;
        while k < candidates.len()
            invariant
                rs == outputs_view(replies@),
                texts(candidates@) == cs,
                k <= candidates@.len(),
                start <= j <= replies@.len(),
                base_branch_answer(rs) == after_candidates(rs, candidate_search(cs, rs, 0, start)),
                candidate_search(cs, rs, 0, start) == candidate_search(cs, rs, k as int, j as int),
            decreases candidates@.len() - k,
        {
            assert(cs[k as int] == candidates@[k as int]@);
            if j >= replies.len() {
                return GitStep::Run(reference_exists_arguments(candidates[k].as_str()));
            }
            assert(rs[j as int] == replies@[j as int]@);
            match presence_reply("check whether a repository reference exists", &replies[j]) {
                Ok(true) => return GitStep::Done(Ok(candidates[k].clone())),
                Ok(false) => {
                    k = k + 1;
                    j = j + 1;
                },
                Err(e) => return GitStep::Done(Err(e)),
            }
        }
        if j >= replies.len() {
            return GitStep::Run(checked_out_branch_arguments());
        }
        assert(rs[j as int] == replies@[j as int]@);
        GitStep::Done(text_reply("resolve the repository checked-out branch", &replies[j]))
    }
}

/// A summary, unless it is empty.
fn non_empty_text(text: String) -> (r: Option<String>)
    ensures
        text_view(r) == non_empty(text@),
{
    if text.as_str().unicode_len() > 0 {
        Some(text)
    } else {
        None
    }
}

} // verus!
