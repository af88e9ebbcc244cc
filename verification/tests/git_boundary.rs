use kanban_orchestrator::workspace::git::{
    attach_existing_branch_arguments, base_branch_candidates, branch_exists_arguments,
    clone_arguments, committed_diff_arguments, create_worktree_arguments, git_path_argument,
    is_repository_context_environment_variable, parse_worktrees, reference_commit_arguments,
    remote_head_arguments, remote_names, repository_context_environment_variables,
    working_diff_arguments,
};
use kanban_orchestrator::workspace::git_cli::{GitCli, GitOutput, GitStep};
use kanban_orchestrator::workspace::GitError;

fn output(stdout: &str) -> GitOutput {
    GitOutput {
        exit_code: Some(0),
        stdout: Some(stdout.to_owned()),
        stderr: String::new(),
    }
}

fn exit(code: i32, stderr: &str) -> GitOutput {
    GitOutput {
        exit_code: Some(code),
        stdout: Some(String::new()),
        stderr: stderr.to_owned(),
    }
}

/// Runs a Git conversation against scripted outputs, keyed by the command's arguments.
fn converse<T>(
    operation: impl Fn(&Vec<GitOutput>) -> GitStep<T>,
    script: &[(&[&str], GitOutput)],
) -> (Result<T, GitError>, Vec<Vec<String>>) {
    let mut replies = Vec::new();
    let mut commands = Vec::new();
    loop {
        match operation(&replies) {
            GitStep::Done(result) => return (result, commands),
            GitStep::Run(arguments) => {
                let reply = script
                    .iter()
                    .find(|(expected, _)| *expected == arguments.as_slice())
                    .map(|(_, reply)| reply.clone())
                    .unwrap_or_else(|| panic!("unexpected command {arguments:?}"));
                commands.push(arguments);
                replies.push(reply);
            }
        }
    }
}

#[test]
fn parses_attached_and_detached_worktrees() {
    let worktrees = parse_worktrees(
        "worktree /workspace/project\0HEAD abc123\0branch refs/heads/main\0\0worktree /workspace/task\0HEAD def456\0detached\0\0",
    )
    .expect("Git worktree output should parse");

    assert_eq!(worktrees.len(), 2);
    assert_eq!(worktrees[0].branch.as_deref(), Some("refs/heads/main"));
    assert!(worktrees[1].branch.is_none());
}

#[test]
fn rejects_worktree_records_without_a_path() {
    assert!(parse_worktrees("HEAD abc123\0\0").is_err());
}

#[test]
fn converts_verbatim_disk_and_network_paths_for_git() {
    assert_eq!(
        git_path_argument(r"\\?\C:\workspace\task-1", true),
        r"C:\workspace\task-1"
    );
    assert_eq!(
        git_path_argument(r"\\?\UNC\host\share\task-1", true),
        r"\\host\share\task-1"
    );
}

#[test]
fn leaves_ordinary_paths_unchanged_for_git() {
    assert_eq!(git_path_argument("/workspace/task-1", true), "/workspace/task-1");
    assert_eq!(git_path_argument(r"C:\workspace", true), r"C:\workspace");
    assert_eq!(
        git_path_argument(r"\\?\C:\workspace\task-1", false),
        r"\\?\C:\workspace\task-1"
    );
}

#[test]
fn reads_worktree_paths_and_an_empty_listing() {
    let worktrees = parse_worktrees("worktree /a b\0branch refs/heads/kanban/x\0\0")
        .expect("a single record should parse");
    assert_eq!(worktrees.len(), 1);
    assert_eq!(worktrees[0].path, "/a b");
    assert_eq!(worktrees[0].branch.as_deref(), Some("refs/heads/kanban/x"));
    assert!(parse_worktrees("").expect("no records").is_empty());
    assert!(matches!(
        parse_worktrees("worktree /a\0\0bare\0\0"),
        Err(GitError::MalformedWorktreeList)
    ));
}

#[test]
fn names_every_variable_that_could_redirect_git() {
    let variables = repository_context_environment_variables();
    assert_eq!(variables.len(), 9);
    for variable in &variables {
        assert!(is_repository_context_environment_variable(variable));
    }
    assert!(is_repository_context_environment_variable("GIT_CONFIG_KEY_0"));
    assert!(is_repository_context_environment_variable("GIT_CONFIG_VALUE_0"));
    assert!(is_repository_context_environment_variable("GIT_CONFIG_GLOBAL"));
    assert!(is_repository_context_environment_variable("GIT_DIR"));
    assert!(!is_repository_context_environment_variable("GIT_PAGER"));
    assert!(!is_repository_context_environment_variable("GIT_CONFIG"));
}

#[test]
fn reads_command_outcomes() {
    let git = GitCli;
    let (root, _) = converse(
        |replies| git.repository_root(replies),
        &[(&["rev-parse", "--show-toplevel"], output("/workspace/project\n"))],
    );
    assert_eq!(root.expect("successful output"), "/workspace/project");
    let non_utf8 = GitOutput {
        exit_code: Some(0),
        stdout: None,
        stderr: String::new(),
    };
    assert!(matches!(
        converse(|replies| git.repository_root(replies), &[(&["rev-parse", "--show-toplevel"], non_utf8)]).0,
        Err(GitError::NonUtf8Output { operation: "resolve the project repository" })
    ));
    match converse(
        |replies| git.create_worktree("/w/task-1", "kanban/task-1", "main", false, replies),
        &[(
            &["worktree", "add", "-b", "kanban/task-1", "/w/task-1", "main"],
            exit(128, "  fatal: invalid reference: main\n"),
        )],
    )
    .0
    {
        Err(error @ GitError::CommandFailed { .. }) => assert_eq!(
            error.to_string(),
            "Git could not create the task worktree (exit code 128): fatal: invalid reference: main"
        ),
        other => panic!("unexpected outcome {other:?}"),
    }
    let presence = |reply: GitOutput| {
        converse(
            |replies| git.branch_exists("kanban/task-1", replies),
            &[(&["show-ref", "--verify", "--quiet", "refs/heads/kanban/task-1"], reply)],
        )
        .0
    };
    assert!(matches!(presence(output("")), Ok(true)));
    assert!(matches!(presence(exit(1, "")), Ok(false)));
    assert!(matches!(
        presence(exit(2, "boom")),
        Err(GitError::CommandFailed { exit_code: Some(2), .. })
    ));
    let killed = GitOutput {
        exit_code: None,
        stdout: None,
        stderr: String::new(),
    };
    assert!(matches!(
        presence(killed),
        Err(GitError::CommandFailed { exit_code: None, .. })
    ));
}

#[test]
fn compares_references_by_their_commits() {
    let git = GitCli;
    let script: &[(&[&str], GitOutput)] = &[
        (&["rev-parse", "--verify", "--end-of-options", "main^{commit}"], output("abc\n")),
        (&["rev-parse", "--verify", "--end-of-options", "kanban/task-1^{commit}"], output("abc\n")),
        (&["rev-parse", "--verify", "--end-of-options", "HEAD^{commit}"], output("def\n")),
    ];
    assert!(converse(|r| git.references_match("kanban/task-1", "main", r), script).0.expect("same"));
    assert!(!converse(|r| git.references_match("HEAD", "main", r), script).0.expect("moved"));
    let (missing, commands) = converse(
        |r| git.references_match("missing", "main", r),
        &[(
            &["rev-parse", "--verify", "--end-of-options", "missing^{commit}"],
            exit(128, "fatal"),
        )],
    );
    assert!(matches!(missing, Err(GitError::CommandFailed { .. })));
    assert_eq!(commands.len(), 1);
    assert!(converse(|r| git.validate_revision("main", r), script).0.is_ok());
}

#[test]
fn reads_the_identity_of_a_worktree() {
    let git = GitCli;
    let (identity, _) = converse(
        |replies| git.worktree_identity(replies),
        &[
            (&["rev-parse", "--show-toplevel"], output("/w/task-1\n")),
            (&["symbolic-ref", "--quiet", "--short", "HEAD"], output("kanban/task-1\n")),
        ],
    );
    assert_eq!(
        identity.expect("identity"),
        ("/w/task-1".to_owned(), "kanban/task-1".to_owned())
    );
}

#[test]
fn collects_review_material_only_for_a_moved_task_branch() {
    let git = GitCli;
    let moved: &[(&[&str], GitOutput)] = &[
        (&["rev-parse", "--verify", "--end-of-options", "main^{commit}"], output("abc\n")),
        (&["rev-parse", "--verify", "--end-of-options", "HEAD^{commit}"], output("def\n")),
        (
            &["diff", "--stat", "--no-ext-diff", "--stat-width=80", "--stat-count=20", "main...HEAD"],
            output(" README.md | 2 +-\n"),
        ),
        (
            &["diff", "--stat", "--no-ext-diff", "--stat-width=80", "--stat-count=20", "HEAD"],
            output(""),
        ),
    ];
    let artifacts = converse(|r| git.review_artifacts("main", r), moved)
        .0
        .expect("review artifacts should collect");
    assert_eq!(artifacts.head_commit.as_deref(), Some("def"));
    assert_eq!(artifacts.committed_diff_stat.as_deref(), Some(" README.md | 2 +-"));
    assert!(artifacts.working_diff_stat.is_none());

    let unmoved: &[(&[&str], GitOutput)] = &[
        (&["rev-parse", "--verify", "--end-of-options", "main^{commit}"], output("abc\n")),
        (&["rev-parse", "--verify", "--end-of-options", "HEAD^{commit}"], output("abc\n")),
        (
            &["diff", "--stat", "--no-ext-diff", "--stat-width=80", "--stat-count=20", "HEAD"],
            output(" x | 1 +\n"),
        ),
    ];
    let (artifacts, commands) = converse(|r| git.review_artifacts("main", r), unmoved);
    let artifacts = artifacts.expect("review artifacts should collect");
    assert!(artifacts.head_commit.is_none());
    assert!(artifacts.committed_diff_stat.is_none());
    assert_eq!(artifacts.working_diff_stat.as_deref(), Some(" x | 1 +"));
    assert_eq!(commands.len(), 3);
}

#[test]
fn prefers_a_remote_default_branch_then_conventional_branches() {
    let git = GitCli;
    let remote_default: &[(&[&str], GitOutput)] = &[
        (&["remote"], output("origin\n")),
        (
            &["symbolic-ref", "--quiet", "--short", "refs/remotes/origin/HEAD"],
            output("origin/develop\n"),
        ),
        (
            &["rev-parse", "--verify", "--quiet", "--end-of-options", "origin/develop^{commit}"],
            output("abc\n"),
        ),
    ];
    assert_eq!(
        converse(|r| git.preferred_base_branch(r), remote_default).0.expect("branch"),
        "origin/develop"
    );
    let conventional: &[(&[&str], GitOutput)] = &[
        (&["remote"], output("origin\n")),
        (&["symbolic-ref", "--quiet", "--short", "refs/remotes/origin/HEAD"], exit(1, "")),
        (&["rev-parse", "--verify", "--quiet", "--end-of-options", "main^{commit}"], exit(1, "")),
        (&["rev-parse", "--verify", "--quiet", "--end-of-options", "master^{commit}"], output("abc\n")),
    ];
    assert_eq!(
        converse(|r| git.preferred_base_branch(r), conventional).0.expect("branch"),
        "master"
    );
    let checked_out: &[(&[&str], GitOutput)] = &[
        (&["remote"], output("")),
        (&["rev-parse", "--verify", "--quiet", "--end-of-options", "main^{commit}"], exit(1, "")),
        (&["rev-parse", "--verify", "--quiet", "--end-of-options", "master^{commit}"], exit(1, "")),
        (&["rev-parse", "--verify", "--quiet", "--end-of-options", "trunk^{commit}"], exit(1, "")),
        (&["rev-parse", "--abbrev-ref", "HEAD"], output("feature\n")),
    ];
    assert_eq!(
        converse(|r| git.preferred_base_branch(r), checked_out).0.expect("branch"),
        "feature"
    );
    let broken: &[(&[&str], GitOutput)] = &[
        (&["remote"], output("origin\n")),
        (&["symbolic-ref", "--quiet", "--short", "refs/remotes/origin/HEAD"], exit(128, "fatal")),
    ];
    assert!(matches!(
        converse(|r| git.preferred_base_branch(r), broken).0,
        Err(GitError::CommandFailed { operation: "resolve the remote default branch", .. })
    ));
}

#[test]
fn lists_registered_worktrees_through_git() {
    let git = GitCli;
    let (worktrees, _) = converse(
        |replies| git.worktrees(replies),
        &[(
            &["worktree", "list", "--porcelain", "-z"],
            output("worktree /p\0HEAD abc\0branch refs/heads/main\0\0"),
        )],
    );
    let worktrees = worktrees.expect("listing");
    assert_eq!(worktrees.len(), 1);
    assert_eq!(worktrees[0].path, "/p");
    assert!(converse(|r| git.validate_branch_name("kanban/task-1", r), &[(&["check-ref-format", "--branch", "kanban/task-1"], output(""))]).0.is_ok());
    assert!(converse(|r| git.attach_existing_branch("/w/t", "kanban/t", false, r), &[(&["worktree", "add", "/w/t", "kanban/t"], output(""))]).0.is_ok());
    assert!(converse(|r| git.clone("https://github.com/a/b", "/tmp/b", false, r), &[(&["clone", "--no-recurse-submodules", "--", "https://github.com/a/b", "/tmp/b"], output(""))]).0.is_ok());
}

#[test]
fn builds_git_arguments_that_keep_user_values_out_of_option_position() {
    assert_eq!(
        create_worktree_arguments("/w/task-1", "kanban/task-1", "main"),
        vec!["worktree", "add", "-b", "kanban/task-1", "/w/task-1", "main"]
    );
    assert_eq!(
        attach_existing_branch_arguments("/w/task-1", "kanban/task-1"),
        vec!["worktree", "add", "/w/task-1", "kanban/task-1"]
    );
    assert_eq!(
        clone_arguments("https://github.com/acme/app", "/tmp/app"),
        vec![
            "clone",
            "--no-recurse-submodules",
            "--",
            "https://github.com/acme/app",
            "/tmp/app"
        ]
    );
    assert_eq!(
        reference_commit_arguments("--quiet"),
        vec!["rev-parse", "--verify", "--end-of-options", "--quiet^{commit}"]
    );
    assert_eq!(
        committed_diff_arguments("main").last().map(String::as_str),
        Some("main...HEAD")
    );
    assert_eq!(
        working_diff_arguments().last().map(String::as_str),
        Some("HEAD")
    );
    assert_eq!(
        remote_head_arguments("origin").last().map(String::as_str),
        Some("refs/remotes/origin/HEAD")
    );
    assert!(branch_exists_arguments("kanban/task-1")
        .iter()
        .any(|argument| argument == "refs/heads/kanban/task-1"));
}

#[test]
fn orders_base_branch_candidates_from_local_to_remote() {
    let remotes = remote_names("origin\r\nupstream\n");
    assert_eq!(remotes, vec!["origin", "upstream"]);
    assert_eq!(
        base_branch_candidates(&remotes),
        vec![
            "main",
            "master",
            "trunk",
            "origin/main",
            "origin/master",
            "origin/trunk",
            "upstream/main",
            "upstream/master",
            "upstream/trunk",
        ]
    );
    assert!(remote_names("").is_empty());
}

