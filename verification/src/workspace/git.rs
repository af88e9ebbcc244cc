//! What the workspace asks of Git and how it reads Git's listings: command arguments, worktree
//! listings, remote names, and paths as Git reads them.
use vstd::prelude::*;
use crate::text::{
    chars_equal, chars_of, has_prefix, owned, pieces_view, split, split_on, starts_with,
    strip_prefix, stripped_prefix, string_of,
};
use super::error::GitError;

verus! {

/// The spelling of a list of strings.
pub open spec fn texts(v: Seq<String>) -> Seq<Seq<char>> {
    v.map_values(|s: String| s@)
}

/// One worktree that Git has registered.
#[derive(Debug, PartialEq, Eq)]
pub struct GitWorktree {
    pub path: String,
    pub branch: Option<String>,
}

/// The content of a registered worktree: its path and, unless detached, its branch reference.
pub open spec fn worktree_view(w: GitWorktree) -> (Seq<char>, Option<Seq<char>>) {
    (
        w.path@,
        match w.branch {
            Some(b) => Some(b@),
            None => None,
        },
    )
}

/// The contents of a list of worktrees.
pub open spec fn worktrees_view(v: Seq<GitWorktree>) -> Seq<(Seq<char>, Option<Seq<char>>)> {
    v.map_values(|w: GitWorktree| worktree_view(w))
}

/// The non-empty pieces, in order.
pub open spec fn nonempty_parts(pieces: Seq<Seq<char>>) -> Seq<Seq<char>>
    decreases pieces.len(),
{
    if pieces.len() == 0 {
        Seq::empty()
    } else if pieces.last().len() > 0 {
        nonempty_parts(pieces.drop_last()).push(pieces.last())
    } else {
        nonempty_parts(pieces.drop_last())
    }
}

/// The rest of the first line that starts with `prefix`.
pub open spec fn first_with_prefix(lines: Seq<Seq<char>>, prefix: Seq<char>) -> Option<Seq<char>>
    decreases lines.len(),
{
    if lines.len() == 0 {
        None
    } else {
        match strip_prefix(lines[0], prefix) {
            Some(rest) => Some(rest),
            None => first_with_prefix(lines.drop_first(), prefix),
        }
    }
}

/// One record of `git worktree list --porcelain -z`: `worktree <path>` first, then attributes
/// separated by NUL, of which `branch <reference>` names the checked-out branch.
pub open spec fn parse_record(record: Seq<char>) -> Option<(Seq<char>, Option<Seq<char>>)> {
    let lines = split_on(record, seq!['\0']);
    match strip_prefix(lines[0], "worktree "@) {
        Some(path) => Some((path, first_with_prefix(lines.drop_first(), "branch "@))),
        None => None,
    }
}

/// The records of a porcelain listing, which are separated by two NUL characters.
pub open spec fn worktree_records(output: Seq<char>) -> Seq<Seq<char>> {
    nonempty_parts(split_on(output, seq!['\0', '\0']))
}

/// Whether every record names its path.
pub open spec fn all_records_parse(records: Seq<Seq<char>>) -> bool {
    forall|i: int| 0 <= i < records.len() ==> (#[trigger] parse_record(records[i])) is Some
}

/// The worktrees of a porcelain listing, or `None` when a record names no path.
pub open spec fn parsed_worktrees(output: Seq<char>) -> Option<Seq<(Seq<char>, Option<Seq<char>>)>> {
    let records = worktree_records(output);
    if all_records_parse(records) {
        Some(Seq::new(records.len(), |i: int| parse_record(records[i])->0))
    } else {
        None
    }
}

fn first_line_with_prefix(lines: &Vec<Vec<char>>, from: usize, prefix: &[char]) -> (r: Option<Vec<char>>)
    requires
        from <= lines@.len(),
    ensures
        r matches Some(v) ==> first_with_prefix(pieces_view(lines@).subrange(from as int, lines@.len() as int), prefix@) == Some(v@),
        r is None ==> first_with_prefix(pieces_view(lines@).subrange(from as int, lines@.len() as int), prefix@) is None,
    decreases lines@.len() - from,
{
    let ghost rest = pieces_view(lines@).subrange(from as int, lines@.len() as int);
    if from == lines.len() {
        return None;
    }
    assert(rest[0] == lines@[from as int]@);
    assert(rest.drop_first() =~= pieces_view(lines@).subrange(from + 1, lines@.len() as int));
    match stripped_prefix(&lines[from], prefix) {
        Some(v) => Some(v),
        None => first_line_with_prefix(lines, from + 1, prefix),
    }
}

fn parse_one_record(record: &[char]) -> (r: Option<GitWorktree>)
    ensures
        r matches Some(w) ==> parse_record(record@) == Some(worktree_view(w)),
        r is None ==> parse_record(record@) is None,
{
    let nul = vec!['\0'];
    assert(nul@ =~= seq!['\0']);
    let lines = split(record, &nul);
    let worktree_prefix = chars_of("worktree ");
    let branch_prefix = chars_of("branch ");
    assert(pieces_view(lines@).len() == lines@.len());
    assert(lines@.len() > 0) by {
        reveal_with_fuel(split_on, 2);
        crate::text::lemma_first_match(record@, seq!['\0']);
    }
    match stripped_prefix(&lines[0], &worktree_prefix) {
        Some(path) => {
            let branch = first_line_with_prefix(&lines, 1, &branch_prefix);
            assert(pieces_view(lines@).drop_first() =~= pieces_view(lines@).subrange(1, lines@.len() as int));
            Some(GitWorktree {
                path: string_of(&path),
                branch: match branch {
                    Some(b) => Some(string_of(&b)),
                    None => None,
                },
            })
        },
        None => None,
    }
}

fn nonempty_pieces(pieces: &Vec<Vec<char>>) -> (r: Vec<Vec<char>>)
    ensures
        pieces_view(r@) == nonempty_parts(pieces_view(pieces@)),
{
    let mut r: Vec<Vec<char>> = Vec::new();
    let mut i: usize = 0;
    while i < pieces.len()
        invariant
            i <= pieces@.len(),
            pieces_view(r@) == nonempty_parts(pieces_view(pieces@).subrange(0, i as int)),
        decreases pieces@.len() - i,
    {
        let ghost before = r@;
        assert(pieces_view(pieces@).subrange(0, i + 1).drop_last() =~= pieces_view(pieces@).subrange(0, i as int));
        if pieces[i].len() > 0 {
            r.push(pieces[i].clone());
            assert(r@.drop_last() =~= before);
            assert(pieces_view(r@) =~= pieces_view(before).push(pieces@[i as int]@));
        }
        i = i + 1;
    }
    assert(pieces_view(pieces@).subrange(0, pieces@.len() as int) =~= pieces_view(pieces@));
    r
}

/// Reads the output of `git worktree list --porcelain -z`. A record without its leading
/// `worktree <path>` line makes the whole listing malformed.
pub fn parse_worktrees(output: &str) -> (r: Result<Vec<GitWorktree>, GitError>)
    ensures
        r matches Ok(v) ==> parsed_worktrees(output@) == Some(worktrees_view(v@)),
        r is Err ==> parsed_worktrees(output@) is None && r matches Err(
            GitError::MalformedWorktreeList,
        ),
{
    let text = chars_of(output);
    let separator = vec!['\0', '\0'];
    assert(separator@ =~= seq!['\0', '\0']);
    let pieces = split(&text, &separator);
    let records = nonempty_pieces(&pieces);
    let ghost spec_records = worktree_records(output@);
    assert(pieces_view(records@) == spec_records);
    assert(pieces_view(records@).len() == records@.len());
    let mut worktrees: Vec<GitWorktree> = Vec::new();
    let mut i: usize = 0;
    while i < records.len()
        invariant
            i <= records@.len(),
            pieces_view(records@) == spec_records,
            spec_records == worktree_records(output@),
            spec_records.len() == records@.len(),
            worktrees@.len() == i,
            forall|j: int| 0 <= j < i ==> parse_record(#[trigger] spec_records[j]) == Some(worktree_view(worktrees@[j])),
        decreases records@.len() - i,
    {
        assert(spec_records[i as int] == records@[i as int]@);
        match parse_one_record(&records[i]) {
            Some(w) => worktrees.push(w),
            None => {
                assert(parse_record(spec_records[i as int]) is None);
                assert(!all_records_parse(spec_records));
                return Err(GitError::MalformedWorktreeList);
            },
        }
        i = i + 1;
    }
    assert(all_records_parse(spec_records));
    assert(worktrees_view(worktrees@) =~= Seq::new(spec_records.len(), |k: int| parse_record(spec_records[k])->0));
    Ok(worktrees)
}

/// The Windows verbatim prefix of a disk path, `\\?\`.
pub open spec fn verbatim_prefix() -> Seq<char> {
    seq!['\\', '\\', '?', '\\']
}

/// The Windows verbatim prefix of a network path, `\\?\UNC\`.
pub open spec fn verbatim_unc_prefix() -> Seq<char> {
    seq!['\\', '\\', '?', '\\', 'U', 'N', 'C', '\\']
}

/// How a canonical path is written for Git. On Windows (`windows`), verbatim prefixes that Git
/// does not read are removed, and a verbatim network path becomes a `\\host\share` path;
/// elsewhere a path is written as it is.
pub open spec fn git_path_text(path: Seq<char>, windows: bool) -> Seq<char> {
    if !windows {
        path
    } else {
        match strip_prefix(path, verbatim_unc_prefix()) {
            Some(network_path) => seq!['\\', '\\'] + network_path,
            None => match strip_prefix(path, verbatim_prefix()) {
                Some(disk_path) => disk_path,
                None => path,
            },
        }
    }
}

/// Writes a canonical path the way Git reads it on the host; `windows` says whether the host is
/// Windows.
pub fn git_path_argument(path: &str, windows: bool) -> (r: String)
    ensures
        r@ == git_path_text(path@, windows),
{
    if !windows {
        return owned(path);
    }
    let text = chars_of(path);
    let unc = vec!['\\', '\\', '?', '\\', 'U', 'N', 'C', '\\'];
    let disk = vec!['\\', '\\', '?', '\\'];
    assert(unc@ =~= verbatim_unc_prefix());
    assert(disk@ =~= verbatim_prefix());
    match stripped_prefix(&text, &unc) {
        Some(network_path) => {
            let mut r = String::new();
            crate::text::push_char(&mut r, '\\');
            crate::text::push_char(&mut r, '\\');
            crate::text::push_chars(&mut r, &network_path);
            assert(r@ =~= seq!['\\', '\\'] + network_path@);
            r
        },
        None => match stripped_prefix(&text, &disk) {
            Some(disk_path) => string_of(&disk_path),
            None => string_of(&text),
        },
    }
}

/// The variables through which a caller's environment could redirect Git to another repository.
pub open spec fn repository_context_variables() -> Seq<Seq<char>> {
    seq![
        "GIT_ALTERNATE_OBJECT_DIRECTORIES"@,
        "GIT_CEILING_DIRECTORIES"@,
        "GIT_COMMON_DIR"@,
        "GIT_DIR"@,
        "GIT_DISCOVERY_ACROSS_FILESYSTEM"@,
        "GIT_INDEX_FILE"@,
        "GIT_NAMESPACE"@,
        "GIT_OBJECT_DIRECTORY"@,
        "GIT_WORK_TREE"@,
    ]
}

/// The variables that every Git command is started without.
pub fn repository_context_environment_variables() -> (r: Vec<&'static str>)
    ensures
        r@.map_values(|s: &str| s@) == repository_context_variables(),
{
    let mut r: Vec<&'static str> = Vec::new();
    r.push("GIT_ALTERNATE_OBJECT_DIRECTORIES");
    r.push("GIT_CEILING_DIRECTORIES");
    r.push("GIT_COMMON_DIR");
    r.push("GIT_DIR");
    r.push("GIT_DISCOVERY_ACROSS_FILESYSTEM");
    r.push("GIT_INDEX_FILE");
    r.push("GIT_NAMESPACE");
    r.push("GIT_OBJECT_DIRECTORY");
    r.push("GIT_WORK_TREE");
    assert(r@.map_values(|s: &str| s@) =~= repository_context_variables());
    r
}

/// Whether an inherited variable could redirect Git: one of the listed ones, or any
/// `GIT_CONFIG_*` variable.
pub open spec fn is_repository_context_variable(variable: Seq<char>) -> bool {
    repository_context_variables().contains(variable) || has_prefix(variable, "GIT_CONFIG_"@)
}

/// Whether an inherited variable must be removed before Git starts.
pub fn is_repository_context_environment_variable(variable: &str) -> (r: bool)
    ensures
        r == is_repository_context_variable(variable@),
{
    let known = repository_context_environment_variables();
    let name = chars_of(variable);
    let mut i: usize = 0;
    while i < known.len()
        invariant
            i <= known@.len(),
            known@.map_values(|s: &str| s@) == repository_context_variables(),
            name@ == variable@,
            forall|j: int| 0 <= j < i ==> repository_context_variables()[j] != variable@,
        decreases known@.len() - i,
    {
        assert(repository_context_variables()[i as int] == known@[i as int]@);
        if chars_equal(&name, &chars_of(known[i])) {
            assert(repository_context_variables()[i as int] == variable@);
            return true;
        }
        i = i + 1;
    }
    assert(!repository_context_variables().contains(variable@)) by {
        if repository_context_variables().contains(variable@) {
            let k = choose|k: int| 0 <= k < repository_context_variables().len() && repository_context_variables()[k] == variable@;
            assert(repository_context_variables()[k] != variable@);
        }
    }
    starts_with(&name, &chars_of("GIT_CONFIG_"))
}

/// Review material of a task worktree.
#[derive(Clone, Debug, Default, PartialEq, Eq)]
pub struct GitReviewArtifacts {
    pub head_commit: Option<String>,
    pub committed_diff_stat: Option<String>,
    pub working_diff_stat: Option<String>,
}

/// Appends one argument.
fn push_argument(arguments: &mut Vec<String>, argument: &str)
    ensures
        texts(final(arguments)@) == texts(old(arguments)@).push(argument@),
{
    arguments.push(owned(argument));
    assert(texts(arguments@) =~= texts(old(arguments)@).push(argument@));
}

/// Appends one argument made of two texts.
fn push_joined_argument(arguments: &mut Vec<String>, first: &str, second: &str)
    ensures
        texts(final(arguments)@) == texts(old(arguments)@).push(first@ + second@),
{
    let mut a = owned(first);
    a.append(second);
    arguments.push(a);
    assert(texts(arguments@) =~= texts(old(arguments)@).push(first@ + second@));
}

/// `rev-parse --show-toplevel`: the root of the repository around a directory.
pub fn repository_root_arguments() -> (r: Vec<String>)
    ensures
        texts(r@) == seq!["rev-parse"@, "--show-toplevel"@],
{
    let mut r: Vec<String> = Vec::new();
    push_argument(&mut r, "rev-parse");
    push_argument(&mut r, "--show-toplevel");
    r
}

/// `check-ref-format --branch <branch>`: whether a task branch name is valid.
pub fn branch_name_check_arguments(branch: &str) -> (r: Vec<String>)
    ensures
        texts(r@) == seq!["check-ref-format"@, "--branch"@, branch@],
{
    let mut r: Vec<String> = Vec::new();
    push_argument(&mut r, "check-ref-format");
    push_argument(&mut r, "--branch");
    push_argument(&mut r, branch);
    r
}

/// `worktree list --porcelain -z`: the registered worktrees.
pub fn worktree_list_arguments() -> (r: Vec<String>)
    ensures
        texts(r@) == seq!["worktree"@, "list"@, "--porcelain"@, "-z"@],
{
    let mut r: Vec<String> = Vec::new();
    push_argument(&mut r, "worktree");
    push_argument(&mut r, "list");
    push_argument(&mut r, "--porcelain");
    push_argument(&mut r, "-z");
    r
}

/// `show-ref --verify --quiet refs/heads/<branch>`: whether a local branch exists.
pub fn branch_exists_arguments(branch: &str) -> (r: Vec<String>)
    ensures
        texts(r@) == seq!["show-ref"@, "--verify"@, "--quiet"@, "refs/heads/"@ + branch@],
{
    let mut r: Vec<String> = Vec::new();
    push_argument(&mut r, "show-ref");
    push_argument(&mut r, "--verify");
    push_argument(&mut r, "--quiet");
    push_joined_argument(&mut r, "refs/heads/", branch);
    r
}

/// `rev-parse --verify --end-of-options <reference>^{commit}`: the commit a reference names.
/// The reference stands after `--end-of-options`, so Git never reads it as an option.
pub fn reference_commit_arguments(reference: &str) -> (r: Vec<String>)
    ensures
        texts(r@) == seq!["rev-parse"@, "--verify"@, "--end-of-options"@, reference@ + "^{commit}"@],
{
    let mut r: Vec<String> = Vec::new();
    push_argument(&mut r, "rev-parse");
    push_argument(&mut r, "--verify");
    push_argument(&mut r, "--end-of-options");
    push_joined_argument(&mut r, reference, "^{commit}");
    r
}

/// `rev-parse --verify --quiet --end-of-options <reference>^{commit}`: whether a reference names
/// a commit.
pub fn reference_exists_arguments(reference: &str) -> (r: Vec<String>)
    ensures
        texts(r@) == seq![
            "rev-parse"@,
            "--verify"@,
            "--quiet"@,
            "--end-of-options"@,
            reference@ + "^{commit}"@,
        ],
{
    let mut r: Vec<String> = Vec::new();
    push_argument(&mut r, "rev-parse");
    push_argument(&mut r, "--verify");
    push_argument(&mut r, "--quiet");
    push_argument(&mut r, "--end-of-options");
    push_joined_argument(&mut r, reference, "^{commit}");
    r
}

/// `worktree add -b <branch> <path> <base>`: a new task branch in a new worktree.
pub fn create_worktree_arguments(path: &str, branch: &str, base_ref: &str) -> (r: Vec<String>)
    ensures
        texts(r@) == seq!["worktree"@, "add"@, "-b"@, branch@, path@, base_ref@],
{
    let mut r: Vec<String> = Vec::new();
    push_argument(&mut r, "worktree");
    push_argument(&mut r, "add");
    push_argument(&mut r, "-b");
    push_argument(&mut r, branch);
    push_argument(&mut r, path);
    push_argument(&mut r, base_ref);
    r
}

/// `worktree add <path> <branch>`: an existing task branch in a new worktree.
pub fn attach_existing_branch_arguments(path: &str, branch: &str) -> (r: Vec<String>)
    ensures
        texts(r@) == seq!["worktree"@, "add"@, path@, branch@],
{
    let mut r: Vec<String> = Vec::new();
    push_argument(&mut r, "worktree");
    push_argument(&mut r, "add");
    push_argument(&mut r, path);
    push_argument(&mut r, branch);
    r
}

/// `clone --no-recurse-submodules -- <url> <destination>`: the URL stands after `--`.
pub fn clone_arguments(repository_url: &str, destination: &str) -> (r: Vec<String>)
    ensures
        texts(r@) == seq!["clone"@, "--no-recurse-submodules"@, "--"@, repository_url@, destination@],
{
    let mut r: Vec<String> = Vec::new();
    push_argument(&mut r, "clone");
    push_argument(&mut r, "--no-recurse-submodules");
    push_argument(&mut r, "--");
    push_argument(&mut r, repository_url);
    push_argument(&mut r, destination);
    r
}

/// `symbolic-ref --quiet --short HEAD`: the branch a worktree has checked out.
pub fn worktree_branch_arguments() -> (r: Vec<String>)
    ensures
        texts(r@) == seq!["symbolic-ref"@, "--quiet"@, "--short"@, "HEAD"@],
{
    let mut r: Vec<String> = Vec::new();
    push_argument(&mut r, "symbolic-ref");
    push_argument(&mut r, "--quiet");
    push_argument(&mut r, "--short");
    push_argument(&mut r, "HEAD");
    r
}

/// `diff --stat ... <base>...HEAD`: a summary of the task branch's committed changes.
pub fn committed_diff_arguments(base_ref: &str) -> (r: Vec<String>)
    ensures
        texts(r@) == seq![
            "diff"@,
            "--stat"@,
            "--no-ext-diff"@,
            "--stat-width=80"@,
            "--stat-count=20"@,
            base_ref@ + "...HEAD"@,
        ],
{
    let mut r: Vec<String> = Vec::new();
    push_argument(&mut r, "diff");
    push_argument(&mut r, "--stat");
    push_argument(&mut r, "--no-ext-diff");
    push_argument(&mut r, "--stat-width=80");
    push_argument(&mut r, "--stat-count=20");
    push_joined_argument(&mut r, base_ref, "...HEAD");
    r
}

/// `diff --stat ... HEAD`: a summary of the uncommitted changes.
pub fn working_diff_arguments() -> (r: Vec<String>)
    ensures
        texts(r@) == seq![
            "diff"@,
            "--stat"@,
            "--no-ext-diff"@,
            "--stat-width=80"@,
            "--stat-count=20"@,
            "HEAD"@,
        ],
{
    let mut r: Vec<String> = Vec::new();
    push_argument(&mut r, "diff");
    push_argument(&mut r, "--stat");
    push_argument(&mut r, "--no-ext-diff");
    push_argument(&mut r, "--stat-width=80");
    push_argument(&mut r, "--stat-count=20");
    push_argument(&mut r, "HEAD");
    r
}

/// `remote`: the names of the repository's remotes.
pub fn remote_list_arguments() -> (r: Vec<String>)
    ensures
        texts(r@) == seq!["remote"@],
{
    let mut r: Vec<String> = Vec::new();
    push_argument(&mut r, "remote");
    r
}

/// `symbolic-ref --quiet --short refs/remotes/<remote>/HEAD`: a remote's default branch.
pub fn remote_head_arguments(remote: &str) -> (r: Vec<String>)
    ensures
        texts(r@) == seq![
            "symbolic-ref"@,
            "--quiet"@,
            "--short"@,
            "refs/remotes/"@ + remote@ + "/HEAD"@,
        ],
{
    let mut r: Vec<String> = Vec::new();
    push_argument(&mut r, "symbolic-ref");
    push_argument(&mut r, "--quiet");
    push_argument(&mut r, "--short");
    let mut head = owned("refs/remotes/");
    head.append(remote);
    head.append("/HEAD");
    let ghost before = r@;
    r.push(head);
    assert(texts(r@) =~= texts(before).push(head@));
    assert(texts(r@) =~= seq![
        "symbolic-ref"@,
        "--quiet"@,
        "--short"@,
        "refs/remotes/"@ + remote@ + "/HEAD"@,
    ]);
    r
}

/// `rev-parse --abbrev-ref HEAD`: the branch the repository has checked out.
pub fn checked_out_branch_arguments() -> (r: Vec<String>)
    ensures
        texts(r@) == seq!["rev-parse"@, "--abbrev-ref"@, "HEAD"@],
{
    let mut r: Vec<String> = Vec::new();
    push_argument(&mut r, "rev-parse");
    push_argument(&mut r, "--abbrev-ref");
    push_argument(&mut r, "HEAD");
    r
}

/// The branches that conventionally hold a repository's main line, in order of preference.
pub open spec fn conventional_branches() -> Seq<Seq<char>> {
    seq!["main"@, "master"@, "trunk"@]
}

/// The references to try, in order, for a repository's base branch once no remote names a
/// default branch: the conventional branches, then each remote's conventional branches.
pub open spec fn base_branch_candidates_for(remotes: Seq<Seq<char>>) -> Seq<Seq<char>>
    decreases remotes.len(),
{
    if remotes.len() == 0 {
        conventional_branches()
    } else {
        let r = remotes.last();
        base_branch_candidates_for(remotes.drop_last()) + seq![
            r + "/main"@,
            r + "/master"@,
            r + "/trunk"@,
        ]
    }
}

/// The references to try, in order, for a repository's base branch.
pub fn base_branch_candidates(remotes: &Vec<String>) -> (r: Vec<String>)
    ensures
        texts(r@) == base_branch_candidates_for(texts(remotes@)),
{
    let mut r: Vec<String> = Vec::new();
    push_argument(&mut r, "main");
    push_argument(&mut r, "master");
    push_argument(&mut r, "trunk");
    assert(texts(remotes@).subrange(0, 0) =~= Seq::<Seq<char>>::empty());
    let mut i: usize = 0;
    while i < remotes.len()
        invariant
            i <= remotes@.len(),
            texts(r@) == base_branch_candidates_for(texts(remotes@).subrange(0, i as int)),
        decreases remotes@.len() - i,
    {
        let remote = remotes[i].as_str();
        push_joined_argument(&mut r, remote, "/main");
        push_joined_argument(&mut r, remote, "/master");
        push_joined_argument(&mut r, remote, "/trunk");
        assert(texts(remotes@).subrange(0, i + 1).drop_last() =~= texts(remotes@).subrange(0, i as int));
        assert(texts(remotes@).subrange(0, i + 1).last() == remotes@[i as int]@);
        i = i + 1;
    }
    assert(texts(remotes@).subrange(0, remotes@.len() as int) =~= texts(remotes@));
    r
}

/// The lines of a text as `str::lines` reads them: split at `\n`, one trailing `\r` removed from
/// each, and no line after a final `\n`.
pub open spec fn text_lines(text: Seq<char>) -> Seq<Seq<char>> {
    let pieces = split_on(text, seq!['\n']);
    let kept = if pieces.last().len() == 0 {
        pieces.drop_last()
    } else {
        pieces
    };
    kept.map_values(|line: Seq<char>| if line.len() > 0 && line.last() == '\r' {
        line.drop_last()
    } else {
        line
    })
}

/// The remote names listed by `git remote`, one per line.
pub fn remote_names(listing: &str) -> (r: Vec<String>)
    ensures
        texts(r@) == text_lines(listing@),
{
    let text = chars_of(listing);
    let newline = vec!['\n'];
    assert(newline@ =~= seq!['\n']);
    let pieces = split(&text, &newline);
    let ghost spec_pieces = split_on(listing@, seq!['\n']);
    assert(pieces_view(pieces@).len() == pieces@.len());
    assert(pieces@.len() > 0) by {
        reveal_with_fuel(split_on, 2);
        crate::text::lemma_first_match(listing@, seq!['\n']);
    }
    let count = if pieces[pieces.len() - 1].len() == 0 {
        pieces.len() - 1
    } else {
        pieces.len()
    };
    let ghost kept = if spec_pieces.last().len() == 0 {
        spec_pieces.drop_last()
    } else {
        spec_pieces
    };
    assert(kept =~= pieces_view(pieces@).subrange(0, count as int));
    let mut r: Vec<String> = Vec::new();
    let mut i: usize = 0;
    while i < count
        invariant
            count <= pieces@.len(),
            i <= count,
            kept =~= pieces_view(pieces@).subrange(0, count as int),
            texts(r@) == kept.subrange(0, i as int).map_values(|line: Seq<char>| if line.len() > 0 && line.last() == '\r' {
                line.drop_last()
            } else {
                line
            }),
        decreases count - i,
    {
        let line = &pieces[i];
        let n = line.len();
        let text_line = if n > 0 && line[n - 1] == '\r' {
            crate::text::slice_chars(line, 0, n - 1)
        } else {
            crate::text::slice_chars(line, 0, n)
        };
        assert(line@.subrange(0, n as int) =~= line@);
        assert(line@.drop_last() =~= line@.subrange(0, n - 1));
        let ghost before = r@;
        r.push(string_of(&text_line));
        assert(kept[i as int] == line@);
        assert(texts(r@) =~= texts(before).push(text_line@));
        i = i + 1;
    }
    assert(kept.subrange(0, count as int) =~= kept);
    r
}

} // verus!
