# kanban_orchestrator

The verified core of a local-first kanban orchestrator for AI coding agents. Every task runs in
its own Git worktree and every agent action passes a policy gate. The library decides, and
proves with Verus: the policy gate's decisions, with what it learns from and hands to the audit
store; the provisioning, checking and path access of task worktrees and GitHub clones, as
conversations with Git and the file system; and a set of the event store's consistency rules
(policy audit records and approvals, execution updates and activation, connector outbox delivery
and remote comparisons, supervision decisions, ticket effects, restart reconciliation, plan
confirmation, board dependencies, detail refinements, schema migrations, board attention). One
of those rules takes a verdict from the caller: whether an execution's status change is allowed
by its lifecycle. Paths are handled in their `/`-separated form.

The store's records, their serialization and most store operations are not part of the library.
The desktop side runs Git, touches the file system and holds the SQLite store, of which it
implements migrations, policy decisions and approvals, and connector outbox delivery and remote
comparisons.

## Layout

- `src/policy.rs`: the policy gate. It decides tool use, execution starts and protected Git
  actions against project limits, work item budgets and user approvals, checks a carried
  approval against the audit store and records each decision there.
- `src/workspace/`: the workspace boundary.
  - `git.rs`, `git_cli.rs`: Git arguments and the reading of Git's answers; each Git operation is
    a conversation that names the next command to run, given the outputs so far.
  - `requests.rs`, `manager.rs`, `clone_url.rs`: provisioning of task worktrees, execution checks,
    path access decisions and GitHub clones, as conversations with the surroundings (Git, path
    resolution, the file system).
  - `paths.rs`, `names.rs`, `error.rs`: path comparison and resolution, safe directory names, and
    the messages of refusals.
- `src/persistence/`: the rules of the event store: policy audit records, execution updates and
  activation, connector outbox delivery and remote comparisons, supervision decisions, ticket
  effects, restart recovery, plan confirmation, board dependencies (one board, no cycles), schema
  migrations and board attention.
- `tests/`: tests against the library, including simulated Git repositories.
- `app/`: the desktop side: Git processes, file system answers and the SQLite store.

Laws that span several operations are stated as public proof functions named `law_*`.
