//! Records and identifiers that the policy, workspace and persistence rules share.
use vstd::prelude::*;
use crate::text::owned;

verus! {

/// Version of the record layout that a record was written with.
#[derive(Clone, Copy, Debug, PartialEq, Eq, Structural)]
pub struct SchemaMetadata {
    pub schema_version: u32,
}

impl SchemaMetadata {
    /// The layout version that this library writes.
    pub open spec fn current_version() -> u32 {
        1
    }

    /// Metadata of a record written now.
    pub fn current() -> (schema: Self)
        ensures
            schema.schema_version == Self::current_version(),
    {
        SchemaMetadata { schema_version: 1 }
    }
}

/// Identifier of a work item (a task on a board).
#[derive(Debug, PartialEq, Eq)]
pub struct WorkItemId(pub String);

impl View for WorkItemId {
    type V = Seq<char>;

    open spec fn view(&self) -> Seq<char> {
        self.0@
    }
}

impl WorkItemId {
    /// The identifier spelled by `text`.
    pub fn from(text: &str) -> (id: Self)
        ensures
            id@ == text@,
    {
        WorkItemId(owned(text))
    }

    /// Whether both identifiers are spelled alike.
    pub fn same_as(&self, other: &Self) -> (r: bool)
        ensures
            r == (self@ == other@),
    {
        self.0 == other.0
    }
}

impl Clone for WorkItemId {
    fn clone(&self) -> (r: Self)
        ensures
            r@ == self@,
    {
        WorkItemId(self.0.clone())
    }
}

/// Identifier of a project.
#[derive(Debug, PartialEq, Eq)]
pub struct ProjectId(pub String);

impl View for ProjectId {
    type V = Seq<char>;

    open spec fn view(&self) -> Seq<char> {
        self.0@
    }
}

impl ProjectId {
    /// The identifier spelled by `text`.
    pub fn from(text: &str) -> (id: Self)
        ensures
            id@ == text@,
    {
        ProjectId(owned(text))
    }

    /// Whether both identifiers are spelled alike.
    pub fn same_as(&self, other: &Self) -> (r: bool)
        ensures
            r == (self@ == other@),
    {
        self.0 == other.0
    }
}

impl Clone for ProjectId {
    fn clone(&self) -> (r: Self)
        ensures
            r@ == self@,
    {
        ProjectId(self.0.clone())
    }
}

/// Identifier of a recorded policy decision.
#[derive(Debug, PartialEq, Eq)]
pub struct PolicyDecisionId(pub String);

impl View for PolicyDecisionId {
    type V = Seq<char>;

    open spec fn view(&self) -> Seq<char> {
        self.0@
    }
}

impl PolicyDecisionId {
    /// The identifier spelled by `text`.
    pub fn from(text: &str) -> (id: Self)
        ensures
            id@ == text@,
    {
        PolicyDecisionId(owned(text))
    }

    /// Whether both identifiers are spelled alike.
    pub fn same_as(&self, other: &Self) -> (r: bool)
        ensures
            r == (self@ == other@),
    {
        self.0 == other.0
    }
}

impl Clone for PolicyDecisionId {
    fn clone(&self) -> (r: Self)
        ensures
            r@ == self@,
    {
        PolicyDecisionId(self.0.clone())
    }
}

/// Identifier of an agent execution.
#[derive(Debug, PartialEq, Eq)]
pub struct ExecutionId(pub String);

impl View for ExecutionId {
    type V = Seq<char>;

    open spec fn view(&self) -> Seq<char> {
        self.0@
    }
}

impl ExecutionId {
    /// The identifier spelled by `text`.
    pub fn from(text: &str) -> (id: Self)
        ensures
            id@ == text@,
    {
        ExecutionId(owned(text))
    }
}

impl Clone for ExecutionId {
    fn clone(&self) -> (r: Self)
        ensures
            r@ == self@,
    {
        ExecutionId(self.0.clone())
    }
}

/// Identifier of an event in a work item's history.
#[derive(Debug, PartialEq, Eq)]
pub struct WorkItemEventId(pub String);

impl View for WorkItemEventId {
    type V = Seq<char>;

    open spec fn view(&self) -> Seq<char> {
        self.0@
    }
}

impl WorkItemEventId {
    /// The identifier spelled by `text`.
    pub fn from(text: &str) -> (id: Self)
        ensures
            id@ == text@,
    {
        WorkItemEventId(owned(text))
    }
}

impl Clone for WorkItemEventId {
    fn clone(&self) -> (r: Self)
        ensures
            r@ == self@,
    {
        WorkItemEventId(self.0.clone())
    }
}

/// Identifier of a piece of evidence recorded for a work item.
#[derive(Debug, PartialEq, Eq)]
pub struct EvidenceId(pub String);

impl View for EvidenceId {
    type V = Seq<char>;

    open spec fn view(&self) -> Seq<char> {
        self.0@
    }
}

impl EvidenceId {
    /// The identifier spelled by `text`.
    pub fn from(text: &str) -> (id: Self)
        ensures
            id@ == text@,
    {
        EvidenceId(owned(text))
    }
}

impl Clone for EvidenceId {
    fn clone(&self) -> (r: Self)
        ensures
            r@ == self@,
    {
        EvidenceId(self.0.clone())
    }
}

/// Identifier of a comparison of a shared field with its external copy.
#[derive(Debug, PartialEq, Eq)]
pub struct ConnectorReconciliationItemId(pub String);

impl View for ConnectorReconciliationItemId {
    type V = Seq<char>;

    open spec fn view(&self) -> Seq<char> {
        self.0@
    }
}

impl ConnectorReconciliationItemId {
    /// The identifier spelled by `text`.
    pub fn from(text: &str) -> (id: Self)
        ensures
            id@ == text@,
    {
        ConnectorReconciliationItemId(owned(text))
    }
}

impl Clone for ConnectorReconciliationItemId {
    fn clone(&self) -> (r: Self)
        ensures
            r@ == self@,
    {
        ConnectorReconciliationItemId(self.0.clone())
    }
}

/// Identifier of an organiser's ticket effect.
#[derive(Debug, PartialEq, Eq)]
pub struct TicketEffectId(pub String);

impl View for TicketEffectId {
    type V = Seq<char>;

    open spec fn view(&self) -> Seq<char> {
        self.0@
    }
}

impl TicketEffectId {
    /// The identifier spelled by `text`.
    pub fn from(text: &str) -> (id: Self)
        ensures
            id@ == text@,
    {
        TicketEffectId(owned(text))
    }
}

impl Clone for TicketEffectId {
    fn clone(&self) -> (r: Self)
        ensures
            r@ == self@,
    {
        TicketEffectId(self.0.clone())
    }
}

/// Identifier of a plan proposed for a board.
#[derive(Debug, PartialEq, Eq)]
pub struct PlanId(pub String);

impl View for PlanId {
    type V = Seq<char>;

    open spec fn view(&self) -> Seq<char> {
        self.0@
    }
}

impl PlanId {
    /// The identifier spelled by `text`.
    pub fn from(text: &str) -> (id: Self)
        ensures
            id@ == text@,
    {
        PlanId(owned(text))
    }
}

impl Clone for PlanId {
    fn clone(&self) -> (r: Self)
        ensures
            r@ == self@,
    {
        PlanId(self.0.clone())
    }
}

/// Identifier of a dependency between two work items of a board.
#[derive(Debug, PartialEq, Eq)]
pub struct DependencyId(pub String);

impl View for DependencyId {
    type V = Seq<char>;

    open spec fn view(&self) -> Seq<char> {
        self.0@
    }
}

impl DependencyId {
    /// The identifier spelled by `text`.
    pub fn from(text: &str) -> (id: Self)
        ensures
            id@ == text@,
    {
        DependencyId(owned(text))
    }
}

impl Clone for DependencyId {
    fn clone(&self) -> (r: Self)
        ensures
            r@ == self@,
    {
        DependencyId(self.0.clone())
    }
}

/// Identifier of a board.
#[derive(Debug, PartialEq, Eq)]
pub struct BoardId(pub String);

impl View for BoardId {
    type V = Seq<char>;

    open spec fn view(&self) -> Seq<char> {
        self.0@
    }
}

impl BoardId {
    /// The identifier spelled by `text`.
    pub fn from(text: &str) -> (id: Self)
        ensures
            id@ == text@,
    {
        BoardId(owned(text))
    }

    /// Whether both identifiers are spelled alike.
    pub fn same_as(&self, other: &Self) -> (r: bool)
        ensures
            r == (self@ == other@),
    {
        self.0 == other.0
    }
}

impl Clone for BoardId {
    fn clone(&self) -> (r: Self)
        ensures
            r@ == self@,
    {
        BoardId(self.0.clone())
    }
}

/// Identifier of a link between a work item and an external resource.
#[derive(Debug, PartialEq, Eq)]
pub struct ExternalLinkId(pub String);

impl View for ExternalLinkId {
    type V = Seq<char>;

    open spec fn view(&self) -> Seq<char> {
        self.0@
    }
}

impl ExternalLinkId {
    /// The identifier spelled by `text`.
    pub fn from(text: &str) -> (id: Self)
        ensures
            id@ == text@,
    {
        ExternalLinkId(owned(text))
    }

    /// Whether both identifiers are spelled alike.
    pub fn same_as(&self, other: &Self) -> (r: bool)
        ensures
            r == (self@ == other@),
    {
        self.0 == other.0
    }
}

impl Clone for ExternalLinkId {
    fn clone(&self) -> (r: Self)
        ensures
            r@ == self@,
    {
        ExternalLinkId(self.0.clone())
    }
}

/// Identifier of an outgoing connector update.
#[derive(Debug, PartialEq, Eq)]
pub struct ConnectorOutboxItemId(pub String);

impl View for ConnectorOutboxItemId {
    type V = Seq<char>;

    open spec fn view(&self) -> Seq<char> {
        self.0@
    }
}

impl ConnectorOutboxItemId {
    /// The identifier spelled by `text`.
    pub fn from(text: &str) -> (id: Self)
        ensures
            id@ == text@,
    {
        ConnectorOutboxItemId(owned(text))
    }

    /// Whether both identifiers are spelled alike.
    pub fn same_as(&self, other: &Self) -> (r: bool)
        ensures
            r == (self@ == other@),
    {
        self.0 == other.0
    }
}

impl Clone for ConnectorOutboxItemId {
    fn clone(&self) -> (r: Self)
        ensures
            r@ == self@,
    {
        ConnectorOutboxItemId(self.0.clone())
    }
}

/// Identifier of a supervision decision.
#[derive(Debug, PartialEq, Eq)]
pub struct SupervisionDecisionId(pub String);

impl View for SupervisionDecisionId {
    type V = Seq<char>;

    open spec fn view(&self) -> Seq<char> {
        self.0@
    }
}

impl SupervisionDecisionId {
    /// The identifier spelled by `text`.
    pub fn from(text: &str) -> (id: Self)
        ensures
            id@ == text@,
    {
        SupervisionDecisionId(owned(text))
    }

    /// Whether both identifiers are spelled alike.
    pub fn same_as(&self, other: &Self) -> (r: bool)
        ensures
            r == (self@ == other@),
    {
        self.0 == other.0
    }
}

impl Clone for SupervisionDecisionId {
    fn clone(&self) -> (r: Self)
        ensures
            r@ == self@,
    {
        SupervisionDecisionId(self.0.clone())
    }
}

/// The spelling of an optional work item identifier.
pub open spec fn work_item_view(id: Option<WorkItemId>) -> Option<Seq<char>> {
    match id {
        Some(id) => Some(id@),
        None => None,
    }
}

/// Copies an optional work item identifier.
pub fn clone_work_item(id: &Option<WorkItemId>) -> (r: Option<WorkItemId>)
    ensures
        work_item_view(r) == work_item_view(*id),
{
    match id {
        Some(id) => Some(id.clone()),
        None => None,
    }
}

/// Whether two optional work item identifiers are alike.
pub fn same_work_item(left: &Option<WorkItemId>, right: &Option<WorkItemId>) -> (r: bool)
    ensures
        r == (work_item_view(*left) == work_item_view(*right)),
{
    match (left, right) {
        (Some(l), Some(r)) => l.same_as(r),
        (None, None) => true,
        _ => false,
    }
}

/// A capability that an agent tool call may need.
#[derive(Clone, Copy, Debug, PartialEq, Eq, Structural)]
pub enum ToolScope {
    ReadAssignedWorkspace,
    WriteAssignedWorkspace,
    RunProjectChecks,
    NetworkAccess,
}

/// The name of a tool scope in messages and records.
pub open spec fn tool_scope_name(scope: ToolScope) -> Seq<char> {
    match scope {
        ToolScope::ReadAssignedWorkspace => "read_assigned_workspace"@,
        ToolScope::WriteAssignedWorkspace => "write_assigned_workspace"@,
        ToolScope::RunProjectChecks => "run_project_checks"@,
        ToolScope::NetworkAccess => "network_access"@,
    }
}

impl ToolScope {
    /// The name of this scope in messages and records.
    pub fn name(&self) -> (r: &'static str)
        ensures
            r@ == tool_scope_name(*self),
    {
        match self {
            ToolScope::ReadAssignedWorkspace => "read_assigned_workspace",
            ToolScope::WriteAssignedWorkspace => "write_assigned_workspace",
            ToolScope::RunProjectChecks => "run_project_checks",
            ToolScope::NetworkAccess => "network_access",
        }
    }
}

/// A Git operation that changes shared history and so needs explicit approval.
#[derive(Clone, Copy, Debug, PartialEq, Eq, Structural)]
pub enum ProtectedGitAction {
    Commit,
    Push,
    ForcePush,
}

/// The name of a protected Git action in messages and records.
pub open spec fn git_action_name(action: ProtectedGitAction) -> Seq<char> {
    match action {
        ProtectedGitAction::Commit => "commit"@,
        ProtectedGitAction::Push => "push"@,
        ProtectedGitAction::ForcePush => "force_push"@,
    }
}

impl ProtectedGitAction {
    /// The name of this action in messages and records.
    pub fn name(&self) -> (r: &'static str)
        ensures
            r@ == git_action_name(*self),
    {
        match self {
            ProtectedGitAction::Commit => "commit",
            ProtectedGitAction::Push => "push",
            ProtectedGitAction::ForcePush => "force_push",
        }
    }
}

/// An action that an agent asks the policy gate to allow.
#[derive(Clone, Copy, Debug, PartialEq, Eq, Structural)]
pub enum PolicyAction {
    StartExecution,
    Tool { scope: ToolScope },
    ProtectedGit { action: ProtectedGitAction },
}

/// The text of an action in decision summaries.
pub open spec fn action_text(action: PolicyAction) -> Seq<char> {
    match action {
        PolicyAction::StartExecution => "start_execution"@,
        PolicyAction::Tool { scope } => "tool:"@ + tool_scope_name(scope),
        PolicyAction::ProtectedGit { action } => "protected_git:"@ + git_action_name(action),
    }
}

impl PolicyAction {
    /// Appends the text of this action.
    pub fn push_text(&self, out: &mut String)
        ensures
            final(out)@ == old(out)@ + action_text(*self),
    {
        match self {
            PolicyAction::StartExecution => out.append("start_execution"),
            PolicyAction::Tool { scope } => {
                out.append("tool:");
                out.append(scope.name());
            },
            PolicyAction::ProtectedGit { action } => {
                out.append("protected_git:");
                out.append(action.name());
            },
        }
    }
}

/// What the policy gate decided.
#[derive(Clone, Copy, Debug, PartialEq, Eq, Structural)]
pub enum PolicyDecisionKind {
    Allow,
    Deny,
    ApprovalRequired,
}

/// Limits that one work item sets on top of the project policy.
#[derive(Clone, Copy, Debug, PartialEq, Eq, Structural, Default)]
pub struct WorkItemBudget {
    pub max_agent_turns: Option<u32>,
    pub max_duration_seconds: Option<u64>,
    pub max_cost_micros: Option<u64>,
}

/// The audit record of one policy decision.
#[derive(Debug, PartialEq, Eq)]
pub struct PolicyDecision {
    pub schema: SchemaMetadata,
    pub id: PolicyDecisionId,
    pub project_id: ProjectId,
    pub work_item_id: Option<WorkItemId>,
    pub action: Option<PolicyAction>,
    pub decision: PolicyDecisionKind,
    pub actor: String,
    pub input_summary: String,
    pub outcome_summary: String,
    pub reason: String,
    pub decided_at: String,
}

/// The content of a policy decision record.
pub struct PolicyDecisionView {
    pub schema: SchemaMetadata,
    pub id: Seq<char>,
    pub project_id: Seq<char>,
    pub work_item_id: Option<Seq<char>>,
    pub action: Option<PolicyAction>,
    pub decision: PolicyDecisionKind,
    pub actor: Seq<char>,
    pub input_summary: Seq<char>,
    pub outcome_summary: Seq<char>,
    pub reason: Seq<char>,
    pub decided_at: Seq<char>,
}

impl View for PolicyDecision {
    type V = PolicyDecisionView;

    open spec fn view(&self) -> PolicyDecisionView {
        PolicyDecisionView {
            schema: self.schema,
            id: self.id@,
            project_id: self.project_id@,
            work_item_id: work_item_view(self.work_item_id),
            action: self.action,
            decision: self.decision,
            actor: self.actor@,
            input_summary: self.input_summary@,
            outcome_summary: self.outcome_summary@,
            reason: self.reason@,
            decided_at: self.decided_at@,
        }
    }
}

impl Clone for PolicyDecision {
    fn clone(&self) -> (r: Self)
        ensures
            r@ == self@,
    {
        PolicyDecision {
            schema: self.schema,
            id: self.id.clone(),
            project_id: self.project_id.clone(),
            work_item_id: clone_work_item(&self.work_item_id),
            action: self.action,
            decision: self.decision,
            actor: self.actor.clone(),
            input_summary: self.input_summary.clone(),
            outcome_summary: self.outcome_summary.clone(),
            reason: self.reason.clone(),
            decided_at: self.decided_at.clone(),
        }
    }
}

impl PolicyDecision {
    /// Whether both records hold the same content.
    pub fn same_as(&self, other: &Self) -> (r: bool)
        ensures
            r == (self@ == other@),
    {
        self.schema == other.schema && self.id.same_as(&other.id) && self.project_id.same_as(
            &other.project_id,
        ) && same_work_item(&self.work_item_id, &other.work_item_id) && self.action
            == other.action && self.decision == other.decision && self.actor == other.actor
            && self.input_summary == other.input_summary && self.outcome_summary
            == other.outcome_summary && self.reason == other.reason && self.decided_at
            == other.decided_at
    }
}

/// A project: a Git repository and the reference that task branches start from.
#[derive(Debug, PartialEq, Eq)]
pub struct Project {
    pub schema: SchemaMetadata,
    pub id: ProjectId,
    pub name: String,
    pub repository_path: String,
    pub base_ref: String,
    pub policy_set_id: String,
}

/// The lifecycle state of an agent execution.
#[derive(Clone, Copy, Debug, PartialEq, Eq, Structural)]
pub enum ExecutionStatus {
    Pending,
    Running,
    AwaitingInput,
    AwaitingReview,
}

/// Tokens and cost that an execution has used.
#[derive(Clone, Copy, Debug, PartialEq, Eq, Structural)]
pub struct ExecutionUsage {
    pub input_tokens: u64,
    pub output_tokens: u64,
    pub cost_micros: Option<u64>,
}

/// One agent session working on a work item in a workspace.
#[derive(Debug, PartialEq, Eq)]
pub struct Execution {
    pub schema: SchemaMetadata,
    pub id: ExecutionId,
    pub work_item_id: WorkItemId,
    pub adapter_name: String,
    pub status: ExecutionStatus,
    pub session_id: Option<String>,
    pub workspace_path: String,
    pub usage: ExecutionUsage,
    pub last_event_sequence: u64,
}

/// The spelling of an optional text.
pub open spec fn text_view(text: Option<String>) -> Option<Seq<char>> {
    match text {
        Some(t) => Some(t@),
        None => None,
    }
}

/// The content of an execution record.
pub struct ExecutionView {
    pub schema: SchemaMetadata,
    pub id: Seq<char>,
    pub work_item_id: Seq<char>,
    pub adapter_name: Seq<char>,
    pub status: ExecutionStatus,
    pub session_id: Option<Seq<char>>,
    pub workspace_path: Seq<char>,
    pub usage: ExecutionUsage,
    pub last_event_sequence: u64,
}

impl View for Execution {
    type V = ExecutionView;

    open spec fn view(&self) -> ExecutionView {
        ExecutionView {
            schema: self.schema,
            id: self.id@,
            work_item_id: self.work_item_id@,
            adapter_name: self.adapter_name@,
            status: self.status,
            session_id: text_view(self.session_id),
            workspace_path: self.workspace_path@,
            usage: self.usage,
            last_event_sequence: self.last_event_sequence,
        }
    }
}

/// Where a work item is in its workflow.
#[derive(Clone, Copy, Debug, PartialEq, Eq, Structural)]
pub enum WorkItemState {
    Inbox,
    Planned,
    Ready,
    Running,
    AwaitingInput,
    Review,
    Blocked,
    Done,
    Failed,
    Interrupted,
}

} // verus!
