//! The policy gate: decides whether an agent action may run, and records every decision.
use vstd::prelude::*;
use crate::domain::{
    action_text, git_action_name, tool_scope_name, work_item_view, clone_work_item,
    same_work_item, PolicyAction, PolicyDecision, PolicyDecisionId, PolicyDecisionKind,
    PolicyDecisionView, ProjectId, ProtectedGitAction, SchemaMetadata, ToolScope, WorkItemBudget,
    WorkItemId,
};
use crate::text::{blank, chars_of, decimal, is_blank, push_decimal};

verus! {

/// Project-wide limits on agent work.
#[derive(Clone, Copy, Debug, PartialEq, Eq, Structural, Default)]
pub struct PolicyLimits {
    pub max_parallel_executions: u32,
    pub max_agent_turns: Option<u32>,
    pub max_duration_seconds: Option<u64>,
    pub max_cost_micros: Option<u64>,
}

/// The active policy of a project.
#[derive(Clone, Debug, PartialEq, Eq, Default)]
pub struct PolicySet {
    /// Tool scopes that agents may use.
    pub allowed_tool_scopes: Vec<ToolScope>,
    pub limits: PolicyLimits,
    /// Protected Git actions that may run once a user approved them.
    pub protected_git_actions: Vec<ProtectedGitAction>,
}

/// What a work item has used so far.
#[derive(Clone, Copy, Debug, PartialEq, Eq, Structural, Default)]
pub struct PolicyUsage {
    pub active_execution_count: u32,
    pub agent_turns: u32,
    pub duration_seconds: u64,
    pub cost_micros: u64,
}

/// A user's approval of one protected Git action.
#[derive(Debug, PartialEq, Eq)]
pub struct ProtectedGitApproval {
    pub decision_id: PolicyDecisionId,
    pub project_id: ProjectId,
    pub work_item_id: Option<WorkItemId>,
    pub action: ProtectedGitAction,
    pub approved_by: String,
    pub approved_at: String,
}

/// The content of an approval.
pub struct ProtectedGitApprovalView {
    pub decision_id: Seq<char>,
    pub project_id: Seq<char>,
    pub work_item_id: Option<Seq<char>>,
    pub action: ProtectedGitAction,
    pub approved_by: Seq<char>,
    pub approved_at: Seq<char>,
}

impl View for ProtectedGitApproval {
    type V = ProtectedGitApprovalView;

    open spec fn view(&self) -> ProtectedGitApprovalView {
        ProtectedGitApprovalView {
            decision_id: self.decision_id@,
            project_id: self.project_id@,
            work_item_id: work_item_view(self.work_item_id),
            action: self.action,
            approved_by: self.approved_by@,
            approved_at: self.approved_at@,
        }
    }
}

impl Clone for ProtectedGitApproval {
    fn clone(&self) -> (r: Self)
        ensures
            r@ == self@,
    {
        ProtectedGitApproval {
            decision_id: self.decision_id.clone(),
            project_id: self.project_id.clone(),
            work_item_id: clone_work_item(&self.work_item_id),
            action: self.action,
            approved_by: self.approved_by.clone(),
            approved_at: self.approved_at.clone(),
        }
    }
}

/// The content of an optional approval.
pub open spec fn approval_view(approval: Option<ProtectedGitApproval>) -> Option<ProtectedGitApprovalView> {
    match approval {
        Some(a) => Some(a@),
        None => None,
    }
}

/// A request to perform one agent action.
#[derive(Debug, PartialEq, Eq)]
pub struct PolicyRequest {
    pub decision_id: PolicyDecisionId,
    pub project_id: ProjectId,
    pub work_item_id: Option<WorkItemId>,
    pub actor: String,
    pub action: PolicyAction,
    pub usage: PolicyUsage,
    pub work_item_budget: Option<WorkItemBudget>,
    pub protected_git_approval: Option<ProtectedGitApproval>,
    pub decided_at: String,
}

/// The content of a request.
pub struct PolicyRequestView {
    pub decision_id: Seq<char>,
    pub project_id: Seq<char>,
    pub work_item_id: Option<Seq<char>>,
    pub actor: Seq<char>,
    pub action: PolicyAction,
    pub usage: PolicyUsage,
    pub work_item_budget: Option<WorkItemBudget>,
    pub protected_git_approval: Option<ProtectedGitApprovalView>,
    pub decided_at: Seq<char>,
}

impl View for PolicyRequest {
    type V = PolicyRequestView;

    open spec fn view(&self) -> PolicyRequestView {
        PolicyRequestView {
            decision_id: self.decision_id@,
            project_id: self.project_id@,
            work_item_id: work_item_view(self.work_item_id),
            actor: self.actor@,
            action: self.action,
            usage: self.usage,
            work_item_budget: self.work_item_budget,
            protected_git_approval: approval_view(self.protected_git_approval),
            decided_at: self.decided_at@,
        }
    }
}

impl Clone for PolicyRequest {
    fn clone(&self) -> (r: Self)
        ensures
            r@ == self@,
    {
        PolicyRequest {
            decision_id: self.decision_id.clone(),
            project_id: self.project_id.clone(),
            work_item_id: clone_work_item(&self.work_item_id),
            actor: self.actor.clone(),
            action: self.action,
            usage: self.usage,
            work_item_budget: self.work_item_budget,
            protected_git_approval: match &self.protected_git_approval {
                Some(a) => Some(a.clone()),
                None => None,
            },
            decided_at: self.decided_at.clone(),
        }
    }
}

/// The policy as the policy gate reads it: allowed scopes, limits and enabled Git actions.
pub struct PolicyView {
    pub allowed_tool_scopes: Seq<ToolScope>,
    pub limits: PolicyLimits,
    pub protected_git_actions: Seq<ProtectedGitAction>,
}

impl PolicyView {
    /// Nothing occurs twice: the policy's scopes and protected actions are sets.
    pub open spec fn has_no_repeats(self) -> bool {
        self.allowed_tool_scopes.no_duplicates() && self.protected_git_actions.no_duplicates()
    }
}

impl PolicySet {
    /// Nothing occurs twice: the policy's scopes and protected actions are sets.
    pub open spec fn has_no_repeats(&self) -> bool {
        self@.has_no_repeats()
    }
}

/// The entries of `s` at their first occurrence, in order: `s` as a set.
pub open spec fn distinct_entries<A>(s: Seq<A>) -> Seq<A>
    decreases s.len(),
{
    if s.len() == 0 {
        Seq::empty()
    } else if s.drop_last().contains(s.last()) {
        distinct_entries(s.drop_last())
    } else {
        distinct_entries(s.drop_last()).push(s.last())
    }
}

/// The policy as sets: each scope and protected action once, where it first occurs.
pub open spec fn distinct_policy(policy: PolicyView) -> PolicyView {
    PolicyView {
        allowed_tool_scopes: distinct_entries(policy.allowed_tool_scopes),
        limits: policy.limits,
        protected_git_actions: distinct_entries(policy.protected_git_actions),
    }
}

/// Keeping first occurrences keeps exactly the entries, and none twice.
pub proof fn lemma_distinct_entries<A>(s: Seq<A>)
    ensures
        distinct_entries(s).no_duplicates(),
        forall|x: A| #[trigger] distinct_entries(s).contains(x) <==> s.contains(x),
    decreases s.len(),
{
    if s.len() > 0 {
        lemma_distinct_entries(s.drop_last());
        assert forall|x: A| #[trigger] distinct_entries(s).contains(x) <==> s.contains(x) by {
            if s.contains(x) && x != s.last() {
                let k = choose|k: int| 0 <= k < s.len() && s[k] == x;
                assert(s.drop_last()[k] == x);
            }
            if s.drop_last().contains(x) {
                let k = choose|k: int| 0 <= k < s.drop_last().len() && s.drop_last()[k] == x;
                assert(s[k] == x);
            }
            if !s.drop_last().contains(s.last()) {
                assert(distinct_entries(s)[distinct_entries(s).len() - 1] == s.last());
                if distinct_entries(s.drop_last()).contains(x) {
                    let k = choose|k: int| 0 <= k < distinct_entries(s.drop_last()).len() && distinct_entries(s.drop_last())[k] == x;
                    assert(distinct_entries(s)[k] == x);
                }
                if distinct_entries(s).contains(x) && x != s.last() {
                    let k = choose|k: int| 0 <= k < distinct_entries(s).len() && distinct_entries(s)[k] == x;
                    assert(distinct_entries(s.drop_last())[k] == x);
                }
            }
            if s.drop_last().contains(s.last()) && x == s.last() {
                assert(s.drop_last().contains(x));
            }
        }
        if !s.drop_last().contains(s.last()) {
            let d = distinct_entries(s.drop_last());
            let t = d.push(s.last());
            assert forall|i: int, j: int| 0 <= i < j < t.len() implies t[i] != t[j] by {
                if j == t.len() - 1 {
                    assert(d.contains(d[i]));
                } else {
                    assert(t[i] == d[i] && t[j] == d[j]);
                }
            }
        }
    }
}

/// A policy taken as sets decides every request as the policy itself: only whether a scope or an
/// action is listed matters.
pub proof fn law_repeats_do_not_change_decisions(policy: PolicyView, request: PolicyRequestView)
    ensures
        decision_record(distinct_policy(policy), request) == decision_record(policy, request),
        distinct_policy(policy).has_no_repeats(),
{
    lemma_distinct_entries(policy.allowed_tool_scopes);
    lemma_distinct_entries(policy.protected_git_actions);
}

impl View for PolicySet {
    type V = PolicyView;

    open spec fn view(&self) -> PolicyView {
        PolicyView {
            allowed_tool_scopes: self.allowed_tool_scopes@,
            limits: self.limits,
            protected_git_actions: self.protected_git_actions@,
        }
    }
}

// ---------------------------------------------------------------------------------------------
// The rules, stated over values.
// ---------------------------------------------------------------------------------------------

/// The stricter of a project limit and a work item limit; absent limits do not constrain.
pub open spec fn effective_limit(policy_limit: Option<u64>, work_item_limit: Option<u64>) -> Option<u64> {
    match (policy_limit, work_item_limit) {
        (Some(p), Some(w)) => Some(if p <= w { p } else { w }),
        (Some(p), None) => Some(p),
        (None, Some(w)) => Some(w),
        (None, None) => None,
    }
}

/// The stricter of two agent-turn limits.
pub open spec fn effective_turn_limit(policy_limit: Option<u32>, work_item_limit: Option<u32>) -> Option<u32> {
    match (policy_limit, work_item_limit) {
        (Some(p), Some(w)) => Some(if p <= w { p } else { w }),
        (Some(p), None) => Some(p),
        (None, Some(w)) => Some(w),
        (None, None) => None,
    }
}

/// The agent-turn limit that applies to a request.
pub open spec fn turn_limit(limits: PolicyLimits, budget: Option<WorkItemBudget>) -> Option<u32> {
    effective_turn_limit(
        limits.max_agent_turns,
        match budget {
            Some(b) => b.max_agent_turns,
            None => None,
        },
    )
}

/// The duration limit that applies to a request.
pub open spec fn duration_limit(limits: PolicyLimits, budget: Option<WorkItemBudget>) -> Option<u64> {
    effective_limit(
        limits.max_duration_seconds,
        match budget {
            Some(b) => b.max_duration_seconds,
            None => None,
        },
    )
}

/// The cost limit that applies to a request.
pub open spec fn cost_limit(limits: PolicyLimits, budget: Option<WorkItemBudget>) -> Option<u64> {
    effective_limit(
        limits.max_cost_micros,
        match budget {
            Some(b) => b.max_cost_micros,
            None => None,
        },
    )
}

/// Whether an execution start finds the parallel capacity used up.
pub open spec fn parallel_exhausted(limits: PolicyLimits, request: PolicyRequestView) -> bool {
    request.action is StartExecution && request.usage.active_execution_count
        >= limits.max_parallel_executions
}

/// Whether the agent-turn budget is used up.
pub open spec fn turns_exhausted(limits: PolicyLimits, request: PolicyRequestView) -> bool {
    match turn_limit(limits, request.work_item_budget) {
        Some(l) => request.usage.agent_turns >= l,
        None => false,
    }
}

/// Whether the duration budget is used up.
pub open spec fn duration_exhausted(limits: PolicyLimits, request: PolicyRequestView) -> bool {
    match duration_limit(limits, request.work_item_budget) {
        Some(l) => request.usage.duration_seconds >= l,
        None => false,
    }
}

/// Whether the cost budget is used up.
pub open spec fn cost_exhausted(limits: PolicyLimits, request: PolicyRequestView) -> bool {
    match cost_limit(limits, request.work_item_budget) {
        Some(l) => request.usage.cost_micros >= l,
        None => false,
    }
}

/// The first limit that a request has used up, as the reason of its denial.
pub open spec fn limit_violation(limits: PolicyLimits, request: PolicyRequestView) -> Option<Seq<char>> {
    if parallel_exhausted(limits, request) {
        Some(
            "Parallel execution limit "@ + decimal(limits.max_parallel_executions as nat)
                + " has been reached."@,
        )
    } else if turns_exhausted(limits, request) {
        Some(
            "Agent-turn limit "@ + decimal(turn_limit(limits, request.work_item_budget)->0 as nat)
                + " has been reached."@,
        )
    } else if duration_exhausted(limits, request) {
        Some(
            "Duration limit "@ + decimal(
                duration_limit(limits, request.work_item_budget)->0 as nat,
            ) + " seconds has been reached."@,
        )
    } else if cost_exhausted(limits, request) {
        Some(
            "Cost limit "@ + decimal(cost_limit(limits, request.work_item_budget)->0 as nat)
                + " micros has been reached."@,
        )
    } else {
        None
    }
}

/// Whether an approval covers exactly this request and this action, and names who gave it and when.
pub open spec fn approval_permits(
    approval: ProtectedGitApprovalView,
    request: PolicyRequestView,
    action: ProtectedGitAction,
) -> bool {
    &&& !is_blank(approval.decision_id)
    &&& approval.project_id == request.project_id
    &&& approval.work_item_id == request.work_item_id
    &&& approval.action == action
    &&& !is_blank(approval.approved_by)
    &&& !is_blank(approval.approved_at)
}

/// The decision of the policy gate and its reason.
pub open spec fn evaluation(policy: PolicyView, request: PolicyRequestView) -> (PolicyDecisionKind, Seq<char>) {
    match limit_violation(policy.limits, request) {
        Some(reason) => (PolicyDecisionKind::Deny, reason),
        None => match request.action {
            PolicyAction::StartExecution => (
                PolicyDecisionKind::Allow,
                "Execution start is within the configured concurrency and budget limits."@,
            ),
            PolicyAction::Tool { scope } => if policy.allowed_tool_scopes.contains(scope) {
                (
                    PolicyDecisionKind::Allow,
                    "Tool scope "@ + tool_scope_name(scope) + " is allowed by the active policy."@,
                )
            } else {
                (
                    PolicyDecisionKind::Deny,
                    "Tool scope "@ + tool_scope_name(scope)
                        + " is not allowed by the active policy."@,
                )
            },
            PolicyAction::ProtectedGit { action } => if !policy.protected_git_actions.contains(
                action,
            ) {
                (
                    PolicyDecisionKind::Deny,
                    "Protected Git action "@ + git_action_name(action)
                        + " is not enabled by the active policy."@,
                )
            } else if request.protected_git_approval matches Some(approval) && approval_permits(
                approval,
                request,
                action,
            ) {
                (
                    PolicyDecisionKind::Allow,
                    "Protected Git action "@ + git_action_name(action)
                        + " has a matching recorded approval."@,
                )
            } else {
                (
                    PolicyDecisionKind::ApprovalRequired,
                    "Protected Git action "@ + git_action_name(action)
                        + " requires a matching user approval."@,
                )
            },
        },
    }
}

/// The usage summary that a decision records.
pub open spec fn input_summary(request: PolicyRequestView) -> Seq<char> {
    "action="@ + action_text(request.action) + "; active_executions="@ + decimal(
        request.usage.active_execution_count as nat,
    ) + "; agent_turns="@ + decimal(request.usage.agent_turns as nat) + "; duration_seconds="@
        + decimal(request.usage.duration_seconds as nat) + "; cost_micros="@ + decimal(
        request.usage.cost_micros as nat,
    )
}

/// The outcome summary of a decision.
pub open spec fn outcome_summary(decision: PolicyDecisionKind) -> Seq<char> {
    match decision {
        PolicyDecisionKind::Allow => "Execution may proceed."@,
        PolicyDecisionKind::Deny => "Execution is blocked by policy."@,
        PolicyDecisionKind::ApprovalRequired => "Execution is paused pending user approval."@,
    }
}

/// The audit record of the decision on a request.
pub open spec fn decision_record(policy: PolicyView, request: PolicyRequestView) -> PolicyDecisionView {
    let (kind, reason) = evaluation(policy, request);
    PolicyDecisionView {
        schema: SchemaMetadata { schema_version: SchemaMetadata::current_version() },
        id: request.decision_id,
        project_id: request.project_id,
        work_item_id: request.work_item_id,
        action: Some(request.action),
        decision: kind,
        actor: request.actor,
        input_summary: input_summary(request),
        outcome_summary: outcome_summary(kind),
        reason,
        decided_at: request.decided_at,
    }
}

/// A request whose approval has been set aside because the audit store does not hold it.
pub open spec fn without_approval(request: PolicyRequestView) -> PolicyRequestView {
    PolicyRequestView { protected_git_approval: None, ..request }
}

/// The request as decided after the audit store's answer on its approval: unchanged where the
/// store holds the approval, and without the approval where it does not.
pub open spec fn approval_checked(request: PolicyRequestView, held: bool) -> PolicyRequestView {
    if held {
        request
    } else {
        without_approval(request)
    }
}

/// Applies the audit store's answer on a request's approval: `held` says whether the store holds
/// it as given by a user. An approval that the store does not hold is set aside.
pub fn keep_verified_approval(request: PolicyRequest, held: bool) -> (r: PolicyRequest)
    ensures
        r@ == approval_checked(request@, held),
{
    let mut request = request;
    if !held {
        request.protected_git_approval = None;
    }
    request
}

// ---------------------------------------------------------------------------------------------
// The policy gate.
// ---------------------------------------------------------------------------------------------

/// The audit trail that the policy gate records each decision in. Stores implement it outside
/// this library, so its methods carry no contract: what a store records and which approvals it
/// holds is the store's own. The policy gate uses a store through an `AuditedStore`, which
/// keeps what the store answered and accepted.
pub trait PolicyAuditStore {
    type Error;

    /// Records a decision.
    fn record_policy_decision(&mut self, decision: PolicyDecision) -> Result<(), Self::Error>;

    /// Whether the store holds this approval as given by a user.
    fn has_recorded_protected_git_approval(
        &self,
        approval: &ProtectedGitApproval,
    ) -> Result<bool, Self::Error>;
}

/// An audit store as the policy gate uses it: the store itself, with a record of what the
/// policy gate learned from it and handed to it. The store's own answers are its own (the trait
/// carries no contract); what the record states is which answer the store gave for each approval
/// it was asked about, and which decisions it accepted, in order.
pub struct AuditedStore<S> {
    store: S,
    accepted: Ghost<Seq<PolicyDecisionView>>,
    answers: Ghost<Map<ProtectedGitApprovalView, bool>>,
}

impl<S: PolicyAuditStore> AuditedStore<S> {
    /// The decisions that the store accepted through this handle, in the order they were handed
    /// to it.
    pub closed spec fn accepted_decisions(&self) -> Seq<PolicyDecisionView> {
        self.accepted@
    }

    /// The store's latest answer for each approval it was asked about through this handle.
    pub closed spec fn store_answers(&self) -> Map<ProtectedGitApprovalView, bool> {
        self.answers@
    }

    /// A handle on `store`, with nothing asked or handed yet.
    pub fn new(store: S) -> (r: Self)
        ensures
            r.accepted_decisions() == Seq::<PolicyDecisionView>::empty(),
            r.store_answers() == Map::<ProtectedGitApprovalView, bool>::empty(),
    {
        AuditedStore { store, accepted: Ghost(Seq::empty()), answers: Ghost(Map::empty()) }
    }

    /// The store.
    pub fn store(&self) -> &S {
        &self.store
    }

    /// The store, giving the handle up.
    pub fn into_store(self) -> S {
        self.store
    }

    /// Hands a decision to the store. When the store accepts it, it is added to the accepted
    /// decisions; otherwise they are unchanged.
    pub fn record_policy_decision(&mut self, decision: PolicyDecision) -> (r: Result<(), S::Error>)
        ensures
            r is Ok ==> final(self).accepted_decisions() == old(self).accepted_decisions().push(decision@),
            r is Err ==> final(self).accepted_decisions() == old(self).accepted_decisions(),
            final(self).store_answers() == old(self).store_answers(),
    {
        let ghost view = decision@;
        let r = self.store.record_policy_decision(decision);
        if r.is_ok() {
            proof {
                self.accepted@ = self.accepted@.push(view);
            }
        }
        r
    }

    /// Asks the store whether it holds `approval` as given by a user; its answer is kept.
    pub fn has_recorded_protected_git_approval(&mut self, approval: &ProtectedGitApproval) -> (r: Result<bool, S::Error>)
        ensures
            r matches Ok(held) ==> final(self).store_answers() == old(self).store_answers().insert(approval@, held),
            r is Err ==> final(self).store_answers() == old(self).store_answers(),
            final(self).accepted_decisions() == old(self).accepted_decisions(),
    {
        let r = self.store.has_recorded_protected_git_approval(approval);
        match &r {
            Ok(held) => {
                proof {
                    self.answers@ = self.answers@.insert(approval@, *held);
                }
            },
            Err(_) => {},
        }
        r
    }
}

/// Whether the store's answers hold the approval a request carries; a request without an
/// approval has nothing to check.
pub open spec fn approval_held(answers: Map<ProtectedGitApprovalView, bool>, request: PolicyRequestView) -> bool {
    match request.protected_git_approval {
        Some(approval) => answers.dom().contains(approval) && answers[approval],
        None => true,
    }
}

/// Proof that the policy gate allowed an action: only the policy gate creates it.
#[derive(Clone, Copy, Debug, PartialEq, Eq, Structural)]
pub struct AuthorizedAction {
    action: PolicyAction,
}

impl AuthorizedAction {
    /// The action that was allowed.
    pub closed spec fn allowed(&self) -> PolicyAction {
        self.action
    }

    /// The action that was allowed.
    pub fn action(&self) -> (r: &PolicyAction)
        ensures
            *r == self.allowed(),
    {
        &self.action
    }
}

/// The decision on a request, with the capability to act when it was allowed.
#[derive(Clone, Debug, PartialEq, Eq)]
pub struct PolicyAuthorization {
    decision: PolicyDecision,
    authorized_action: Option<AuthorizedAction>,
}

impl PolicyAuthorization {
    /// The recorded decision.
    pub closed spec fn record(&self) -> PolicyDecisionView {
        self.decision@
    }

    /// The action that may run, if any.
    pub closed spec fn granted(&self) -> Option<PolicyAction> {
        match self.authorized_action {
            Some(a) => Some(a.allowed()),
            None => None,
        }
    }

    /// The recorded decision.
    pub fn decision(&self) -> (r: &PolicyDecision)
        ensures
            r@ == self.record(),
    {
        &self.decision
    }

    /// The capability, present exactly when the action was allowed.
    pub fn authorized_action(&self) -> (r: Option<&AuthorizedAction>)
        ensures
            r is Some <==> self.granted() is Some,
            r matches Some(a) ==> Some(a.allowed()) == self.granted(),
    {
        match &self.authorized_action {
            Some(a) => Some(a),
            None => None,
        }
    }
}

/// Decides agent actions against one project policy.
pub struct PolicyGate {
    policy: PolicySet,
}

impl PolicyGate {
    /// The policy that this gate applies.
    pub closed spec fn policy(&self) -> PolicyView {
        self.policy@
    }

    /// A gate for the given policy.
    pub fn new(policy: PolicySet) -> (gate: Self)
        ensures
            gate.policy() == distinct_policy(policy@),
            gate.policy().has_no_repeats(),
    {
        proof {
            lemma_distinct_entries(policy@.allowed_tool_scopes);
            lemma_distinct_entries(policy@.protected_git_actions);
        }
        PolicyGate {
            policy: PolicySet {
                allowed_tool_scopes: distinct_scopes(&policy.allowed_tool_scopes),
                limits: policy.limits,
                protected_git_actions: distinct_git_actions(&policy.protected_git_actions),
            },
        }
    }

    /// Decides a request. The capability is handed out exactly when the decision is `Allow`.
    pub fn authorize(&self, request: PolicyRequest) -> (r: PolicyAuthorization)
        ensures
            r.record() == decision_record(self.policy(), request@),
            r.granted() == (if r.record().decision == PolicyDecisionKind::Allow {
                Some(request.action)
            } else {
                None
            }),
    {
        let (decision, reason) = self.evaluate(&request);
        let is_allowed = decision == PolicyDecisionKind::Allow;
        let action = request.action;
        let policy_decision = self.policy_decision(request, decision, reason);
        let authorized_action = if is_allowed {
            Some(AuthorizedAction { action })
        } else {
            None
        };
        PolicyAuthorization { decision: policy_decision, authorized_action }
    }

    /// Verifies the request's approval against the audit store, decides the request, and records
    /// the decision before returning it. An approval that the store does not hold is set aside.
    pub fn authorize_and_record<AuditStore: PolicyAuditStore>(
        &self,
        request: PolicyRequest,
        audit_store: &mut AuditedStore<AuditStore>,
    ) -> (r: Result<PolicyAuthorization, AuditStore::Error>)
        ensures
            r matches Ok(a) ==> a.record() == decision_record(
                self.policy(),
                approval_checked(request@, approval_held(final(audit_store).store_answers(), request@)),
            ),
            r is Ok ==> (request.protected_git_approval matches Some(approval)
                ==> final(audit_store).store_answers().dom().contains(approval@)),
            request.protected_git_approval is None ==> final(audit_store).store_answers()
                == old(audit_store).store_answers(),
            r matches Ok(a) ==> final(audit_store).accepted_decisions() == old(
                audit_store,
            ).accepted_decisions().push(a.record()),
            r is Err ==> final(audit_store).accepted_decisions() == old(audit_store).accepted_decisions(),
            r matches Ok(a) ==> a.granted() == (if a.record().decision == PolicyDecisionKind::Allow {
                Some(request.action)
            } else {
                None
            }),
            r matches Ok(a) ==> (request.action is ProtectedGit && a.record().decision
                == PolicyDecisionKind::Allow ==> request.protected_git_approval is Some),
    {
        let request = self.request_with_verified_approval(request, audit_store)?;
        let authorization = self.authorize(request);
        audit_store.record_policy_decision(authorization.decision.clone())?;
        Ok(authorization)
    }

    fn request_with_verified_approval<AuditStore: PolicyAuditStore>(
        &self,
        request: PolicyRequest,
        audit_store: &mut AuditedStore<AuditStore>,
    ) -> (r: Result<PolicyRequest, AuditStore::Error>)
        ensures
            request.protected_git_approval is None ==> (r matches Ok(checked) && checked@ == request@),
            request.protected_git_approval is None ==> final(audit_store).store_answers()
                == old(audit_store).store_answers(),
            r matches Ok(checked) ==> checked@ == approval_checked(
                request@,
                approval_held(final(audit_store).store_answers(), request@),
            ),
            r is Ok ==> (request.protected_git_approval matches Some(approval)
                ==> final(audit_store).store_answers().dom().contains(approval@)),
            final(audit_store).accepted_decisions() == old(audit_store).accepted_decisions(),
    {
        let held = match &request.protected_git_approval {
            Some(approval) => audit_store.has_recorded_protected_git_approval(approval)?,
            None => true,
        };
        Ok(keep_verified_approval(request, held))
    }

    fn evaluate(&self, request: &PolicyRequest) -> (r: (PolicyDecisionKind, String))
        ensures
            r.0 == evaluation(self.policy(), request@).0,
            r.1@ == evaluation(self.policy(), request@).1,
    {
        if let Some(reason) = self.limit_violation(request) {
            return (PolicyDecisionKind::Deny, reason);
        }
        let mut reason = String::new();
        match request.action {
            PolicyAction::StartExecution => {
                reason.append("Execution start is within the configured concurrency and budget limits.");
                (PolicyDecisionKind::Allow, reason)
            },
            PolicyAction::Tool { scope } => {
                reason.append("Tool scope ");
                reason.append(scope.name());
                if contains_scope(&self.policy.allowed_tool_scopes, scope) {
                    reason.append(" is allowed by the active policy.");
                    (PolicyDecisionKind::Allow, reason)
                } else {
                    reason.append(" is not allowed by the active policy.");
                    (PolicyDecisionKind::Deny, reason)
                }
            },
            PolicyAction::ProtectedGit { action } => {
                reason.append("Protected Git action ");
                reason.append(action.name());
                if !contains_git_action(&self.policy.protected_git_actions, action) {
                    reason.append(" is not enabled by the active policy.");
                    (PolicyDecisionKind::Deny, reason)
                } else if match &request.protected_git_approval {
                    Some(approval) => approval.permits(request, action),
                    None => false,
                } {
                    reason.append(" has a matching recorded approval.");
                    (PolicyDecisionKind::Allow, reason)
                } else {
                    reason.append(" requires a matching user approval.");
                    (PolicyDecisionKind::ApprovalRequired, reason)
                }
            },
        }
    }

    fn limit_violation(&self, request: &PolicyRequest) -> (r: Option<String>)
        ensures
            r matches Some(s) ==> limit_violation(self.policy().limits, request@) == Some(s@),
            r is None ==> limit_violation(self.policy().limits, request@) is None,
    {
        let limits = self.policy.limits;
        let budget = request.work_item_budget;
        let mut reason = String::new();
        if request.action == PolicyAction::StartExecution && request.usage.active_execution_count
            >= limits.max_parallel_executions {
            reason.append("Parallel execution limit ");
            push_decimal(&mut reason, limits.max_parallel_executions as u64);
            reason.append(" has been reached.");
            return Some(reason);
        }
        let turns = effective_u32_limit(
            limits.max_agent_turns,
            match budget {
                Some(b) => b.max_agent_turns,
                None => None,
            },
        );
        if let Some(limit) = turns {
            if request.usage.agent_turns >= limit {
                reason.append("Agent-turn limit ");
                push_decimal(&mut reason, limit as u64);
                reason.append(" has been reached.");
                return Some(reason);
            }
        }
        let duration = effective_u64_limit(
            limits.max_duration_seconds,
            match budget {
                Some(b) => b.max_duration_seconds,
                None => None,
            },
        );
        if let Some(limit) = duration {
            if request.usage.duration_seconds >= limit {
                reason.append("Duration limit ");
                push_decimal(&mut reason, limit);
                reason.append(" seconds has been reached.");
                return Some(reason);
            }
        }
        let cost = effective_u64_limit(
            limits.max_cost_micros,
            match budget {
                Some(b) => b.max_cost_micros,
                None => None,
            },
        );
        if let Some(limit) = cost {
            if request.usage.cost_micros >= limit {
                reason.append("Cost limit ");
                push_decimal(&mut reason, limit);
                reason.append(" micros has been reached.");
                return Some(reason);
            }
        }
        None
    }

    fn policy_decision(
        &self,
        request: PolicyRequest,
        decision: PolicyDecisionKind,
        reason: String,
    ) -> (r: PolicyDecision)
        requires
            decision == evaluation(self.policy(), request@).0,
            reason@ == evaluation(self.policy(), request@).1,
        ensures
            r@ == decision_record(self.policy(), request@),
    {
        let input_summary = request.input_summary();
        let outcome_summary = match decision {
            PolicyDecisionKind::Allow => "Execution may proceed.",
            PolicyDecisionKind::Deny => "Execution is blocked by policy.",
            PolicyDecisionKind::ApprovalRequired => "Execution is paused pending user approval.",
        };
        let mut outcome = String::new();
        outcome.append(outcome_summary);
        PolicyDecision {
            schema: SchemaMetadata::current(),
            id: request.decision_id,
            project_id: request.project_id,
            work_item_id: request.work_item_id,
            action: Some(request.action),
            decision,
            actor: request.actor,
            input_summary,
            outcome_summary: outcome,
            reason,
            decided_at: request.decided_at,
        }
    }
}

impl PolicyRequest {
    /// The usage summary that a decision records.
    fn input_summary(&self) -> (r: String)
        ensures
            r@ == input_summary(self@),
    {
        let mut s = String::new();
        s.append("action=");
        self.action.push_text(&mut s);
        s.append("; active_executions=");
        push_decimal(&mut s, self.usage.active_execution_count as u64);
        s.append("; agent_turns=");
        push_decimal(&mut s, self.usage.agent_turns as u64);
        s.append("; duration_seconds=");
        push_decimal(&mut s, self.usage.duration_seconds);
        s.append("; cost_micros=");
        push_decimal(&mut s, self.usage.cost_micros);
        s
    }
}

impl ProtectedGitApproval {
    /// Whether this approval covers exactly this request and action: the same project, work item
    /// and Git action, with an identifier, an approver and an approval time.
    fn permits(&self, request: &PolicyRequest, action: ProtectedGitAction) -> (r: bool)
        ensures
            r == approval_permits(self@, request@, action),
    {
        !blank(&chars_of(self.decision_id.0.as_str())) && self.project_id.same_as(
            &request.project_id,
        ) && same_work_item(&self.work_item_id, &request.work_item_id) && self.action == action
            && !blank(&chars_of(self.approved_by.as_str())) && !blank(
            &chars_of(self.approved_at.as_str()),
        )
    }
}

fn contains_scope(scopes: &Vec<ToolScope>, scope: ToolScope) -> (r: bool)
    ensures
        r == scopes@.contains(scope),
{
    let mut i: usize = 0;
    while i < scopes.len()
        invariant
            i <= scopes@.len(),
            forall|j: int| 0 <= j < i ==> scopes@[j] != scope,
        decreases scopes@.len() - i,
    {
        if scopes[i] == scope {
            return true;
        }
        i = i + 1;
    }
    false
}

fn distinct_scopes(scopes: &Vec<ToolScope>) -> (r: Vec<ToolScope>)
    ensures
        r@ == distinct_entries(scopes@),
{
    let mut r: Vec<ToolScope> = Vec::new();
    let mut i: usize = 0;
    while i < scopes.len()
        invariant
            i <= scopes@.len(),
            r@ == distinct_entries(scopes@.subrange(0, i as int)),
        decreases scopes@.len() - i,
    {
        let ghost prefix = scopes@.subrange(0, i as int);
        assert(scopes@.subrange(0, i + 1).drop_last() =~= prefix);
        proof {
            lemma_distinct_entries(prefix);
        }
        if !contains_scope(&r, scopes[i]) {
            r.push(scopes[i]);
        }
        i = i + 1;
    }
    assert(scopes@.subrange(0, scopes@.len() as int) =~= scopes@);
    r
}

fn distinct_git_actions(actions: &Vec<ProtectedGitAction>) -> (r: Vec<ProtectedGitAction>)
    ensures
        r@ == distinct_entries(actions@),
{
    let mut r: Vec<ProtectedGitAction> = Vec::new();
    let mut i: usize = 0;
    while i < actions.len()
        invariant
            i <= actions@.len(),
            r@ == distinct_entries(actions@.subrange(0, i as int)),
        decreases actions@.len() - i,
    {
        let ghost prefix = actions@.subrange(0, i as int);
        assert(actions@.subrange(0, i + 1).drop_last() =~= prefix);
        proof {
            lemma_distinct_entries(prefix);
        }
        if !contains_git_action(&r, actions[i]) {
            r.push(actions[i]);
        }
        i = i + 1;
    }
    assert(actions@.subrange(0, actions@.len() as int) =~= actions@);
    r
}

fn contains_git_action(actions: &Vec<ProtectedGitAction>, action: ProtectedGitAction) -> (r: bool)
    ensures
        r == actions@.contains(action),
{
    let mut i: usize = 0;
    while i < actions.len()
        invariant
            i <= actions@.len(),
            forall|j: int| 0 <= j < i ==> actions@[j] != action,
        decreases actions@.len() - i,
    {
        if actions[i] == action {
            return true;
        }
        i = i + 1;
    }
    false
}

/// The stricter of a project and a work item agent-turn limit.
pub fn effective_u32_limit(policy_limit: Option<u32>, work_item_limit: Option<u32>) -> (r: Option<u32>)
    ensures
        r == effective_turn_limit(policy_limit, work_item_limit),
        r is None <==> (policy_limit is None && work_item_limit is None),
        r matches Some(l) ==> {
            &&& (policy_limit matches Some(p) ==> l <= p)
            &&& (work_item_limit matches Some(w) ==> l <= w)
            &&& (policy_limit == Some(l) || work_item_limit == Some(l))
        },
{
    match (policy_limit, work_item_limit) {
        (Some(p), Some(w)) => Some(if p <= w { p } else { w }),
        (Some(p), None) => Some(p),
        (None, Some(w)) => Some(w),
        (None, None) => None,
    }
}

/// The stricter of a project and a work item limit.
pub fn effective_u64_limit(policy_limit: Option<u64>, work_item_limit: Option<u64>) -> (r: Option<u64>)
    ensures
        r == effective_limit(policy_limit, work_item_limit),
        r is None <==> (policy_limit is None && work_item_limit is None),
        r matches Some(l) ==> {
            &&& (policy_limit matches Some(p) ==> l <= p)
            &&& (work_item_limit matches Some(w) ==> l <= w)
            &&& (policy_limit == Some(l) || work_item_limit == Some(l))
        },
{
    match (policy_limit, work_item_limit) {
        (Some(p), Some(w)) => Some(if p <= w { p } else { w }),
        (Some(p), None) => Some(p),
        (None, Some(w)) => Some(w),
        (None, None) => None,
    }
}

// ---------------------------------------------------------------------------------------------
// Laws of the policy gate.
// ---------------------------------------------------------------------------------------------

/// The effective limit is the stricter of the two: it is one of them, and no larger than either.
pub proof fn law_strictest_limit_applies(policy_limit: Option<u64>, work_item_limit: Option<u64>)
    ensures
        effective_limit(policy_limit, work_item_limit) is None <==> (policy_limit is None
            && work_item_limit is None),
        effective_limit(policy_limit, work_item_limit) matches Some(l) ==> {
            &&& (policy_limit matches Some(p) ==> l <= p)
            &&& (work_item_limit matches Some(w) ==> l <= w)
            &&& (policy_limit == Some(l) || work_item_limit == Some(l))
        },
{
}

/// The effective agent-turn limit is the stricter of the two: it is one of them, and no larger
/// than either.
pub proof fn law_strictest_turn_limit_applies(policy_limit: Option<u32>, work_item_limit: Option<u32>)
    ensures
        effective_turn_limit(policy_limit, work_item_limit) is None <==> (policy_limit is None
            && work_item_limit is None),
        effective_turn_limit(policy_limit, work_item_limit) matches Some(l) ==> {
            &&& (policy_limit matches Some(p) ==> l <= p)
            &&& (work_item_limit matches Some(w) ==> l <= w)
            &&& (policy_limit == Some(l) || work_item_limit == Some(l))
        },
{
}

/// A request that has reached either the project's or the work item's limit on agent turns,
/// duration or cost is denied, whatever its action and approval: a looser limit on one side never
/// lifts a stricter one on the other.
pub proof fn law_each_reached_limit_denies(policy: PolicyView, request: PolicyRequestView)
    requires
        ({
            let limits = policy.limits;
            let budget = request.work_item_budget;
            let usage = request.usage;
            ||| (limits.max_agent_turns matches Some(p) && usage.agent_turns >= p)
            ||| (budget matches Some(b) && b.max_agent_turns matches Some(w) && usage.agent_turns >= w)
            ||| (limits.max_duration_seconds matches Some(p) && usage.duration_seconds >= p)
            ||| (budget matches Some(b) && b.max_duration_seconds matches Some(w)
                && usage.duration_seconds >= w)
            ||| (limits.max_cost_micros matches Some(p) && usage.cost_micros >= p)
            ||| (budget matches Some(b) && b.max_cost_micros matches Some(w) && usage.cost_micros >= w)
        }),
    ensures
        evaluation(policy, request).0 == PolicyDecisionKind::Deny,
{
    law_strictest_turn_limit_applies(
        policy.limits.max_agent_turns,
        match request.work_item_budget {
            Some(b) => b.max_agent_turns,
            None => None,
        },
    );
    law_strictest_limit_applies(
        policy.limits.max_duration_seconds,
        match request.work_item_budget {
            Some(b) => b.max_duration_seconds,
            None => None,
        },
    );
    law_strictest_limit_applies(
        policy.limits.max_cost_micros,
        match request.work_item_budget {
            Some(b) => b.max_cost_micros,
            None => None,
        },
    );
}

/// A request that has used up any limit is denied, whatever its action and approval.
pub proof fn law_exhausted_limit_denies(policy: PolicyView, request: PolicyRequestView)
    requires
        parallel_exhausted(policy.limits, request) || turns_exhausted(policy.limits, request)
            || duration_exhausted(policy.limits, request) || cost_exhausted(policy.limits, request),
    ensures
        evaluation(policy, request).0 == PolicyDecisionKind::Deny,
{
}

/// A tool whose scope the policy does not list is never allowed.
pub proof fn law_unscoped_tool_is_denied(policy: PolicyView, request: PolicyRequestView, scope: ToolScope)
    requires
        request.action == (PolicyAction::Tool { scope }),
        !policy.allowed_tool_scopes.contains(scope),
    ensures
        evaluation(policy, request).0 == PolicyDecisionKind::Deny,
{
}

/// A protected Git action is allowed only when the policy enables it and the request carries an
/// approval of exactly that action, project and work item.
pub proof fn law_protected_git_needs_matching_approval(
    policy: PolicyView,
    request: PolicyRequestView,
    action: ProtectedGitAction,
)
    requires
        request.action == (PolicyAction::ProtectedGit { action }),
        evaluation(policy, request).0 == PolicyDecisionKind::Allow,
    ensures
        policy.protected_git_actions.contains(action),
        request.protected_git_approval matches Some(approval) && approval_permits(
            approval,
            request,
            action,
        ),
{
}

/// Using more of any budget never turns a refusal into an allowance.
pub proof fn law_more_usage_never_widens(
    policy: PolicyView,
    request: PolicyRequestView,
    more: PolicyUsage,
)
    requires
        more.active_execution_count >= request.usage.active_execution_count,
        more.agent_turns >= request.usage.agent_turns,
        more.duration_seconds >= request.usage.duration_seconds,
        more.cost_micros >= request.usage.cost_micros,
    ensures
        evaluation(policy, PolicyRequestView { usage: more, ..request }).0
            == PolicyDecisionKind::Allow ==> evaluation(policy, request).0
            == PolicyDecisionKind::Allow,
{
}

/// Who asks, the decision's identifier and its time do not change what is decided.
pub proof fn law_decision_ignores_actor_and_identity(
    policy: PolicyView,
    request: PolicyRequestView,
    actor: Seq<char>,
    decision_id: Seq<char>,
    decided_at: Seq<char>,
)
    ensures
        evaluation(policy, PolicyRequestView { actor, decision_id, decided_at, ..request })
            == evaluation(policy, request),
{
    let other = PolicyRequestView { actor, decision_id, decided_at, ..request };
    assert(limit_violation(policy.limits, other) == limit_violation(policy.limits, request));
    if let PolicyAction::ProtectedGit { action } = request.action {
        if let Some(approval) = request.protected_git_approval {
            assert(approval_permits(approval, other, action) == approval_permits(
                approval,
                request,
                action,
            ));
        }
    }
}

} // verus!
