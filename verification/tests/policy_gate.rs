use kanban_orchestrator::domain::{
    PolicyAction, PolicyDecision, PolicyDecisionId, PolicyDecisionKind, ProjectId,
    ProtectedGitAction, ToolScope, WorkItemBudget, WorkItemId,
};
use kanban_orchestrator::policy::{
    effective_u32_limit, effective_u64_limit, keep_verified_approval, AuditedStore, PolicyAuditStore, PolicyGate, PolicyLimits,
    PolicyRequest, PolicySet, PolicyUsage, ProtectedGitApproval,
};

fn policy() -> PolicySet {
    PolicySet {
        allowed_tool_scopes: vec![
            ToolScope::ReadAssignedWorkspace,
            ToolScope::WriteAssignedWorkspace,
            ToolScope::RunProjectChecks,
        ],
        limits: PolicyLimits {
            max_parallel_executions: 2,
            max_agent_turns: Some(12),
            max_duration_seconds: Some(1_800),
            max_cost_micros: Some(5_000_000),
        },
        protected_git_actions: vec![ProtectedGitAction::Commit, ProtectedGitAction::Push],
    }
}

fn request(id: &str, action: PolicyAction) -> PolicyRequest {
    PolicyRequest {
        decision_id: PolicyDecisionId::from(id),
        project_id: ProjectId::from("project-1"),
        work_item_id: Some(WorkItemId::from("work-item-1")),
        actor: "worker-agent-1".to_owned(),
        action,
        usage: PolicyUsage::default(),
        work_item_budget: None,
        protected_git_approval: None,
        decided_at: "2026-08-08T14:00:00Z".to_owned(),
    }
}

fn approval(action: ProtectedGitAction) -> ProtectedGitApproval {
    ProtectedGitApproval {
        decision_id: PolicyDecisionId::from("user-approved-push"),
        project_id: ProjectId::from("project-1"),
        work_item_id: Some(WorkItemId::from("work-item-1")),
        action,
        approved_by: "Daniel".to_owned(),
        approved_at: "2026-08-08T14:01:00Z".to_owned(),
    }
}

#[test]
fn allows_an_explicitly_scoped_workspace_tool_and_returns_a_capability() {
    let authorization = PolicyGate::new(policy()).authorize(request(
        "allow-workspace-write",
        PolicyAction::Tool {
            scope: ToolScope::WriteAssignedWorkspace,
        },
    ));

    assert_eq!(authorization.decision().decision, PolicyDecisionKind::Allow);
    assert_eq!(
        authorization
            .authorized_action()
            .expect("allowed action should have a capability")
            .action(),
        &PolicyAction::Tool {
            scope: ToolScope::WriteAssignedWorkspace,
        }
    );
    assert_eq!(
        authorization.decision().outcome_summary,
        "Execution may proceed."
    );
}

#[test]
fn denies_an_unscoped_tool_without_consulting_agent_instruction_text() {
    let authorization = PolicyGate::new(policy()).authorize(request(
        "deny-network",
        PolicyAction::Tool {
            scope: ToolScope::NetworkAccess,
        },
    ));

    assert_eq!(authorization.decision().decision, PolicyDecisionKind::Deny);
    assert!(authorization.authorized_action().is_none());
    assert_eq!(
        authorization.decision().reason,
        "Tool scope network_access is not allowed by the active policy."
    );
    assert!(!authorization.decision().input_summary.contains("prompt"));
}

#[test]
fn denies_execution_start_when_parallel_capacity_is_exhausted() {
    let mut policy_request = request("deny-parallel-limit", PolicyAction::StartExecution);
    policy_request.usage.active_execution_count = 2;

    let authorization = PolicyGate::new(policy()).authorize(policy_request);

    assert_eq!(authorization.decision().decision, PolicyDecisionKind::Deny);
    assert!(authorization.authorized_action().is_none());
    assert_eq!(
        authorization.decision().reason,
        "Parallel execution limit 2 has been reached."
    );
}

#[test]
fn applies_the_strictest_project_or_work_item_budget_limit() {
    let mut policy_request = request(
        "deny-work-item-cost-limit",
        PolicyAction::Tool {
            scope: ToolScope::ReadAssignedWorkspace,
        },
    );
    policy_request.usage.cost_micros = 500;
    policy_request.work_item_budget = Some(WorkItemBudget {
        max_agent_turns: Some(8),
        max_duration_seconds: Some(900),
        max_cost_micros: Some(500),
    });

    let authorization = PolicyGate::new(policy()).authorize(policy_request);

    assert_eq!(authorization.decision().decision, PolicyDecisionKind::Deny);
    assert_eq!(
        authorization.decision().reason,
        "Cost limit 500 micros has been reached."
    );
}

#[test]
fn denies_agent_turn_and_duration_budget_exhaustion() {
    let mut agent_turn_request = request("deny-agent-turn-limit", PolicyAction::StartExecution);
    agent_turn_request.usage.agent_turns = 12;
    let mut duration_request = request(
        "deny-duration-limit",
        PolicyAction::Tool {
            scope: ToolScope::ReadAssignedWorkspace,
        },
    );
    duration_request.usage.duration_seconds = 1_800;
    let gate = PolicyGate::new(policy());

    let agent_turn_authorization = gate.authorize(agent_turn_request);
    let duration_authorization = gate.authorize(duration_request);

    assert_eq!(
        agent_turn_authorization.decision().reason,
        "Agent-turn limit 12 has been reached."
    );
    assert_eq!(
        duration_authorization.decision().reason,
        "Duration limit 1800 seconds has been reached."
    );
}

#[test]
fn requires_a_matching_approval_for_protected_git_actions() {
    let gate = PolicyGate::new(policy());
    let requested_action = PolicyAction::ProtectedGit {
        action: ProtectedGitAction::Push,
    };
    let required = gate.authorize(request("push-needs-approval", requested_action.clone()));
    let mut mismatched_request = request("push-wrong-approval", requested_action.clone());
    mismatched_request.protected_git_approval = Some(approval(ProtectedGitAction::Commit));
    let mismatched = gate.authorize(mismatched_request);
    let mut approved_request = request("push-approved", requested_action.clone());
    approved_request.protected_git_approval = Some(approval(ProtectedGitAction::Push));
    let approved = gate.authorize(approved_request);

    assert_eq!(
        required.decision().decision,
        PolicyDecisionKind::ApprovalRequired
    );
    assert!(required.authorized_action().is_none());
    assert_eq!(
        mismatched.decision().decision,
        PolicyDecisionKind::ApprovalRequired
    );
    assert_eq!(approved.decision().decision, PolicyDecisionKind::Allow);
    assert_eq!(
        approved.authorized_action().unwrap().action(),
        &requested_action
    );
}

#[test]
fn denies_protected_git_actions_that_are_not_enabled() {
    let authorization = PolicyGate::new(policy()).authorize(request(
        "deny-force-push",
        PolicyAction::ProtectedGit {
            action: ProtectedGitAction::ForcePush,
        },
    ));

    assert_eq!(authorization.decision().decision, PolicyDecisionKind::Deny);
    assert_eq!(
        authorization.decision().reason,
        "Protected Git action force_push is not enabled by the active policy."
    );
}

#[derive(Default)]
struct InMemoryRecorder {
    decisions: Vec<PolicyDecision>,
    approvals: Vec<ProtectedGitApproval>,
}

impl PolicyAuditStore for InMemoryRecorder {
    type Error = ();

    fn record_policy_decision(&mut self, decision: PolicyDecision) -> Result<(), Self::Error> {
        self.decisions.push(decision);
        Ok(())
    }

    fn has_recorded_protected_git_approval(
        &self,
        approval: &ProtectedGitApproval,
    ) -> Result<bool, Self::Error> {
        Ok(self.approvals.contains(approval))
    }
}

#[test]
fn records_allow_deny_and_approval_required_decisions_before_returning() {
    let gate = PolicyGate::new(policy());
    let mut recorder = AuditedStore::new(InMemoryRecorder::default());
    let mut approved_write = request(
        "record-allow",
        PolicyAction::Tool {
            scope: ToolScope::WriteAssignedWorkspace,
        },
    );
    approved_write.actor = "orchestrator-1".to_owned();

    let allow = gate
        .authorize_and_record(approved_write, &mut recorder)
        .expect("allow decision should be recorded");
    let deny = gate
        .authorize_and_record(
            request(
                "record-deny",
                PolicyAction::Tool {
                    scope: ToolScope::NetworkAccess,
                },
            ),
            &mut recorder,
        )
        .expect("deny decision should be recorded");
    let approval_required = gate
        .authorize_and_record(
            request(
                "record-approval-required",
                PolicyAction::ProtectedGit {
                    action: ProtectedGitAction::Commit,
                },
            ),
            &mut recorder,
        )
        .expect("approval-required decision should be recorded");

    assert_eq!(allow.decision().actor, "orchestrator-1");
    assert_eq!(
        recorder
            .store()
            .decisions
            .iter()
            .map(|decision| &decision.decision)
            .collect::<Vec<_>>(),
        vec![
            &PolicyDecisionKind::Allow,
            &PolicyDecisionKind::Deny,
            &PolicyDecisionKind::ApprovalRequired,
        ]
    );
    assert!(deny.authorized_action().is_none());
    assert!(approval_required.authorized_action().is_none());
}

#[test]
fn requires_an_approval_to_exist_in_the_audit_store_before_allowing_protected_git() {
    let gate = PolicyGate::new(policy());
    let mut policy_request = request(
        "audit-checked-push",
        PolicyAction::ProtectedGit {
            action: ProtectedGitAction::Push,
        },
    );
    let push_approval = approval(ProtectedGitAction::Push);
    policy_request.protected_git_approval = Some(push_approval.clone());
    let mut audit_store = AuditedStore::new(InMemoryRecorder::default());

    let missing_approval = gate
        .authorize_and_record(policy_request.clone(), &mut audit_store)
        .expect("approval-required decision should be recorded");
    let mut store = audit_store.into_store();
    store.approvals.push(push_approval);
    let mut audit_store = AuditedStore::new(store);
    let recorded_approval = gate
        .authorize_and_record(policy_request, &mut audit_store)
        .expect("approved decision should be recorded");

    assert_eq!(
        missing_approval.decision().decision,
        PolicyDecisionKind::ApprovalRequired
    );
    assert_eq!(
        recorded_approval.decision().decision,
        PolicyDecisionKind::Allow
    );
}

#[test]
fn records_the_request_identity_and_usage_summary_in_every_decision() {
    let mut policy_request = request("summary", PolicyAction::StartExecution);
    policy_request.usage.active_execution_count = 1;
    policy_request.usage.agent_turns = 3;
    policy_request.usage.duration_seconds = 45;
    policy_request.usage.cost_micros = 1_200;

    let authorization = PolicyGate::new(policy()).authorize(policy_request);
    let decision = authorization.decision();

    assert_eq!(decision.decision, PolicyDecisionKind::Allow);
    assert_eq!(decision.id, PolicyDecisionId::from("summary"));
    assert_eq!(decision.project_id, ProjectId::from("project-1"));
    assert_eq!(decision.work_item_id, Some(WorkItemId::from("work-item-1")));
    assert_eq!(decision.action, Some(PolicyAction::StartExecution));
    assert_eq!(decision.actor, "worker-agent-1");
    assert_eq!(decision.decided_at, "2026-08-08T14:00:00Z");
    assert_eq!(decision.schema.schema_version, 1);
    assert_eq!(
        decision.input_summary,
        "action=start_execution; active_executions=1; agent_turns=3; duration_seconds=45; cost_micros=1200"
    );
    assert_eq!(
        decision.reason,
        "Execution start is within the configured concurrency and budget limits."
    );
}

#[test]
fn summarises_tool_and_protected_git_actions_by_name() {
    let gate = PolicyGate::new(policy());
    let tool = gate.authorize(request(
        "tool",
        PolicyAction::Tool {
            scope: ToolScope::RunProjectChecks,
        },
    ));
    let push = gate.authorize(request(
        "push",
        PolicyAction::ProtectedGit {
            action: ProtectedGitAction::Push,
        },
    ));

    assert!(tool.decision().input_summary.starts_with("action=tool:run_project_checks;"));
    assert_eq!(
        tool.decision().reason,
        "Tool scope run_project_checks is allowed by the active policy."
    );
    assert!(push.decision().input_summary.starts_with("action=protected_git:push;"));
    assert_eq!(
        push.decision().reason,
        "Protected Git action push requires a matching user approval."
    );
    assert_eq!(
        push.decision().outcome_summary,
        "Execution is paused pending user approval."
    );
}

#[test]
fn exhausted_limits_deny_even_an_approved_protected_git_action() {
    let mut approved_request = request(
        "push-over-budget",
        PolicyAction::ProtectedGit {
            action: ProtectedGitAction::Push,
        },
    );
    approved_request.protected_git_approval = Some(approval(ProtectedGitAction::Push));
    approved_request.usage.agent_turns = 12;

    let authorization = PolicyGate::new(policy()).authorize(approved_request);

    assert_eq!(authorization.decision().decision, PolicyDecisionKind::Deny);
    assert_eq!(
        authorization.decision().outcome_summary,
        "Execution is blocked by policy."
    );
    assert!(authorization.authorized_action().is_none());
}

#[test]
fn an_approval_for_another_work_item_or_without_an_approver_is_not_matching() {
    let gate = PolicyGate::new(policy());
    let mut other_item = request(
        "push-other-item",
        PolicyAction::ProtectedGit {
            action: ProtectedGitAction::Push,
        },
    );
    let mut foreign = approval(ProtectedGitAction::Push);
    foreign.work_item_id = Some(WorkItemId::from("work-item-2"));
    other_item.protected_git_approval = Some(foreign);
    let mut blank_approver = request(
        "push-blank-approver",
        PolicyAction::ProtectedGit {
            action: ProtectedGitAction::Push,
        },
    );
    let mut anonymous = approval(ProtectedGitAction::Push);
    anonymous.approved_by = "  ".to_owned();
    blank_approver.protected_git_approval = Some(anonymous);

    assert_eq!(
        gate.authorize(other_item).decision().decision,
        PolicyDecisionKind::ApprovalRequired
    );
    assert_eq!(
        gate.authorize(blank_approver).decision().decision,
        PolicyDecisionKind::ApprovalRequired
    );
}

#[test]
fn combines_project_and_work_item_limits_by_taking_the_stricter() {
    assert_eq!(effective_u64_limit(Some(900), Some(1_800)), Some(900));
    assert_eq!(effective_u64_limit(Some(1_800), Some(900)), Some(900));
    assert_eq!(effective_u64_limit(None, Some(900)), Some(900));
    assert_eq!(effective_u64_limit(Some(900), None), Some(900));
    assert_eq!(effective_u64_limit(None, None), None);
    assert_eq!(effective_u32_limit(Some(12), Some(8)), Some(8));
    assert_eq!(effective_u32_limit(None, None), None);
}

#[test]
fn more_usage_turns_an_allowed_start_into_a_denied_one() {
    let gate = PolicyGate::new(policy());
    let allowed = gate.authorize(request("start-1", PolicyAction::StartExecution));
    let mut busy = request("start-2", PolicyAction::StartExecution);
    busy.usage.active_execution_count = 3;
    busy.usage.duration_seconds = 4_000;
    let denied = gate.authorize(busy);

    assert_eq!(allowed.decision().decision, PolicyDecisionKind::Allow);
    assert_eq!(denied.decision().decision, PolicyDecisionKind::Deny);
    assert_eq!(
        denied.decision().reason,
        "Parallel execution limit 2 has been reached."
    );
}

#[test]
fn sets_aside_an_approval_that_the_audit_store_does_not_hold() {
    let with_approval = || {
        let mut push = request(
            "push-with-approval",
            PolicyAction::ProtectedGit {
                action: ProtectedGitAction::Push,
            },
        );
        push.protected_git_approval = Some(approval(ProtectedGitAction::Push));
        push
    };

    let kept = keep_verified_approval(with_approval(), true);
    assert_eq!(
        kept.protected_git_approval,
        Some(approval(ProtectedGitAction::Push))
    );
    let set_aside = keep_verified_approval(with_approval(), false);
    assert_eq!(set_aside.protected_git_approval, None);
    assert_eq!(set_aside.decision_id, PolicyDecisionId::from("push-with-approval"));
}

#[test]
fn a_policy_listed_with_repeats_decides_as_its_set() {
    let mut repeated = policy();
    repeated
        .allowed_tool_scopes
        .push(ToolScope::WriteAssignedWorkspace);
    repeated.protected_git_actions.push(ProtectedGitAction::Push);
    for (id, action) in [
        (
            "repeat-write",
            PolicyAction::Tool {
                scope: ToolScope::WriteAssignedWorkspace,
            },
        ),
        (
            "repeat-network",
            PolicyAction::Tool {
                scope: ToolScope::NetworkAccess,
            },
        ),
        (
            "repeat-push",
            PolicyAction::ProtectedGit {
                action: ProtectedGitAction::Push,
            },
        ),
    ] {
        let from_repeats = PolicyGate::new(repeated.clone()).authorize(request(id, action));
        let from_set = PolicyGate::new(policy()).authorize(request(id, action));
        assert_eq!(from_repeats.decision(), from_set.decision());
    }
}
