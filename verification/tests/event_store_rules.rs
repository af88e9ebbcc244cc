use kanban_orchestrator::domain::{
    BoardId, ConnectorOutboxItemId, ConnectorReconciliationItemId, DependencyId, EvidenceId, Execution, ExecutionId, ExecutionStatus,
    ExecutionUsage, ExternalLinkId, PolicyAction, PolicyDecision, PolicyDecisionId,
    PlanId, TicketEffectId, PolicyDecisionKind, ProjectId, ProtectedGitAction, SchemaMetadata, SupervisionDecisionId,
    WorkItemEventId, WorkItemId, WorkItemState,
};
use kanban_orchestrator::persistence::board::{
    dependency_closes_cycle, idempotent_dependency, require_acyclic_dependency,
    require_dependency_board, BoardStoreError, Dependency, DependencyKind, DependencySource,
};
use kanban_orchestrator::persistence::board_library::{board_attention_summary, BoardAttentionSummary};
use kanban_orchestrator::persistence::connector_outbox::{
    claim_connector_outbox_item, finish_connector_outbox_item, recover_interrupted_delivery,
    field_key, require_connector_link, same_or_outbox_idempotency_conflict, same_or_outbox_item_conflict, state_key,
    ConnectorOutboxItem, ConnectorSharedField, ConnectorOutboxOperation, ConnectorOutboxState,
};
use kanban_orchestrator::persistence::connector_reconciliation::{
    same_or_reconciliation_item_conflict, same_or_reconciliation_revision_conflict,
    ConnectorReconciliationItem, ConnectorReconciliationState,
};
use kanban_orchestrator::persistence::execution::{
    check_activation, validate_activation_request, validate_execution_update,
};
use kanban_orchestrator::persistence::plan::{
    plan_confirmation_step, PlanConfirmation, PlanConfirmationAction, PlanCreationEvent,
    PlanDependency, PlanProposal, PlanWorkItem, StoredPlan,
};
use kanban_orchestrator::persistence::refinement::{
    idempotent_refinement, DetailsRefinement, RefineWorkItemDetailsCommand,
};
use kanban_orchestrator::persistence::schema::{pending_migrations, CURRENT_DATABASE_SCHEMA_VERSION};
use kanban_orchestrator::persistence::policy_audit::{
    admit_policy_decision, admit_protected_git_approval, approval_is_recorded, Admission,
};
use kanban_orchestrator::persistence::recovery::{
    plan_restart_recovery, restart_uncertainty_reason, uncertain_after_restart, RecoveryTransition,
};
use kanban_orchestrator::persistence::supervision::{
    ensure_pending_resolution, matching_decision, SupervisionAction, SupervisionDecision,
    SupervisionDecisionOutcome, SupervisionPolicyResult,
};
use kanban_orchestrator::persistence::ticket_effect::{
    checked_outcome_update, matching_effect, valid_outcome_update, BoardSupervisionMode,
    TicketEffect, TicketEffectAction, TicketEffectOutcome, TicketEffectProposal,
};
use kanban_orchestrator::persistence::{event_sequence, EventStoreError};
use kanban_orchestrator::policy::ProtectedGitApproval;

#[test]
fn rejects_negative_database_sequences() {
    assert!(event_sequence(-1).is_err());
}

#[test]
fn reads_database_sequences_and_names_the_refused_value() {
    assert_eq!(event_sequence(0), Ok(0));
    assert_eq!(event_sequence(i64::MAX), Ok(i64::MAX as u64));
    assert_eq!(
        event_sequence(i64::MIN),
        Err(EventStoreError::InvalidEventSequence { value: i64::MIN })
    );
    assert_eq!(
        EventStoreError::InvalidEventSequence { value: -7 }.to_string(),
        "event sequence -7 is outside the supported range"
    );
}

fn outbox_item() -> ConnectorOutboxItem {
    ConnectorOutboxItem {
        schema: SchemaMetadata::current(),
        id: ConnectorOutboxItemId::from("outbox-1"),
        work_item_id: WorkItemId::from("task-1"),
        connector_id: "linear".to_owned(),
        external_link_id: ExternalLinkId::from("linear-link-1"),
        idempotency_key: "task-1:review:1".to_owned(),
        operation: ConnectorOutboxOperation::Comment {
            body: "A safe public update.".to_owned(),
        },
        state: ConnectorOutboxState::Pending,
        created_at: "2026-08-09T10:00:00Z".to_owned(),
        delivered_at: None,
    }
}

#[test]
fn claims_a_pending_outbox_item_once() {
    let id = ConnectorOutboxItemId::from("outbox-1");
    let claimed = claim_connector_outbox_item(Some(outbox_item()), &id)
        .expect("one delivery worker should claim the item");
    assert_eq!(claimed.state, ConnectorOutboxState::Delivering);
    assert!(matches!(
        claim_connector_outbox_item(Some(claimed), &id),
        Err(EventStoreError::ConnectorOutboxCannotTransition { .. })
    ));
    assert!(matches!(
        claim_connector_outbox_item(None, &ConnectorOutboxItemId::from("missing-outbox")),
        Err(EventStoreError::ConnectorOutboxItemConflict { .. })
    ));
}

#[test]
fn finishes_only_a_claimed_outbox_item() {
    let id = ConnectorOutboxItemId::from("outbox-1");
    assert!(matches!(
        finish_connector_outbox_item(
            Some(outbox_item()),
            &id,
            ConnectorOutboxState::Delivered,
            Some("2026-08-09T10:01:00Z".to_owned())
        ),
        Err(EventStoreError::ConnectorOutboxCannotTransition { .. })
    ));
    let claimed = claim_connector_outbox_item(Some(outbox_item()), &id).expect("claim");
    let delivered = finish_connector_outbox_item(
        Some(claimed),
        &id,
        ConnectorOutboxState::Delivered,
        Some("2026-08-09T10:01:00Z".to_owned()),
    )
    .expect("delivery result should persist");
    assert_eq!(delivered.state, ConnectorOutboxState::Delivered);
    assert_eq!(delivered.delivered_at.as_deref(), Some("2026-08-09T10:01:00Z"));
    assert!(finish_connector_outbox_item(
        Some(delivered),
        &id,
        ConnectorOutboxState::Delivered,
        None
    )
    .is_err());
}

#[test]
fn marks_an_interrupted_delivery_uncertain_without_retrying_it() {
    let id = ConnectorOutboxItemId::from("outbox-1");
    let claimed = claim_connector_outbox_item(Some(outbox_item()), &id).expect("claim");
    let recovered = recover_interrupted_delivery(claimed);
    assert_eq!(recovered.state, ConnectorOutboxState::DeliveryUncertain);
    assert!(recovered.delivered_at.is_none());
    assert!(claim_connector_outbox_item(Some(recovered), &id).is_err());
    let untouched = recover_interrupted_delivery(outbox_item());
    assert_eq!(untouched, outbox_item());
    assert_eq!(state_key(ConnectorOutboxState::DeliveryUncertain), "delivery_uncertain");
    assert_eq!(state_key(ConnectorOutboxState::Pending), "pending");
}

#[test]
fn outbox_repeats_must_match_the_recorded_intent() {
    assert_eq!(
        same_or_outbox_item_conflict(outbox_item(), outbox_item()).expect("same intent"),
        outbox_item()
    );
    let mut changed = outbox_item();
    changed.operation = ConnectorOutboxOperation::Comment {
        body: "A different public update.".to_owned(),
    };
    assert!(matches!(
        same_or_outbox_item_conflict(outbox_item(), changed),
        Err(EventStoreError::ConnectorOutboxItemConflict { .. })
    ));
    let mut other_id = outbox_item();
    other_id.id = ConnectorOutboxItemId::from("outbox-2");
    assert_eq!(
        same_or_outbox_idempotency_conflict(outbox_item(), other_id).expect("same key and intent"),
        outbox_item()
    );
    let mut other_body = outbox_item();
    other_body.id = ConnectorOutboxItemId::from("outbox-2");
    other_body.operation = ConnectorOutboxOperation::Comment {
        body: "A different public update.".to_owned(),
    };
    assert_eq!(
        same_or_outbox_idempotency_conflict(outbox_item(), other_body).unwrap_err().to_string(),
        "connector outbox key linear:task-1:review:1 conflicts with an existing item"
    );
}

fn execution() -> Execution {
    Execution {
        schema: SchemaMetadata::current(),
        id: ExecutionId::from("execution-1"),
        work_item_id: WorkItemId::from("task-1"),
        adapter_name: "codex".to_owned(),
        status: ExecutionStatus::Pending,
        session_id: None,
        workspace_path: "/workspaces/task-1".to_owned(),
        usage: ExecutionUsage {
            input_tokens: 10,
            output_tokens: 5,
            cost_micros: Some(100),
        },
        last_event_sequence: 3,
    }
}

fn reason_of(result: Result<(), EventStoreError>) -> &'static str {
    match result {
        Err(EventStoreError::InvalidExecutionUpdate { reason, .. }) => reason,
        other => panic!("update should be refused, got {other:?}"),
    }
}

#[test]
fn execution_updates_keep_identity_and_progress() {
    let recorded = execution();
    let mut running = execution();
    running.status = ExecutionStatus::Running;
    running.session_id = Some("session-1".to_owned());
    running.usage.input_tokens = 20;
    running.last_event_sequence = 4;
    validate_execution_update(&recorded, &running, true).expect("progress should be accepted");

    let mut moved = execution();
    moved.workspace_path = "/elsewhere".to_owned();
    assert_eq!(
        reason_of(validate_execution_update(&recorded, &moved, true)),
        "execution identity is immutable"
    );
    let mut blank = execution();
    blank.session_id = Some("  ".to_owned());
    assert_eq!(
        reason_of(validate_execution_update(&recorded, &blank, true)),
        "session identity cannot be blank"
    );
    let mut replaced = running_with_session("session-2");
    replaced.status = ExecutionStatus::Running;
    assert_eq!(
        reason_of(validate_execution_update(&running_with_session("session-1"), &replaced, true)),
        "session identity cannot be replaced or removed"
    );
    let mut sessionless = execution();
    sessionless.status = ExecutionStatus::Running;
    assert_eq!(
        reason_of(validate_execution_update(&recorded, &sessionless, true)),
        "a running execution requires an attached session"
    );
    let mut dropped_cost = execution();
    dropped_cost.usage.cost_micros = None;
    assert_eq!(
        reason_of(validate_execution_update(&recorded, &dropped_cost, true)),
        "usage cannot decrease or discard recorded cost"
    );
    let mut rewound = execution();
    rewound.last_event_sequence = 2;
    assert_eq!(
        reason_of(validate_execution_update(&recorded, &rewound, true)),
        "event sequence cannot decrease"
    );
    assert_eq!(
        reason_of(validate_execution_update(&recorded, &running, false)),
        "status transition is not allowed"
    );
    assert_eq!(
        EventStoreError::InvalidExecutionUpdate {
            execution_id: ExecutionId::from("execution-1"),
            reason: "event sequence cannot decrease"
        }
        .to_string(),
        "execution execution-1 cannot be updated: event sequence cannot decrease"
    );
}

fn running_with_session(session: &str) -> Execution {
    let mut e = execution();
    e.status = ExecutionStatus::Running;
    e.session_id = Some(session.to_owned());
    e
}

fn effect(id: &str, key: &str) -> TicketEffect {
    TicketEffect {
        schema: SchemaMetadata::current(),
        id: TicketEffectId::from(id),
        board_id: BoardId::from("board-1"),
        work_item_id: WorkItemId::from("task-1"),
        organiser_profile_name: "organiser".to_owned(),
        action: TicketEffectAction::GiveWorkerGuidance,
        prompt_summary: "Tell the worker where to start.".to_owned(),
        recommendation: "Guide the worker through the first check.".to_owned(),
        rationale: "The task needs a concise starting point.".to_owned(),
        proposal: TicketEffectProposal {
            worker_guidance: Some("Run the focused tests before editing.".to_owned()),
        },
        authority_mode: BoardSupervisionMode::Manual,
        supervision_revision: None,
        policy_result: SupervisionPolicyResult::NotRequired,
        outcome: TicketEffectOutcome::Pending,
        idempotency_key: key.to_owned(),
        expected_work_item_sequence: 1,
        recorded_at: "2026-08-10T12:00:00Z".to_owned(),
        outcome_at: None,
    }
}

fn moved_to(mut effect: TicketEffect, outcome: TicketEffectOutcome, at: &str) -> TicketEffect {
    effect.outcome = outcome;
    effect.outcome_at = Some(at.to_owned());
    effect
}

#[test]
fn ticket_effect_outcomes_follow_the_review_order() {
    let pending = effect("effect-1", "request-1");
    let reviewable = moved_to(effect("effect-1", "request-1"), TicketEffectOutcome::AwaitingApproval, "2026-08-10T12:01:00Z");
    assert!(valid_outcome_update(&pending, &reviewable));
    let cancelled = moved_to(effect("effect-1", "request-1"), TicketEffectOutcome::Cancelled, "2026-08-10T12:02:00Z");
    assert!(valid_outcome_update(&reviewable, &cancelled));
    let reopened = moved_to(effect("effect-1", "request-1"), TicketEffectOutcome::Applied, "2026-08-10T12:03:00Z");
    assert!(!valid_outcome_update(&cancelled, &reopened));
    assert_eq!(
        checked_outcome_update(&cancelled, reopened),
        Err(EventStoreError::TicketEffectInvalidOutcomeTransition {
            effect_id: TicketEffectId::from("effect-1")
        })
    );
    let all = [
        TicketEffectOutcome::Pending,
        TicketEffectOutcome::AwaitingApproval,
        TicketEffectOutcome::Applied,
        TicketEffectOutcome::Denied,
        TicketEffectOutcome::Stale,
        TicketEffectOutcome::Recovered,
        TicketEffectOutcome::Rejected,
        TicketEffectOutcome::Cancelled,
    ];
    for (initial, terminal) in [
        (TicketEffectOutcome::Pending, TicketEffectOutcome::Applied),
        (TicketEffectOutcome::Pending, TicketEffectOutcome::Denied),
        (TicketEffectOutcome::Pending, TicketEffectOutcome::Stale),
        (TicketEffectOutcome::Pending, TicketEffectOutcome::Recovered),
        (TicketEffectOutcome::AwaitingApproval, TicketEffectOutcome::Rejected),
        (TicketEffectOutcome::AwaitingApproval, TicketEffectOutcome::Denied),
        (TicketEffectOutcome::AwaitingApproval, TicketEffectOutcome::Stale),
    ] {
        let from = moved_to(effect("e", "k"), initial, "2026-08-10T12:01:00Z");
        let to = moved_to(effect("e", "k"), terminal, "2026-08-10T12:02:00Z");
        assert!(valid_outcome_update(&from, &to));
        assert_eq!(
            checked_outcome_update(&from, moved_to(effect("e", "k"), terminal, "2026-08-10T12:02:00Z")),
            Ok(to)
        );
        for later in all {
            let ended = moved_to(effect("e", "k"), terminal, "2026-08-10T12:02:00Z");
            assert!(!valid_outcome_update(&ended, &moved_to(effect("e", "k"), later, "2026-08-10T12:03:00Z")));
        }
    }
    assert!(!valid_outcome_update(&pending, &effect("effect-1", "request-1")));
    assert!(!valid_outcome_update(
        &reviewable,
        &moved_to(effect("effect-1", "request-1"), TicketEffectOutcome::Recovered, "2026-08-10T12:02:00Z")
    ));
}

#[test]
fn refuses_an_outcome_update_that_changes_a_recorded_audit_field() {
    for field in [
        "board",
        "work item",
        "organiser",
        "action",
        "prompt",
        "recommendation",
        "rationale",
        "proposal",
        "authority",
        "revision",
        "idempotency key",
        "sequence",
        "recorded at",
    ] {
        let original = effect(field, field);
        let mut mutated = moved_to(effect(field, field), TicketEffectOutcome::Applied, "2026-08-10T12:30:00Z");
        match field {
            "board" => mutated.board_id = BoardId::from("another-board"),
            "work item" => mutated.work_item_id = WorkItemId::from("another-task"),
            "organiser" => mutated.organiser_profile_name = "another-organiser".to_owned(),
            "action" => mutated.action = TicketEffectAction::ExplainEvidence,
            "prompt" => mutated.prompt_summary = "A different safe summary.".to_owned(),
            "recommendation" => mutated.recommendation = "A different recommendation.".to_owned(),
            "rationale" => mutated.rationale = "A different rationale.".to_owned(),
            "proposal" => mutated.proposal.worker_guidance = Some("A different guide.".to_owned()),
            "authority" => mutated.authority_mode = BoardSupervisionMode::Autonomous,
            "revision" => mutated.supervision_revision = Some(2),
            "idempotency key" => mutated.idempotency_key = "another-key".to_owned(),
            "sequence" => mutated.expected_work_item_sequence = 2,
            "recorded at" => mutated.recorded_at = "2026-08-10T12:30:00Z".to_owned(),
            other => panic!("unexpected field {other}"),
        }
        assert!(!valid_outcome_update(&original, &mutated), "{field} must not change");
    }
    let original = effect("effect-1", "request-1");
    let mut renamed = moved_to(effect("effect-1", "request-1"), TicketEffectOutcome::Applied, "t");
    renamed.id = TicketEffectId::from("effect-2");
    assert!(!valid_outcome_update(&original, &renamed));
}

#[test]
fn repeats_a_recorded_ticket_effect_and_refuses_a_changed_one() {
    assert_eq!(
        matching_effect(effect("effect-1", "request-1"), effect("effect-1", "request-1")),
        Ok(effect("effect-1", "request-1"))
    );
    let mut changed = effect("effect-1", "request-1");
    changed.rationale = "Another rationale.".to_owned();
    let refused = matching_effect(effect("effect-1", "request-1"), changed).unwrap_err();
    assert_eq!(
        refused,
        EventStoreError::TicketEffectConflict {
            effect_id: TicketEffectId::from("effect-1")
        }
    );
    assert_eq!(
        refused.to_string(),
        "ticket effect effect-1 conflicts with a recorded effect"
    );
}

fn decision(kind: PolicyDecisionKind, actor: &str) -> PolicyDecision {
    PolicyDecision {
        schema: SchemaMetadata::current(),
        id: PolicyDecisionId::from("decision-1"),
        project_id: ProjectId::from("project-1"),
        work_item_id: Some(WorkItemId::from("task-1")),
        action: Some(PolicyAction::ProtectedGit {
            action: ProtectedGitAction::Push,
        }),
        decision: kind,
        actor: actor.to_owned(),
        input_summary: "action=protected_git:push".to_owned(),
        outcome_summary: "allowed".to_owned(),
        reason: "approved".to_owned(),
        decided_at: "2026-08-08T14:00:00Z".to_owned(),
    }
}

fn push_approval() -> ProtectedGitApproval {
    ProtectedGitApproval {
        decision_id: PolicyDecisionId::from("decision-1"),
        project_id: ProjectId::from("project-1"),
        work_item_id: Some(WorkItemId::from("task-1")),
        action: ProtectedGitAction::Push,
        approved_by: "Daniel".to_owned(),
        approved_at: "2026-08-08T14:01:00Z".to_owned(),
    }
}

#[test]
fn admits_policy_decisions_idempotently() {
    let first = admit_policy_decision(None, decision(PolicyDecisionKind::Allow, "Daniel"))
        .expect("new decision");
    assert!(matches!(first, Admission::Insert(_)));
    let repeat = admit_policy_decision(
        Some(decision(PolicyDecisionKind::Allow, "Daniel")),
        decision(PolicyDecisionKind::Allow, "Daniel"),
    )
    .expect("repeat");
    assert!(matches!(repeat, Admission::AlreadyRecorded(_)));
    assert!(matches!(
        admit_policy_decision(
            Some(decision(PolicyDecisionKind::Allow, "Daniel")),
            decision(PolicyDecisionKind::Deny, "Daniel")
        ),
        Err(EventStoreError::PolicyDecisionIdConflict { .. })
    ));
}

#[test]
fn admits_only_approvals_that_a_recorded_allow_authorizes() {
    assert!(matches!(
        admit_protected_git_approval(None, None, push_approval()),
        Err(EventStoreError::PolicyApprovalDecisionNotFound { .. })
    ));
    assert!(matches!(
        admit_protected_git_approval(
            None,
            Some(decision(PolicyDecisionKind::Allow, "Daniel")),
            push_approval()
        ),
        Ok(Admission::Insert(_))
    ));
    for mismatched in [
        decision(PolicyDecisionKind::Deny, "Daniel"),
        decision(PolicyDecisionKind::Allow, "Someone else"),
    ] {
        assert!(matches!(
            admit_protected_git_approval(None, Some(mismatched), push_approval()),
            Err(EventStoreError::PolicyApprovalDecisionMismatch { .. })
        ));
    }
    assert!(matches!(
        admit_protected_git_approval(Some(push_approval()), None, push_approval()),
        Ok(Admission::AlreadyRecorded(_))
    ));
    let mut changed = push_approval();
    changed.approved_at = "later".to_owned();
    assert!(matches!(
        admit_protected_git_approval(Some(push_approval()), None, changed),
        Err(EventStoreError::ProtectedGitApprovalIdConflict { .. })
    ));
    assert!(approval_is_recorded(&Some(push_approval()), &push_approval()));
    assert!(!approval_is_recorded(&None, &push_approval()));
}

fn supervision(outcome: SupervisionDecisionOutcome, resolved_at: Option<&str>) -> SupervisionDecision {
    SupervisionDecision {
        schema: SchemaMetadata::current(),
        id: SupervisionDecisionId::from("decision-1"),
        board_id: BoardId::from("board-1"),
        work_item_id: Some(WorkItemId::from("task-1")),
        organiser_profile_name: "organiser".to_owned(),
        action: SupervisionAction::PrepareWork,
        recommendation: "Prepare the task.".to_owned(),
        rationale: "It is ready.".to_owned(),
        policy_result: SupervisionPolicyResult::NotRequired,
        outcome,
        idempotency_key: "revision-1:task-1:1:PrepareWork".to_owned(),
        expected_work_item_sequence: Some(1),
        recorded_at: "2026-08-10T10:00:00Z".to_owned(),
        resolved_at: resolved_at.map(str::to_owned),
    }
}

#[test]
fn a_pending_supervision_decision_resolves_once() {
    let pending = supervision(SupervisionDecisionOutcome::Pending, None);
    let executed = supervision(SupervisionDecisionOutcome::Executed, Some("2026-08-10T10:01:00Z"));
    ensure_pending_resolution(Some(pending), &executed).expect("pending decision should resolve");
    assert!(matches!(
        ensure_pending_resolution(
            Some(supervision(SupervisionDecisionOutcome::Executed, Some("2026-08-10T10:01:00Z"))),
            &executed
        ),
        Err(EventStoreError::SupervisionDecisionConflict { .. })
    ));
    assert!(matches!(
        ensure_pending_resolution(None, &executed),
        Err(EventStoreError::SupervisionDecisionNotFound { .. })
    ));
    let mut edited = supervision(SupervisionDecisionOutcome::Executed, Some("2026-08-10T10:01:00Z"));
    edited.rationale = "A later process cannot edit this audit record.".to_owned();
    assert!(ensure_pending_resolution(
        Some(supervision(SupervisionDecisionOutcome::Pending, None)),
        &edited
    )
    .is_err());
}

#[test]
fn repeats_a_supervision_delivery_and_refuses_a_changed_one() {
    let pending = supervision(SupervisionDecisionOutcome::Pending, None);
    assert_eq!(
        matching_decision(supervision(SupervisionDecisionOutcome::Pending, None), pending)
            .expect("duplicate delivery should return recorded decision"),
        supervision(SupervisionDecisionOutcome::Pending, None)
    );
    let mut changed = supervision(SupervisionDecisionOutcome::Pending, None);
    changed.recommendation = "Start the task instead.".to_owned();
    assert!(matches!(
        matching_decision(supervision(SupervisionDecisionOutcome::Pending, None), changed),
        Err(EventStoreError::SupervisionDecisionConflict { .. })
    ));
}

#[test]
fn plans_restart_recovery_for_unconfirmed_live_work_only() {
    let items = vec![
        (WorkItemId::from("task-2"), WorkItemState::AwaitingInput),
        (WorkItemId::from("task-3"), WorkItemState::Running),
        (WorkItemId::from("task-1"), WorkItemState::Running),
        (WorkItemId::from("task-4"), WorkItemState::Ready),
    ];
    let confirmed = vec![WorkItemId::from("task-3")];
    let event_ids = vec![
        (WorkItemId::from("task-2"), "recover-task-2".to_owned()),
        (WorkItemId::from("task-1"), "recover-task-1".to_owned()),
    ];
    let interrupted = |id: &str, event: &str| RecoveryTransition {
        event_id: event.to_owned(),
        work_item_id: WorkItemId::from(id),
        next_state: WorkItemState::Interrupted,
        reason: "The daemon restarted before a live execution could be confirmed.".to_owned(),
        recorded_at: "2026-08-08T00:01:00Z".to_owned(),
    };
    let plan = plan_restart_recovery(&items, &confirmed, &event_ids, "2026-08-08T00:01:00Z")
        .expect("plan");
    assert_eq!(
        plan,
        vec![
            interrupted("task-1", "recover-task-1"),
            interrupted("task-2", "recover-task-2"),
        ]
    );
    let only_second = vec![(WorkItemId::from("task-2"), "recover-task-2".to_owned())];
    match plan_restart_recovery(&items, &Vec::new(), &only_second, "2026-08-08T00:01:00Z") {
        Err(EventStoreError::MissingRecoveryEventId { work_item_id }) => {
            assert_eq!(work_item_id, WorkItemId::from("task-1"));
        }
        other => panic!("unexpected plan {other:?}"),
    }
    assert!(plan_restart_recovery(&Vec::new(), &Vec::new(), &Vec::new(), "2026-08-08T00:01:00Z")
        .expect("nothing to recover")
        .is_empty());
    assert!(uncertain_after_restart(WorkItemState::AwaitingInput));
    assert!(!uncertain_after_restart(WorkItemState::Review));
    assert_eq!(
        restart_uncertainty_reason(),
        "The daemon restarted before a live execution could be confirmed."
    );
}

#[test]
fn plans_every_missing_schema_migration_in_order() {
    assert_eq!(
        pending_migrations(0).expect("a new database migrates"),
        vec![1, 2, 3, 4, 5, 6, 7, 8, 9, 10, 11, 12]
    );
    assert_eq!(
        pending_migrations(7).expect("an older database migrates"),
        vec![8, 9, 10, 11, 12]
    );
    assert!(pending_migrations(CURRENT_DATABASE_SCHEMA_VERSION)
        .expect("a current database needs nothing")
        .is_empty());
}

#[test]
fn rejects_databases_created_by_a_newer_schema_version() {
    let newer = pending_migrations(13).unwrap_err();
    assert_eq!(
        newer,
        EventStoreError::UnsupportedDatabaseSchemaVersion {
            current: 13,
            supported: 12
        }
    );
    assert_eq!(
        newer.to_string(),
        "database schema version 13 is newer than the supported version 12"
    );
}

#[test]
fn activates_only_a_running_execution_for_its_own_work_item() {
    let mut active = execution();
    active.status = ExecutionStatus::Running;
    active.session_id = Some("session-1".to_owned());
    let event_id = WorkItemEventId::from("start-execution-1");
    let task = WorkItemId::from("task-1");
    validate_activation_request(
        &active,
        &task,
        WorkItemState::Running,
        &event_id,
        "Agent session session-1 started.",
    )
    .expect("activation should be accepted");
    assert!(matches!(
        validate_activation_request(&execution(), &task, WorkItemState::Running, &event_id, "started"),
        Err(EventStoreError::InvalidExecutionUpdate {
            reason: "activation must attach a session and start its matching work item",
            ..
        })
    ));
    assert!(matches!(
        validate_activation_request(
            &active,
            &WorkItemId::from("task-2"),
            WorkItemState::Running,
            &event_id,
            "started"
        ),
        Err(EventStoreError::InvalidExecutionUpdate { .. })
    ));
    assert!(matches!(
        validate_activation_request(&active, &task, WorkItemState::Review, &event_id, "started"),
        Err(EventStoreError::InvalidExecutionUpdate { .. })
    ));
    assert_eq!(
        validate_activation_request(&active, &task, WorkItemState::Running, &event_id, "  ")
            .unwrap_err()
            .to_string(),
        "state-transition event start-execution-1 requires a reason"
    );
}

#[test]
fn spells_out_each_event_store_refusal() {
    let cases = vec![
        (
            EventStoreError::WorkItemAlreadyExists { work_item_id: WorkItemId::from("task-1") },
            "work item task-1 already exists",
        ),
        (
            EventStoreError::WorkItemNotFound { work_item_id: WorkItemId::from("missing-task") },
            "work item missing-task was not found",
        ),
        (
            EventStoreError::ExecutionNotFound { execution_id: ExecutionId::from("missing-execution") },
            "execution missing-execution was not found",
        ),
        (
            EventStoreError::EvidenceWorkItemMismatch {
                evidence_id: EvidenceId::from("evidence-1"),
                work_item_id: WorkItemId::from("task-2"),
            },
            "evidence evidence-1 does not belong to work item task-2",
        ),
        (
            EventStoreError::ExternalResourceAlreadyLinked {
                connector_id: "linear".to_owned(),
                external_id: "LIN-42".to_owned(),
            },
            "external resource linear:LIN-42 is already linked",
        ),
        (
            EventStoreError::ConnectorReconciliationRevisionConflict {
                external_link_id: ExternalLinkId::from("linear-link-1"),
                field: "title".to_owned(),
                remote_revision: "r1".to_owned(),
            },
            "connector reconciliation revision linear-link-1:title:r1 conflicts with an existing item",
        ),
        (
            EventStoreError::EventIdConflict { event_id: WorkItemEventId::from("plan-task-1") },
            "event id plan-task-1 conflicts with a recorded event",
        ),
        (
            EventStoreError::PolicyApprovalDecisionNotFound {
                decision_id: PolicyDecisionId::from("decision-1"),
            },
            "protected Git approval requires recorded policy decision decision-1",
        ),
        (
            EventStoreError::MissingRecoveryEventId { work_item_id: WorkItemId::from("task-1") },
            "restart reconciliation requires an event id for uncertain work item task-1",
        ),
    ];
    for (error, message) in cases {
        assert_eq!(error.to_string(), message);
    }
}

#[test]
fn counts_running_work_and_work_that_needs_attention() {
    let summary = board_attention_summary(&vec![
        WorkItemState::Running,
        WorkItemState::Review,
        WorkItemState::Ready,
        WorkItemState::AwaitingInput,
        WorkItemState::Failed,
        WorkItemState::Interrupted,
        WorkItemState::Blocked,
        WorkItemState::Done,
        WorkItemState::Running,
    ]);
    assert_eq!(
        summary,
        BoardAttentionSummary {
            active_work_item_count: 2,
            needs_attention_count: 5
        }
    );
    assert_eq!(board_attention_summary(&Vec::new()), BoardAttentionSummary::default());
}

#[test]
fn keeps_dependencies_on_one_board_and_spells_out_board_refusals() {
    let dependency = DependencyId::from("task-1-blocks-task-2");
    let upstream = WorkItemId::from("task-1");
    let downstream = WorkItemId::from("task-2");
    assert_eq!(
        require_dependency_board(
            &dependency,
            &upstream,
            Some(BoardId::from("board-1")),
            &downstream,
            Some(BoardId::from("board-1"))
        ),
        Ok(BoardId::from("board-1"))
    );
    let crossing = require_dependency_board(
        &dependency,
        &upstream,
        Some(BoardId::from("board-1")),
        &downstream,
        Some(BoardId::from("board-2")),
    )
    .unwrap_err();
    assert_eq!(
        crossing.to_string(),
        "dependency task-1-blocks-task-2 crosses boards board-1 and board-2"
    );
    assert_eq!(
        require_dependency_board(&dependency, &upstream, None, &downstream, None),
        Err(BoardStoreError::WorkItemNotFound {
            work_item_id: upstream.clone()
        })
    );
    assert_eq!(
        require_dependency_board(&dependency, &upstream, Some(BoardId::from("board-1")), &downstream, None),
        Err(BoardStoreError::WorkItemNotFound {
            work_item_id: downstream.clone()
        })
    );
    assert_eq!(
        BoardStoreError::DependencyIdConflict {
            dependency_id: DependencyId::from("same-id")
        }
        .to_string(),
        "dependency id same-id conflicts with a recorded dependency"
    );
    let wrapped = BoardStoreError::EventStore(EventStoreError::WorkItemNotFound {
        work_item_id: WorkItemId::from("missing-task"),
    });
    assert_eq!(
        wrapped.to_string(),
        "board-store event error: work item missing-task was not found"
    );
    assert!(wrapped.source().is_some());
    assert!(crossing.source().is_none());
    assert_eq!(
        BoardStoreError::ProjectNotFound {
            project_id: ProjectId::from("missing-project")
        }
        .to_string(),
        "project missing-project was not found"
    );
}

#[test]
fn indexes_shared_fields_and_delivery_states_by_name() {
    assert_eq!(field_key(ConnectorSharedField::Title), "title");
    assert_eq!(field_key(ConnectorSharedField::Description), "description");
    assert_eq!(field_key(ConnectorSharedField::WorkflowState), "workflow_state");
    assert_eq!(state_key(ConnectorOutboxState::Delivering), "delivering");
    assert_eq!(state_key(ConnectorOutboxState::Delivered), "delivered");
}

fn planned(id: &str) -> PlanWorkItem {
    PlanWorkItem {
        id: WorkItemId::from(id),
        board_id: BoardId::from("board-1"),
        title: format!("Do {id}"),
    }
}

fn proposal() -> PlanProposal {
    PlanProposal {
        id: PlanId::from("plan-1"),
        work_items: vec![planned("task-1"), planned("task-2")],
        dependencies: vec![PlanDependency {
            id: DependencyId::from("task-1-blocks-task-2"),
            upstream_work_item_id: WorkItemId::from("task-1"),
            downstream_work_item_id: WorkItemId::from("task-2"),
        }],
    }
}

fn confirmation(at: &str) -> PlanConfirmation {
    PlanConfirmation {
        confirmed_by: "Daniel".to_owned(),
        confirmed_at: at.to_owned(),
    }
}

#[test]
fn confirms_a_recorded_plan_once_and_materializes_its_work_items() {
    let unconfirmed = StoredPlan {
        proposal: proposal(),
        confirmation: None,
    };
    let action = plan_confirmation_step(
        Some(&unconfirmed),
        &proposal(),
        &confirmation("2026-08-10T12:00:00Z"),
        &Vec::new(),
        &Vec::new(),
    )
    .expect("the plan materializes");
    assert_eq!(
        action,
        PlanConfirmationAction::Materialize {
            board_id: BoardId::from("board-1"),
            events: vec![
                PlanCreationEvent {
                    event_id: "plan-plan-1-create-task-1".to_owned(),
                    work_item_id: WorkItemId::from("task-1"),
                    recorded_at: "2026-08-10T12:00:00Z".to_owned(),
                },
                PlanCreationEvent {
                    event_id: "plan-plan-1-create-task-2".to_owned(),
                    work_item_id: WorkItemId::from("task-2"),
                    recorded_at: "2026-08-10T12:00:00Z".to_owned(),
                },
            ],
        }
    );

    let confirmed = StoredPlan {
        proposal: proposal(),
        confirmation: Some(confirmation("2026-08-10T12:00:00Z")),
    };
    assert_eq!(
        plan_confirmation_step(
            Some(&confirmed),
            &proposal(),
            &confirmation("2026-08-10T12:00:00Z"),
            &Vec::new(),
            &Vec::new(),
        ),
        Ok(PlanConfirmationAction::AlreadyConfirmed)
    );
    assert_eq!(
        plan_confirmation_step(
            Some(&confirmed),
            &proposal(),
            &confirmation("2026-08-10T13:00:00Z"),
            &Vec::new(),
            &Vec::new(),
        ),
        Err(BoardStoreError::PlanConfirmationConflict {
            plan_id: PlanId::from("plan-1")
        })
    );
}

#[test]
fn refuses_a_plan_confirmation_that_does_not_match_the_board() {
    let at = confirmation("2026-08-10T12:00:00Z");
    assert_eq!(
        plan_confirmation_step(None, &proposal(), &at, &Vec::new(), &Vec::new()),
        Err(BoardStoreError::PlanNotFound {
            plan_id: PlanId::from("plan-1")
        })
    );
    let empty = PlanProposal {
        id: PlanId::from("plan-empty"),
        work_items: Vec::new(),
        dependencies: Vec::new(),
    };
    let stored_empty = StoredPlan {
        proposal: PlanProposal {
            id: PlanId::from("plan-empty"),
            work_items: Vec::new(),
            dependencies: Vec::new(),
        },
        confirmation: None,
    };
    assert_eq!(
        plan_confirmation_step(Some(&stored_empty), &empty, &at, &Vec::new(), &Vec::new()),
        Err(BoardStoreError::PlanNotFound {
            plan_id: PlanId::from("plan-empty")
        })
    );
    let mut changed = proposal();
    changed.work_items[1].title = "Something else".to_owned();
    let unconfirmed = StoredPlan {
        proposal: proposal(),
        confirmation: None,
    };
    assert_eq!(
        plan_confirmation_step(Some(&unconfirmed), &changed, &at, &Vec::new(), &Vec::new()),
        Err(BoardStoreError::PlanProposalConflict {
            plan_id: PlanId::from("plan-1")
        })
    );
    assert_eq!(
        plan_confirmation_step(
            Some(&unconfirmed),
            &proposal(),
            &at,
            &vec![WorkItemId::from("task-2")],
            &vec![DependencyId::from("task-1-blocks-task-2")],
        ),
        Err(BoardStoreError::PlanWorkItemAlreadyExists {
            work_item_id: WorkItemId::from("task-2")
        })
    );
    let refused = plan_confirmation_step(
        Some(&unconfirmed),
        &proposal(),
        &at,
        &Vec::new(),
        &vec![DependencyId::from("task-1-blocks-task-2")],
    )
    .unwrap_err();
    assert_eq!(
        refused,
        BoardStoreError::PlanDependencyAlreadyExists {
            dependency_id: DependencyId::from("task-1-blocks-task-2")
        }
    );
    assert_eq!(
        refused.to_string(),
        "planned dependency task-1-blocks-task-2 already exists"
    );
    assert_eq!(
        BoardStoreError::PlanNotFound {
            plan_id: PlanId::from("plan-1")
        }
        .to_string(),
        "plan plan-1 was not found"
    );
}

fn remote_comparison() -> ConnectorReconciliationItem {
    ConnectorReconciliationItem {
        schema: SchemaMetadata::current(),
        id: ConnectorReconciliationItemId::from("reconciliation-1"),
        work_item_id: WorkItemId::from("task-1"),
        connector_id: "linear".to_owned(),
        external_link_id: ExternalLinkId::from("linear-link-1"),
        field: ConnectorSharedField::Title,
        local_value: "Local title".to_owned(),
        remote_value: "Linear title".to_owned(),
        remote_revision: "2026-08-09T10:02:00.000Z".to_owned(),
        state: ConnectorReconciliationState::NeedsResolution,
        observed_at: "2026-08-09T10:02:01Z".to_owned(),
    }
}

#[test]
fn reconciliation_repeats_must_match_the_recorded_comparison() {
    assert_eq!(
        same_or_reconciliation_item_conflict(remote_comparison(), remote_comparison()),
        Ok(remote_comparison())
    );
    assert_eq!(
        same_or_reconciliation_revision_conflict(remote_comparison(), remote_comparison()),
        Ok(remote_comparison())
    );

    let mut conflicting_id = remote_comparison();
    conflicting_id.remote_value = "A different Linear title".to_owned();
    assert_eq!(
        same_or_reconciliation_item_conflict(remote_comparison(), conflicting_id),
        Err(EventStoreError::ConnectorReconciliationItemConflict {
            item_id: ConnectorReconciliationItemId::from("reconciliation-1")
        })
    );

    let mut conflicting_revision = remote_comparison();
    conflicting_revision.id = ConnectorReconciliationItemId::from("reconciliation-2");
    conflicting_revision.remote_value = "A different Linear title".to_owned();
    assert_eq!(
        same_or_reconciliation_revision_conflict(remote_comparison(), conflicting_revision),
        Err(EventStoreError::ConnectorReconciliationRevisionConflict {
            external_link_id: ExternalLinkId::from("linear-link-1"),
            field: "title".to_owned(),
            remote_revision: "2026-08-09T10:02:00.000Z".to_owned(),
        })
    );
}

#[test]
fn refuses_a_dependency_that_closes_a_cycle_of_hard_dependencies() {
    let id = |text: &str| WorkItemId::from(text);
    let dependencies = vec![(id("task-1"), id("task-2")), (id("task-2"), id("task-3"))];
    assert!(dependency_closes_cycle(&dependencies, &id("task-3"), &id("task-1")));
    assert!(dependency_closes_cycle(&dependencies, &id("task-2"), &id("task-2")));
    assert!(!dependency_closes_cycle(&dependencies, &id("task-1"), &id("task-3")));
    assert!(!dependency_closes_cycle(&Vec::new(), &id("task-3"), &id("task-1")));
    let refused = require_acyclic_dependency(
        &dependencies,
        &DependencyId::from("task-3-blocks-task-1"),
        &id("task-3"),
        &id("task-1"),
    )
    .unwrap_err();
    assert_eq!(
        refused,
        BoardStoreError::DependencyCycle {
            dependency_id: DependencyId::from("task-3-blocks-task-1")
        }
    );
    assert_eq!(
        refused.to_string(),
        "dependency task-3-blocks-task-1 would close a cycle of hard dependencies"
    );
    assert!(require_acyclic_dependency(
        &dependencies,
        &DependencyId::from("task-1-blocks-task-3"),
        &id("task-1"),
        &id("task-3"),
    )
    .is_ok());
}

#[test]
fn activation_needs_a_recorded_execution_that_may_start() {
    let active = running_with_session("session-1");
    let event_id = WorkItemEventId::from("start-execution-1");
    let task = WorkItemId::from("task-1");
    let recorded = execution();
    check_activation(
        &active,
        &task,
        WorkItemState::Running,
        &event_id,
        "Agent session session-1 started.",
        Some(&recorded),
        true,
    )
    .expect("a pending execution may start");
    assert_eq!(
        check_activation(&active, &task, WorkItemState::Running, &event_id, "started", None, true),
        Err(EventStoreError::ExecutionNotFound {
            execution_id: ExecutionId::from("execution-1")
        })
    );
    assert!(matches!(
        check_activation(
            &active,
            &task,
            WorkItemState::Running,
            &event_id,
            "started",
            Some(&recorded),
            false
        ),
        Err(EventStoreError::InvalidExecutionUpdate {
            reason: "status transition is not allowed",
            ..
        })
    ));
    assert!(matches!(
        check_activation(
            &execution(),
            &task,
            WorkItemState::Running,
            &event_id,
            "started",
            None,
            true
        ),
        Err(EventStoreError::InvalidExecutionUpdate {
            reason: "activation must attach a session and start its matching work item",
            ..
        })
    ));
}

fn board_dependency(id: &str, upstream: &str, downstream: &str) -> Dependency {
    Dependency {
        schema: SchemaMetadata::current(),
        id: DependencyId::from(id),
        upstream_work_item_id: WorkItemId::from(upstream),
        downstream_work_item_id: WorkItemId::from(downstream),
        kind: DependencyKind::Blocks,
        source: DependencySource::Orchestrator,
        reason: "The downstream task requires the upstream result.".to_owned(),
        owner: "orchestrator".to_owned(),
        next_action: "Complete the upstream task.".to_owned(),
        created_by: "planner".to_owned(),
        created_at: "2026-08-08T00:00:00Z".to_owned(),
    }
}

#[test]
fn reuses_a_matching_dependency_and_refuses_a_changed_one() {
    assert_eq!(
        idempotent_dependency(
            board_dependency("task-1-blocks-task-2", "task-1", "task-2"),
            board_dependency("task-1-blocks-task-2", "task-1", "task-2"),
        ),
        Ok(board_dependency("task-1-blocks-task-2", "task-1", "task-2"))
    );
    assert_eq!(
        idempotent_dependency(
            board_dependency("task-1-blocks-task-2", "task-1", "task-2"),
            board_dependency("task-1-blocks-task-2", "task-1", "task-3"),
        ),
        Err(BoardStoreError::DependencyIdConflict {
            dependency_id: DependencyId::from("task-1-blocks-task-2")
        })
    );
}

fn refinement_command(title: &str) -> RefineWorkItemDetailsCommand {
    RefineWorkItemDetailsCommand {
        event_id: WorkItemEventId::from("refine-task-1"),
        work_item_id: WorkItemId::from("task-1"),
        title: title.to_owned(),
        description: "A clearer description.".to_owned(),
        acceptance_criteria: vec!["Tests pass.".to_owned()],
        reason: "The planner sharpened the task.".to_owned(),
        expected_work_item_sequence: 1,
        recorded_at: "2026-08-08T00:01:00Z".to_owned(),
    }
}

#[test]
fn repeats_a_recorded_refinement_and_refuses_any_other_reuse_of_its_event() {
    let recorded = DetailsRefinement {
        title: "Sharper title".to_owned(),
        description: "A clearer description.".to_owned(),
        acceptance_criteria: vec!["Tests pass.".to_owned()],
        reason: "The planner sharpened the task.".to_owned(),
    };
    let task = WorkItemId::from("task-1");
    assert_eq!(
        idempotent_refinement(&task, Some(&recorded), &refinement_command("Sharper title")),
        Ok(())
    );
    let conflict = Err(EventStoreError::EventIdConflict {
        event_id: WorkItemEventId::from("refine-task-1"),
    });
    assert_eq!(
        idempotent_refinement(&task, Some(&recorded), &refinement_command("Another title")),
        conflict
    );
    assert_eq!(
        idempotent_refinement(&WorkItemId::from("task-2"), Some(&recorded), &refinement_command("Sharper title")),
        conflict
    );
    assert_eq!(
        idempotent_refinement(&task, None, &refinement_command("Sharper title")),
        conflict
    );
}

#[test]
fn connector_records_need_a_link_of_their_own_work_item_and_connector() {
    let link = ExternalLinkId::from("linear-link-1");
    let task = WorkItemId::from("task-1");
    assert_eq!(
        require_connector_link(Some((WorkItemId::from("task-1"), "linear".to_owned())), &link, &task, "linear"),
        Ok(())
    );
    let missing = Err(EventStoreError::ExternalLinkNotFound {
        link_id: ExternalLinkId::from("linear-link-1"),
    });
    assert_eq!(require_connector_link(None, &link, &task, "linear"), missing);
    assert_eq!(
        require_connector_link(Some((WorkItemId::from("task-2"), "linear".to_owned())), &link, &task, "linear"),
        missing
    );
    assert_eq!(
        require_connector_link(Some((WorkItemId::from("task-1"), "github".to_owned())), &link, &task, "linear"),
        missing
    );
}
