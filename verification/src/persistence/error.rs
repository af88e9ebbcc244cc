//! The consistency failures of the event store, with their messages.
use vstd::prelude::*;
use crate::domain::{
    ConnectorOutboxItemId, ConnectorReconciliationItemId, EvidenceId, ExecutionId,
    ExternalLinkId, PolicyDecisionId, SupervisionDecisionId, TicketEffectId, WorkItemEventId,
    WorkItemId,
};
use crate::workspace::error::signed_decimal;

verus! {

/// A request that the event store refuses because it would break a recorded fact.
#[derive(Debug, PartialEq, Eq)]
pub enum EventStoreError {
    WorkItemAlreadyExists { work_item_id: WorkItemId },
    WorkItemNotFound { work_item_id: WorkItemId },
    ExecutionAlreadyExists { execution_id: ExecutionId },
    ExecutionNotFound { execution_id: ExecutionId },
    EvidenceAlreadyExists { evidence_id: EvidenceId },
    EvidenceWorkItemMismatch { evidence_id: EvidenceId, work_item_id: WorkItemId },
    ExternalLinkIdConflict { link_id: ExternalLinkId },
    ExternalResourceAlreadyLinked { connector_id: String, external_id: String },
    ExternalLinkNotFound { link_id: ExternalLinkId },
    ConnectorReconciliationItemConflict { item_id: ConnectorReconciliationItemId },
    ConnectorReconciliationRevisionConflict {
        external_link_id: ExternalLinkId,
        field: String,
        remote_revision: String,
    },
    EventIdConflict { event_id: WorkItemEventId },
    MissingTransitionReason { event_id: WorkItemEventId },
    UnsupportedDatabaseSchemaVersion { current: i64, supported: i64 },
    InvalidEventSequence { value: i64 },
    PolicyDecisionIdConflict { decision_id: PolicyDecisionId },
    ProtectedGitApprovalIdConflict { decision_id: PolicyDecisionId },
    PolicyApprovalDecisionNotFound { decision_id: PolicyDecisionId },
    PolicyApprovalDecisionMismatch { decision_id: PolicyDecisionId },
    InvalidExecutionUpdate { execution_id: ExecutionId, reason: &'static str },
    ConnectorOutboxItemConflict { item_id: ConnectorOutboxItemId },
    ConnectorOutboxIdempotencyConflict { connector_id: String, idempotency_key: String },
    ConnectorOutboxCannotTransition { item_id: ConnectorOutboxItemId },
    MissingRecoveryEventId { work_item_id: WorkItemId },
    SupervisionDecisionNotFound { decision_id: SupervisionDecisionId },
    SupervisionDecisionConflict { decision_id: SupervisionDecisionId },
    TicketEffectConflict { effect_id: TicketEffectId },
    TicketEffectInvalidOutcomeTransition { effect_id: TicketEffectId },
}

/// The message of a refusal.
pub open spec fn event_store_message(error: EventStoreError) -> Seq<char> {
    match error {
        EventStoreError::WorkItemAlreadyExists { work_item_id } => "work item "@ + work_item_id@
            + " already exists"@,
        EventStoreError::WorkItemNotFound { work_item_id } => "work item "@ + work_item_id@
            + " was not found"@,
        EventStoreError::ExecutionAlreadyExists { execution_id } => "execution "@ + execution_id@
            + " already exists"@,
        EventStoreError::ExecutionNotFound { execution_id } => "execution "@ + execution_id@
            + " was not found"@,
        EventStoreError::EvidenceAlreadyExists { evidence_id } => "evidence "@ + evidence_id@
            + " already exists"@,
        EventStoreError::EvidenceWorkItemMismatch { evidence_id, work_item_id } => "evidence "@
            + evidence_id@ + " does not belong to work item "@ + work_item_id@,
        EventStoreError::ExternalLinkIdConflict { link_id } => "external link "@ + link_id@
            + " conflicts with an existing link"@,
        EventStoreError::ExternalResourceAlreadyLinked { connector_id, external_id } =>
            "external resource "@ + connector_id@ + ":"@ + external_id@ + " is already linked"@,
        EventStoreError::ExternalLinkNotFound { link_id } => "external link "@ + link_id@
            + " was not found"@,
        EventStoreError::ConnectorReconciliationItemConflict { item_id } =>
            "connector reconciliation item "@ + item_id@ + " conflicts with an existing item"@,
        EventStoreError::ConnectorReconciliationRevisionConflict {
            external_link_id,
            field,
            remote_revision,
        } => "connector reconciliation revision "@ + external_link_id@ + ":"@ + field@ + ":"@
            + remote_revision@ + " conflicts with an existing item"@,
        EventStoreError::EventIdConflict { event_id } => "event id "@ + event_id@
            + " conflicts with a recorded event"@,
        EventStoreError::MissingTransitionReason { event_id } => "state-transition event "@
            + event_id@ + " requires a reason"@,
        EventStoreError::UnsupportedDatabaseSchemaVersion { current, supported } =>
            "database schema version "@ + signed_decimal(current as int)
            + " is newer than the supported version "@ + signed_decimal(supported as int),
        EventStoreError::InvalidEventSequence { value } => "event sequence "@ + signed_decimal(
            value as int,
        ) + " is outside the supported range"@,
        EventStoreError::PolicyDecisionIdConflict { decision_id } => "policy decision id "@
            + decision_id@ + " conflicts with a recorded decision"@,
        EventStoreError::ProtectedGitApprovalIdConflict { decision_id } =>
            "protected Git approval id "@ + decision_id@ + " conflicts with a recorded approval"@,
        EventStoreError::PolicyApprovalDecisionNotFound { decision_id } =>
            "protected Git approval requires recorded policy decision "@ + decision_id@,
        EventStoreError::PolicyApprovalDecisionMismatch { decision_id } => "policy decision "@
            + decision_id@ + " does not authorize the protected Git approval"@,
        EventStoreError::InvalidExecutionUpdate { execution_id, reason } => "execution "@
            + execution_id@ + " cannot be updated: "@ + reason@,
        EventStoreError::ConnectorOutboxItemConflict { item_id } => "connector outbox item "@
            + item_id@ + " conflicts with an existing item"@,
        EventStoreError::ConnectorOutboxIdempotencyConflict { connector_id, idempotency_key } =>
            "connector outbox key "@ + connector_id@ + ":"@ + idempotency_key@
            + " conflicts with an existing item"@,
        EventStoreError::ConnectorOutboxCannotTransition { item_id } => "connector outbox item "@
            + item_id@ + " is not pending delivery"@,
        EventStoreError::MissingRecoveryEventId { work_item_id } =>
            "restart reconciliation requires an event id for uncertain work item "@
            + work_item_id@,
        EventStoreError::SupervisionDecisionNotFound { decision_id } => "supervision decision "@
            + decision_id@ + " was not found"@,
        EventStoreError::SupervisionDecisionConflict { decision_id } => "supervision decision "@
            + decision_id@ + " conflicts with a recorded decision"@,
        EventStoreError::TicketEffectConflict { effect_id } => "ticket effect "@ + effect_id@
            + " conflicts with a recorded effect"@,
        EventStoreError::TicketEffectInvalidOutcomeTransition { effect_id } => "ticket effect "@
            + effect_id@ + " cannot change its record or outcome that way"@,
    }
}

impl EventStoreError {
    /// The message of this refusal.
    pub fn to_string(&self) -> (r: String)
        ensures
            r@ == event_store_message(*self),
    {
        let mut r = String::new();
        match self {
            EventStoreError::WorkItemAlreadyExists { work_item_id } => {
                r.append("work item ");
                r.append(work_item_id.0.as_str());
                r.append(" already exists");
            },
            EventStoreError::WorkItemNotFound { work_item_id } => {
                r.append("work item ");
                r.append(work_item_id.0.as_str());
                r.append(" was not found");
            },
            EventStoreError::ExecutionAlreadyExists { execution_id } => {
                r.append("execution ");
                r.append(execution_id.0.as_str());
                r.append(" already exists");
            },
            EventStoreError::ExecutionNotFound { execution_id } => {
                r.append("execution ");
                r.append(execution_id.0.as_str());
                r.append(" was not found");
            },
            EventStoreError::EvidenceAlreadyExists { evidence_id } => {
                r.append("evidence ");
                r.append(evidence_id.0.as_str());
                r.append(" already exists");
            },
            EventStoreError::EvidenceWorkItemMismatch { evidence_id, work_item_id } => {
                r.append("evidence ");
                r.append(evidence_id.0.as_str());
                r.append(" does not belong to work item ");
                r.append(work_item_id.0.as_str());
            },
            EventStoreError::ExternalLinkIdConflict { link_id } => {
                r.append("external link ");
                r.append(link_id.0.as_str());
                r.append(" conflicts with an existing link");
            },
            EventStoreError::ExternalResourceAlreadyLinked { connector_id, external_id } => {
                r.append("external resource ");
                r.append(connector_id.as_str());
                r.append(":");
                r.append(external_id.as_str());
                r.append(" is already linked");
            },
            EventStoreError::ExternalLinkNotFound { link_id } => {
                r.append("external link ");
                r.append(link_id.0.as_str());
                r.append(" was not found");
            },
            EventStoreError::ConnectorReconciliationItemConflict { item_id } => {
                r.append("connector reconciliation item ");
                r.append(item_id.0.as_str());
                r.append(" conflicts with an existing item");
            },
            EventStoreError::ConnectorReconciliationRevisionConflict {
                external_link_id,
                field,
                remote_revision,
            } => {
                r.append("connector reconciliation revision ");
                r.append(external_link_id.0.as_str());
                r.append(":");
                r.append(field.as_str());
                r.append(":");
                r.append(remote_revision.as_str());
                r.append(" conflicts with an existing item");
            },
            EventStoreError::EventIdConflict { event_id } => {
                r.append("event id ");
                r.append(event_id.0.as_str());
                r.append(" conflicts with a recorded event");
            },
            EventStoreError::MissingTransitionReason { event_id } => {
                r.append("state-transition event ");
                r.append(event_id.0.as_str());
                r.append(" requires a reason");
            },
            EventStoreError::UnsupportedDatabaseSchemaVersion { current, supported } => {
                r.append("database schema version ");
                push_signed_decimal(&mut r, *current);
                r.append(" is newer than the supported version ");
                push_signed_decimal(&mut r, *supported);
            },
            EventStoreError::InvalidEventSequence { value } => {
                r.append("event sequence ");
                push_signed_decimal(&mut r, *value);
                r.append(" is outside the supported range");
            },
            EventStoreError::PolicyDecisionIdConflict { decision_id } => {
                r.append("policy decision id ");
                r.append(decision_id.0.as_str());
                r.append(" conflicts with a recorded decision");
            },
            EventStoreError::ProtectedGitApprovalIdConflict { decision_id } => {
                r.append("protected Git approval id ");
                r.append(decision_id.0.as_str());
                r.append(" conflicts with a recorded approval");
            },
            EventStoreError::PolicyApprovalDecisionNotFound { decision_id } => {
                r.append("protected Git approval requires recorded policy decision ");
                r.append(decision_id.0.as_str());
            },
            EventStoreError::PolicyApprovalDecisionMismatch { decision_id } => {
                r.append("policy decision ");
                r.append(decision_id.0.as_str());
                r.append(" does not authorize the protected Git approval");
            },
            EventStoreError::InvalidExecutionUpdate { execution_id, reason } => {
                r.append("execution ");
                r.append(execution_id.0.as_str());
                r.append(" cannot be updated: ");
                r.append(reason);
            },
            EventStoreError::ConnectorOutboxItemConflict { item_id } => {
                r.append("connector outbox item ");
                r.append(item_id.0.as_str());
                r.append(" conflicts with an existing item");
            },
            EventStoreError::ConnectorOutboxIdempotencyConflict { connector_id, idempotency_key } => {
                r.append("connector outbox key ");
                r.append(connector_id.as_str());
                r.append(":");
                r.append(idempotency_key.as_str());
                r.append(" conflicts with an existing item");
            },
            EventStoreError::ConnectorOutboxCannotTransition { item_id } => {
                r.append("connector outbox item ");
                r.append(item_id.0.as_str());
                r.append(" is not pending delivery");
            },
            EventStoreError::MissingRecoveryEventId { work_item_id } => {
                r.append("restart reconciliation requires an event id for uncertain work item ");
                r.append(work_item_id.0.as_str());
            },
            EventStoreError::SupervisionDecisionNotFound { decision_id } => {
                r.append("supervision decision ");
                r.append(decision_id.0.as_str());
                r.append(" was not found");
            },
            EventStoreError::SupervisionDecisionConflict { decision_id } => {
                r.append("supervision decision ");
                r.append(decision_id.0.as_str());
                r.append(" conflicts with a recorded decision");
            },
            EventStoreError::TicketEffectConflict { effect_id } => {
                r.append("ticket effect ");
                r.append(effect_id.0.as_str());
                r.append(" conflicts with a recorded effect");
            },
            EventStoreError::TicketEffectInvalidOutcomeTransition { effect_id } => {
                r.append("ticket effect ");
                r.append(effect_id.0.as_str());
                r.append(" cannot change its record or outcome that way");
            },
        }
        r
    }
}

/// Appends the decimal text of a signed number.
fn push_signed_decimal(s: &mut String, value: i64)
    ensures
        final(s)@ == old(s)@ + signed_decimal(value as int),
{
    if value < 0 {
        s.append("-");
        let magnitude = (0i128 - (value as i128)) as u64;
        crate::text::push_decimal(s, magnitude);
    } else {
        crate::text::push_decimal(s, value as u64);
    }
}

/// An event sequence number as the store reads it: database integers below zero are refused.
pub fn event_sequence(value: i64) -> (r: Result<u64, EventStoreError>)
    ensures
        value >= 0 ==> r == Ok::<u64, EventStoreError>(value as u64),
        value < 0 ==> r == Err::<u64, EventStoreError>(EventStoreError::InvalidEventSequence { value }),
{
    if value < 0 {
        Err(EventStoreError::InvalidEventSequence { value })
    } else {
        Ok(value as u64)
    }
}

} // verus!
