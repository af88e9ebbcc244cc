//! Which updates of a recorded execution the store accepts.
use vstd::prelude::*;
use crate::domain::{
    Execution, ExecutionStatus, ExecutionUsage, ExecutionView, WorkItemEventId,
    WorkItemId, WorkItemState,
};
use crate::text::{blank, chars_of, is_blank};
use super::error::EventStoreError;

verus! {

/// A session, once attached, can be neither replaced nor removed.
pub open spec fn session_consistent(recorded: Option<Seq<char>>, updated: Option<Seq<char>>) -> bool {
    match (recorded, updated) {
        (None, _) => true,
        (Some(r), Some(u)) => r == u,
        _ => false,
    }
}

/// Usage only grows, and a recorded cost is never discarded.
pub open spec fn usage_monotonic(recorded: ExecutionUsage, updated: ExecutionUsage) -> bool {
    &&& recorded.input_tokens <= updated.input_tokens
    &&& recorded.output_tokens <= updated.output_tokens
    &&& match (recorded.cost_micros, updated.cost_micros) {
        (None, _) => true,
        (Some(r), Some(u)) => r <= u,
        (Some(_), None) => false,
    }
}

/// Why an update of a recorded execution is refused, if it is. `status_transition_allowed` is the
/// verdict of the execution lifecycle on a change of status.
pub open spec fn execution_update_refusal(
    recorded: ExecutionView,
    updated: ExecutionView,
    status_transition_allowed: bool,
) -> Option<Seq<char>> {
    if recorded.schema != updated.schema || recorded.work_item_id != updated.work_item_id
        || recorded.adapter_name != updated.adapter_name || recorded.workspace_path
        != updated.workspace_path {
        Some("execution identity is immutable"@)
    } else if updated.session_id matches Some(s) && is_blank(s) {
        Some("session identity cannot be blank"@)
    } else if !session_consistent(recorded.session_id, updated.session_id) {
        Some("session identity cannot be replaced or removed"@)
    } else if recorded.status == crate::domain::ExecutionStatus::Pending && updated.status
        == crate::domain::ExecutionStatus::Running && updated.session_id is None {
        Some("a running execution requires an attached session"@)
    } else if !usage_monotonic(recorded.usage, updated.usage) {
        Some("usage cannot decrease or discard recorded cost"@)
    } else if updated.last_event_sequence < recorded.last_event_sequence {
        Some("event sequence cannot decrease"@)
    } else if recorded.status != updated.status && !status_transition_allowed {
        Some("status transition is not allowed"@)
    } else {
        None
    }
}

/// Whether a session stays attached as recorded.
pub fn session_is_consistent(recorded_execution: &Execution, updated_execution: &Execution) -> (r: bool)
    ensures
        r == session_consistent(recorded_execution@.session_id, updated_execution@.session_id),
{
    match (&recorded_execution.session_id, &updated_execution.session_id) {
        (None, _) => true,
        (Some(recorded), Some(updated)) => *recorded == *updated,
        _ => false,
    }
}

/// Whether usage only grew.
pub fn usage_is_monotonic(recorded_execution: &Execution, updated_execution: &Execution) -> (r: bool)
    ensures
        r == usage_monotonic(recorded_execution.usage, updated_execution.usage),
        r <==> ({
            &&& recorded_execution.usage.input_tokens <= updated_execution.usage.input_tokens
            &&& recorded_execution.usage.output_tokens <= updated_execution.usage.output_tokens
            &&& (recorded_execution.usage.cost_micros matches Some(c)
                ==> updated_execution.usage.cost_micros matches Some(u) && c <= u)
        }),
{
    let recorded_usage = recorded_execution.usage;
    let updated_usage = updated_execution.usage;
    let cost_is_monotonic = match (recorded_usage.cost_micros, updated_usage.cost_micros) {
        (None, _) => true,
        (Some(recorded), Some(updated)) => recorded <= updated,
        (Some(_), None) => false,
    };
    recorded_usage.input_tokens <= updated_usage.input_tokens && recorded_usage.output_tokens
        <= updated_usage.output_tokens && cost_is_monotonic
}

/// Checks an update of a recorded execution: identity fields are immutable, a session is never
/// blank, replaced or removed, a running execution has a session, usage and event sequence never
/// decrease, and a status change must be allowed by the execution lifecycle.
pub fn validate_execution_update(
    recorded_execution: &Execution,
    updated_execution: &Execution,
    status_transition_allowed: bool,
) -> (r: Result<(), EventStoreError>)
    ensures
        match execution_update_refusal(recorded_execution@, updated_execution@, status_transition_allowed) {
            Some(reason) => r matches Err(EventStoreError::InvalidExecutionUpdate { execution_id, reason: rs })
                && execution_id@ == updated_execution.id@ && rs@ == reason,
            None => r is Ok,
        },
        r is Ok ==> {
            &&& recorded_execution.usage.input_tokens <= updated_execution.usage.input_tokens
            &&& recorded_execution.usage.output_tokens <= updated_execution.usage.output_tokens
            &&& (recorded_execution.usage.cost_micros matches Some(c)
                ==> updated_execution.usage.cost_micros matches Some(u) && c <= u)
            &&& recorded_execution.last_event_sequence <= updated_execution.last_event_sequence
        },
{
    if recorded_execution.schema != updated_execution.schema
        || !recorded_execution.work_item_id.same_as(&updated_execution.work_item_id)
        || recorded_execution.adapter_name != updated_execution.adapter_name
        || recorded_execution.workspace_path != updated_execution.workspace_path {
        return Err(refusal(updated_execution, "execution identity is immutable"));
    }
    let blank_session = match &updated_execution.session_id {
        Some(session_id) => blank(&chars_of(session_id.as_str())),
        None => false,
    };
    if blank_session {
        return Err(refusal(updated_execution, "session identity cannot be blank"));
    }
    if !session_is_consistent(recorded_execution, updated_execution) {
        return Err(refusal(updated_execution, "session identity cannot be replaced or removed"));
    }
    if recorded_execution.status == crate::domain::ExecutionStatus::Pending
        && updated_execution.status == crate::domain::ExecutionStatus::Running
        && updated_execution.session_id.is_none() {
        return Err(refusal(updated_execution, "a running execution requires an attached session"));
    }
    if !usage_is_monotonic(recorded_execution, updated_execution) {
        return Err(refusal(updated_execution, "usage cannot decrease or discard recorded cost"));
    }
    if updated_execution.last_event_sequence < recorded_execution.last_event_sequence {
        return Err(refusal(updated_execution, "event sequence cannot decrease"));
    }
    if recorded_execution.status != updated_execution.status && !status_transition_allowed {
        return Err(refusal(updated_execution, "status transition is not allowed"));
    }
    Ok(())
}

fn refusal(updated_execution: &Execution, reason: &'static str) -> (r: EventStoreError)
    ensures
        r matches EventStoreError::InvalidExecutionUpdate { execution_id, reason: rs }
            && execution_id@ == updated_execution.id@ && rs@ == reason@,
{
    EventStoreError::InvalidExecutionUpdate { execution_id: updated_execution.id.clone(), reason }
}

/// Why a request to activate an execution and start its work item is refused, if it is: the
/// execution must be running with a session, for the work item that the transition starts, and
/// the transition needs a reason.
pub open spec fn activation_refusal(
    execution: ExecutionView,
    work_item_id: Seq<char>,
    next_state: WorkItemState,
    reason: Seq<char>,
) -> Option<ActivationRefusal> {
    if execution.status != ExecutionStatus::Running || execution.session_id is None
        || work_item_id != execution.work_item_id || next_state != WorkItemState::Running {
        Some(ActivationRefusal::ActivationMismatch)
    } else if is_blank(reason) {
        Some(ActivationRefusal::MissingReason)
    } else {
        None
    }
}

/// Why an activation request is refused.
pub enum ActivationRefusal {
    ActivationMismatch,
    MissingReason,
}

/// Checks a request to attach a session to an execution and start its work item in one step.
pub fn validate_activation_request(
    execution: &Execution,
    work_item_id: &WorkItemId,
    next_state: WorkItemState,
    event_id: &WorkItemEventId,
    reason: &str,
) -> (r: Result<(), EventStoreError>)
    ensures
        match activation_refusal(execution@, work_item_id@, next_state, reason@) {
            None => r is Ok,
            Some(ActivationRefusal::ActivationMismatch) => r matches Err(
                EventStoreError::InvalidExecutionUpdate { execution_id, reason: rs },
            ) && execution_id@ == execution.id@
                && rs@ == "activation must attach a session and start its matching work item"@,
            Some(ActivationRefusal::MissingReason) => r matches Err(
                EventStoreError::MissingTransitionReason { event_id: e },
            ) && e@ == event_id@,
        },
{
    if execution.status != ExecutionStatus::Running || execution.session_id.is_none()
        || !work_item_id.same_as(&execution.work_item_id) || next_state != WorkItemState::Running {
        return Err(EventStoreError::InvalidExecutionUpdate {
            execution_id: execution.id.clone(),
            reason: "activation must attach a session and start its matching work item",
        });
    }
    if blank(&chars_of(reason)) {
        return Err(EventStoreError::MissingTransitionReason { event_id: event_id.clone() });
    }
    Ok(())
}

/// Checks the activation of an execution and the start of its work item, before either is
/// written: the request itself, then that the execution is recorded (`recorded`), then the
/// update of the recorded execution to the running one. Whether the execution's status change
/// is allowed by its lifecycle comes in as `status_transition_allowed`; the work item's own
/// transition is checked by the caller.
pub fn check_activation(
    execution: &Execution,
    work_item_id: &WorkItemId,
    next_state: WorkItemState,
    event_id: &WorkItemEventId,
    reason: &str,
    recorded: Option<&Execution>,
    status_transition_allowed: bool,
) -> (r: Result<(), EventStoreError>)
    ensures
        match activation_refusal(execution@, work_item_id@, next_state, reason@) {
            Some(ActivationRefusal::ActivationMismatch) => r matches Err(
                EventStoreError::InvalidExecutionUpdate { execution_id, reason: rs },
            ) && execution_id@ == execution.id@
                && rs@ == "activation must attach a session and start its matching work item"@,
            Some(ActivationRefusal::MissingReason) => r matches Err(
                EventStoreError::MissingTransitionReason { event_id: e },
            ) && e@ == event_id@,
            None => match recorded {
                None => r matches Err(EventStoreError::ExecutionNotFound { execution_id })
                    && execution_id@ == execution.id@,
                Some(recorded_execution) => match execution_update_refusal(
                    recorded_execution@,
                    execution@,
                    status_transition_allowed,
                ) {
                    Some(why) => r matches Err(
                        EventStoreError::InvalidExecutionUpdate { execution_id, reason: rs },
                    ) && execution_id@ == execution.id@ && rs@ == why,
                    None => r is Ok,
                },
            },
        },
{
    validate_activation_request(execution, work_item_id, next_state, event_id, reason)?;
    match recorded {
        None => Err(EventStoreError::ExecutionNotFound { execution_id: execution.id.clone() }),
        Some(recorded_execution) => validate_execution_update(
            recorded_execution,
            execution,
            status_transition_allowed,
        ),
    }
}

/// An accepted update never loses progress: usage and event sequence do not decrease, and an
/// attached session stays attached.
pub proof fn law_accepted_updates_keep_progress(
    recorded: ExecutionView,
    updated: ExecutionView,
    status_transition_allowed: bool,
)
    requires
        execution_update_refusal(recorded, updated, status_transition_allowed) is None,
    ensures
        recorded.usage.input_tokens <= updated.usage.input_tokens,
        recorded.usage.output_tokens <= updated.usage.output_tokens,
        recorded.usage.cost_micros matches Some(c) ==> (updated.usage.cost_micros matches Some(u)
            && c <= u),
        recorded.last_event_sequence <= updated.last_event_sequence,
        recorded.session_id is Some ==> updated.session_id == recorded.session_id,
        recorded.workspace_path == updated.workspace_path,
        recorded.work_item_id == updated.work_item_id,
        recorded.adapter_name == updated.adapter_name,
        recorded.schema == updated.schema,
        recorded.status == ExecutionStatus::Pending && updated.status == ExecutionStatus::Running
            ==> updated.session_id is Some,
        recorded.status != updated.status ==> status_transition_allowed,
{
}

} // verus!
