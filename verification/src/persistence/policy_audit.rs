//! Which policy decisions and protected Git approvals the audit trail admits.
use vstd::prelude::*;
use crate::domain::{PolicyAction, PolicyDecision, PolicyDecisionKind, PolicyDecisionView};
use crate::policy::{ProtectedGitApproval, ProtectedGitApprovalView};
use super::error::EventStoreError;

verus! {

/// What the store does with a record whose identifier may already be taken.
#[derive(Debug, PartialEq, Eq)]
pub enum Admission<T> {
    /// The identifier is new: store the record.
    Insert(T),
    /// The same record is already stored: return it unchanged.
    AlreadyRecorded(T),
}

/// Repeating a recorded decision returns it; reusing its identifier for other content is refused.
pub fn idempotent_policy_decision(recorded: PolicyDecision, requested: &PolicyDecision) -> (r: Result<PolicyDecision, EventStoreError>)
    ensures
        recorded@ == requested@ ==> (r matches Ok(d) && d@ == recorded@),
        recorded@ != requested@ ==> (r matches Err(EventStoreError::PolicyDecisionIdConflict { decision_id })
            && decision_id@ == requested.id@),
{
    if recorded.same_as(requested) {
        Ok(recorded)
    } else {
        Err(EventStoreError::PolicyDecisionIdConflict { decision_id: requested.id.clone() })
    }
}

/// Repeating a recorded approval returns it; reusing its identifier for other content is refused.
pub fn idempotent_protected_git_approval(recorded: ProtectedGitApproval, requested: &ProtectedGitApproval) -> (r: Result<ProtectedGitApproval, EventStoreError>)
    ensures
        recorded@ == requested@ ==> (r matches Ok(a) && a@ == recorded@),
        recorded@ != requested@ ==> (r matches Err(EventStoreError::ProtectedGitApprovalIdConflict { decision_id })
            && decision_id@ == requested.decision_id@),
{
    if same_approval(&recorded, requested) {
        Ok(recorded)
    } else {
        Err(EventStoreError::ProtectedGitApprovalIdConflict { decision_id: requested.decision_id.clone() })
    }
}

/// Whether two approvals hold the same content.
pub fn same_approval(left: &ProtectedGitApproval, right: &ProtectedGitApproval) -> (r: bool)
    ensures
        r == (left@ == right@),
{
    left.decision_id.same_as(&right.decision_id) && left.project_id.same_as(&right.project_id)
        && crate::domain::same_work_item(&left.work_item_id, &right.work_item_id) && left.action
        == right.action && left.approved_by == right.approved_by && left.approved_at
        == right.approved_at
}

/// Whether a recorded decision authorises an approval: the same identifier, project, work item
/// and Git action, an `Allow`, and the approver as its actor.
pub open spec fn decision_authorizes(decision: PolicyDecisionView, approval: ProtectedGitApprovalView) -> bool {
    &&& decision.id == approval.decision_id
    &&& decision.project_id == approval.project_id
    &&& decision.work_item_id == approval.work_item_id
    &&& decision.action == Some(PolicyAction::ProtectedGit { action: approval.action })
    &&& decision.decision == PolicyDecisionKind::Allow
    &&& decision.actor == approval.approved_by
}

/// Whether a recorded decision authorises an approval.
pub fn policy_decision_matches_protected_git_approval(decision: &PolicyDecision, approval: &ProtectedGitApproval) -> (r: bool)
    ensures
        r == decision_authorizes(decision@, approval@),
{
    decision.id.same_as(&approval.decision_id) && decision.project_id.same_as(&approval.project_id)
        && crate::domain::same_work_item(&decision.work_item_id, &approval.work_item_id)
        && decision.action == Some(PolicyAction::ProtectedGit { action: approval.action })
        && decision.decision == PolicyDecisionKind::Allow && decision.actor == approval.approved_by
}

/// Admits a decision: new identifiers are stored, repeats are returned, conflicts refused.
/// `recorded` is the decision already stored under the requested identifier, if any.
pub fn admit_policy_decision(recorded: Option<PolicyDecision>, requested: PolicyDecision) -> (r: Result<Admission<PolicyDecision>, EventStoreError>)
    ensures
        recorded is None ==> (r matches Ok(Admission::Insert(d)) && d@ == requested@),
        recorded matches Some(rec) ==> if rec@ == requested@ {
            r matches Ok(Admission::AlreadyRecorded(d)) && d@ == rec@
        } else {
            r matches Err(EventStoreError::PolicyDecisionIdConflict { decision_id }) && decision_id@
                == requested.id@
        },
{
    match recorded {
        Some(rec) => Ok(Admission::AlreadyRecorded(idempotent_policy_decision(rec, &requested)?)),
        None => Ok(Admission::Insert(requested)),
    }
}

/// Admits an approval: a repeat is returned and an identifier conflict refused; a new approval
/// is stored only when the policy decision of its identifier is recorded and authorises it.
pub fn admit_protected_git_approval(
    recorded: Option<ProtectedGitApproval>,
    decision: Option<PolicyDecision>,
    approval: ProtectedGitApproval,
) -> (r: Result<Admission<ProtectedGitApproval>, EventStoreError>)
    ensures
        recorded matches Some(rec) ==> if rec@ == approval@ {
            r matches Ok(Admission::AlreadyRecorded(a)) && a@ == rec@
        } else {
            r matches Err(EventStoreError::ProtectedGitApprovalIdConflict { decision_id })
                && decision_id@ == approval.decision_id@
        },
        recorded is None && decision is None ==> (r matches Err(
            EventStoreError::PolicyApprovalDecisionNotFound { decision_id },
        ) && decision_id@ == approval.decision_id@),
        (recorded is None && decision is Some) ==> if decision_authorizes(decision->0@, approval@) {
            r matches Ok(Admission::Insert(a)) && a@ == approval@
        } else {
            r matches Err(EventStoreError::PolicyApprovalDecisionMismatch { decision_id })
                && decision_id@ == approval.decision_id@
        },
{
    if let Some(rec) = recorded {
        return Ok(Admission::AlreadyRecorded(idempotent_protected_git_approval(rec, &approval)?));
    }
    let decision = match decision {
        Some(d) => d,
        None => {
            return Err(EventStoreError::PolicyApprovalDecisionNotFound {
                decision_id: approval.decision_id.clone(),
            })
        },
    };
    if !policy_decision_matches_protected_git_approval(&decision, &approval) {
        return Err(EventStoreError::PolicyApprovalDecisionMismatch {
            decision_id: approval.decision_id,
        });
    }
    Ok(Admission::Insert(approval))
}

/// Whether an approval is on record: exactly the stored approval under its identifier.
pub fn approval_is_recorded(recorded: &Option<ProtectedGitApproval>, approval: &ProtectedGitApproval) -> (r: bool)
    ensures
        r == (recorded matches Some(rec) && rec@ == approval@),
{
    match recorded {
        Some(rec) => same_approval(rec, approval),
        None => false,
    }
}

} // verus!
