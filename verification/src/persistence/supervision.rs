//! Which supervision decisions the store records, and how a pending one is resolved once.
use vstd::prelude::*;
use crate::domain::{
    same_work_item, text_view, work_item_view, BoardId, SchemaMetadata,
    SupervisionDecisionId, WorkItemId,
};
use super::error::EventStoreError;

verus! {

/// What the board organiser proposes to do.
#[derive(Clone, Copy, Debug, PartialEq, Eq, Structural)]
pub enum SupervisionAction {
    PrepareWork,
}

/// What the board policy said of the proposal.
#[derive(Clone, Copy, Debug, PartialEq, Eq, Structural)]
pub enum SupervisionPolicyResult {
    NotRequired,
}

/// Where a supervision decision is in its life.
#[derive(Clone, Copy, Debug, PartialEq, Eq, Structural)]
pub enum SupervisionDecisionOutcome {
    Pending,
    Executed,
}

/// One decision of a board's organiser.
#[derive(Debug, PartialEq, Eq)]
pub struct SupervisionDecision {
    pub schema: SchemaMetadata,
    pub id: SupervisionDecisionId,
    pub board_id: BoardId,
    pub work_item_id: Option<WorkItemId>,
    pub organiser_profile_name: String,
    pub action: SupervisionAction,
    pub recommendation: String,
    pub rationale: String,
    pub policy_result: SupervisionPolicyResult,
    pub outcome: SupervisionDecisionOutcome,
    pub idempotency_key: String,
    pub expected_work_item_sequence: Option<u64>,
    pub recorded_at: String,
    pub resolved_at: Option<String>,
}

/// The content of a supervision decision.
pub struct SupervisionDecisionView {
    pub schema: SchemaMetadata,
    pub id: Seq<char>,
    pub board_id: Seq<char>,
    pub work_item_id: Option<Seq<char>>,
    pub organiser_profile_name: Seq<char>,
    pub action: SupervisionAction,
    pub recommendation: Seq<char>,
    pub rationale: Seq<char>,
    pub policy_result: SupervisionPolicyResult,
    pub outcome: SupervisionDecisionOutcome,
    pub idempotency_key: Seq<char>,
    pub expected_work_item_sequence: Option<u64>,
    pub recorded_at: Seq<char>,
    pub resolved_at: Option<Seq<char>>,
}

impl View for SupervisionDecision {
    type V = SupervisionDecisionView;

    open spec fn view(&self) -> SupervisionDecisionView {
        SupervisionDecisionView {
            schema: self.schema,
            id: self.id@,
            board_id: self.board_id@,
            work_item_id: work_item_view(self.work_item_id),
            organiser_profile_name: self.organiser_profile_name@,
            action: self.action,
            recommendation: self.recommendation@,
            rationale: self.rationale@,
            policy_result: self.policy_result,
            outcome: self.outcome,
            idempotency_key: self.idempotency_key@,
            expected_work_item_sequence: self.expected_work_item_sequence,
            recorded_at: self.recorded_at@,
            resolved_at: text_view(self.resolved_at),
        }
    }
}

/// The fields of a decision that its resolution may not change: all but the policy result, the
/// outcome and the resolution time.
pub open spec fn same_proposal(a: SupervisionDecisionView, b: SupervisionDecisionView) -> bool {
    SupervisionDecisionView {
        policy_result: b.policy_result,
        outcome: b.outcome,
        resolved_at: b.resolved_at,
        ..a
    } == b
}

fn same_optional_text(a: &Option<String>, b: &Option<String>) -> (r: bool)
    ensures
        r == (text_view(*a) == text_view(*b)),
{
    match (a, b) {
        (Some(x), Some(y)) => *x == *y,
        (None, None) => true,
        _ => false,
    }
}

fn same_proposal_fields(a: &SupervisionDecision, b: &SupervisionDecision) -> (r: bool)
    ensures
        r == same_proposal(a@, b@),
{
    a.schema == b.schema && a.id.same_as(&b.id) && a.board_id.same_as(&b.board_id)
        && same_work_item(&a.work_item_id, &b.work_item_id) && a.organiser_profile_name
        == b.organiser_profile_name && a.action == b.action && a.recommendation
        == b.recommendation && a.rationale == b.rationale && a.idempotency_key
        == b.idempotency_key && a.expected_work_item_sequence == b.expected_work_item_sequence
        && a.recorded_at == b.recorded_at
}

/// Repeating a recorded decision returns it; reusing its identifier for other content is refused.
pub fn matching_decision(recorded: SupervisionDecision, requested: SupervisionDecision) -> (r: Result<SupervisionDecision, EventStoreError>)
    ensures
        recorded@ == requested@ ==> (r matches Ok(d) && d@ == recorded@),
        recorded@ != requested@ ==> (r matches Err(EventStoreError::SupervisionDecisionConflict { decision_id })
            && decision_id@ == requested.id@),
{
    if same_proposal_fields(&recorded, &requested) && recorded.policy_result
        == requested.policy_result && recorded.outcome == requested.outcome && same_optional_text(
        &recorded.resolved_at,
        &requested.resolved_at,
    ) {
        Ok(recorded)
    } else {
        Err(EventStoreError::SupervisionDecisionConflict { decision_id: requested.id })
    }
}

/// Checks a resolution against the stored decision: the decision must exist, still be pending,
/// and the resolution may change only its policy result, outcome and resolution time.
pub fn ensure_pending_resolution(recorded: Option<SupervisionDecision>, requested: &SupervisionDecision) -> (r: Result<(), EventStoreError>)
    ensures
        recorded is None ==> (r matches Err(EventStoreError::SupervisionDecisionNotFound { decision_id })
            && decision_id@ == requested.id@),
        recorded is Some ==> if resolution_accepted(
            match recorded {
                Some(rec) => Some(rec@),
                None => None,
            },
            requested@,
        ) {
            r is Ok
        } else {
            r matches Err(EventStoreError::SupervisionDecisionConflict { decision_id })
                && decision_id@ == requested.id@
        },
{
    let recorded = match recorded {
        Some(rec) => rec,
        None => {
            return Err(EventStoreError::SupervisionDecisionNotFound {
                decision_id: requested.id.clone(),
            })
        },
    };
    if recorded.outcome == SupervisionDecisionOutcome::Pending && same_proposal_fields(
        &recorded,
        requested,
    ) {
        Ok(())
    } else {
        Err(EventStoreError::SupervisionDecisionConflict { decision_id: requested.id.clone() })
    }
}

/// Whether a resolution is accepted against the stored decision: it exists, is still pending,
/// and the resolution changes only its policy result, outcome and resolution time.
pub open spec fn resolution_accepted(
    recorded: Option<SupervisionDecisionView>,
    requested: SupervisionDecisionView,
) -> bool {
    recorded matches Some(rec) && rec.outcome == SupervisionDecisionOutcome::Pending
        && same_proposal(rec, requested)
}

/// A decision is resolved at most once: once a resolution that ends its pending state is
/// stored, no later resolution is accepted, whatever it holds.
pub proof fn law_resolution_happens_once(
    stored: SupervisionDecisionView,
    resolution: SupervisionDecisionView,
    later: SupervisionDecisionView,
)
    requires
        resolution_accepted(Some(stored), resolution),
        resolution.outcome != SupervisionDecisionOutcome::Pending,
    ensures
        !resolution_accepted(Some(resolution), later),
{
}

} // verus!
