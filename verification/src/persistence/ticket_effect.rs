//! An organiser's ticket effects: the record of a proposed change to a work item, which fields of
//! it never change, and the order in which its outcomes may follow each other.
use vstd::prelude::*;
use crate::domain::{text_view, BoardId, SchemaMetadata, TicketEffectId, WorkItemId};
use super::error::EventStoreError;
use super::supervision::SupervisionPolicyResult;

verus! {

/// Where a ticket effect is in its life.
#[derive(Clone, Copy, Debug, PartialEq, Eq, Structural)]
pub enum TicketEffectOutcome {
    Pending,
    AwaitingApproval,
    Applied,
    Denied,
    Stale,
    Recovered,
    Rejected,
    Cancelled,
}

/// The outcome changes that an update may make: a pending effect may wait for approval or end
/// applied, denied, stale or recovered; an effect awaiting approval may end applied, rejected,
/// cancelled, denied or stale. Nothing follows an ended effect.
pub open spec fn outcome_change_allowed(from: TicketEffectOutcome, to: TicketEffectOutcome) -> bool {
    match (from, to) {
        (TicketEffectOutcome::Pending, TicketEffectOutcome::AwaitingApproval) => true,
        (TicketEffectOutcome::Pending, TicketEffectOutcome::Applied) => true,
        (TicketEffectOutcome::Pending, TicketEffectOutcome::Denied) => true,
        (TicketEffectOutcome::Pending, TicketEffectOutcome::Stale) => true,
        (TicketEffectOutcome::Pending, TicketEffectOutcome::Recovered) => true,
        (TicketEffectOutcome::AwaitingApproval, TicketEffectOutcome::Applied) => true,
        (TicketEffectOutcome::AwaitingApproval, TicketEffectOutcome::Rejected) => true,
        (TicketEffectOutcome::AwaitingApproval, TicketEffectOutcome::Cancelled) => true,
        (TicketEffectOutcome::AwaitingApproval, TicketEffectOutcome::Denied) => true,
        (TicketEffectOutcome::AwaitingApproval, TicketEffectOutcome::Stale) => true,
        _ => false,
    }
}

/// Whether an outcome ends the effect.
pub open spec fn is_terminal(outcome: TicketEffectOutcome) -> bool {
    outcome != TicketEffectOutcome::Pending && outcome != TicketEffectOutcome::AwaitingApproval
}

/// What an organiser's effect does to a ticket.
#[derive(Clone, Copy, Debug, PartialEq, Eq, Structural)]
pub enum TicketEffectAction {
    GiveWorkerGuidance,
    ExplainEvidence,
}

/// Under whose authority a board's organiser acts.
#[derive(Clone, Copy, Debug, PartialEq, Eq, Structural)]
pub enum BoardSupervisionMode {
    Manual,
    Autonomous,
}

/// The change that an effect proposes.
#[derive(Debug, PartialEq, Eq, Default)]
pub struct TicketEffectProposal {
    pub worker_guidance: Option<String>,
}

/// The content of a proposed change.
pub struct TicketEffectProposalView {
    pub worker_guidance: Option<Seq<char>>,
}

impl View for TicketEffectProposal {
    type V = TicketEffectProposalView;

    open spec fn view(&self) -> TicketEffectProposalView {
        TicketEffectProposalView { worker_guidance: text_view(self.worker_guidance) }
    }
}

/// An organiser's effect on a ticket, as the store records it.
#[derive(Debug, PartialEq, Eq)]
pub struct TicketEffect {
    pub schema: SchemaMetadata,
    pub id: TicketEffectId,
    pub board_id: BoardId,
    pub work_item_id: WorkItemId,
    pub organiser_profile_name: String,
    pub action: TicketEffectAction,
    pub prompt_summary: String,
    pub recommendation: String,
    pub rationale: String,
    pub proposal: TicketEffectProposal,
    pub authority_mode: BoardSupervisionMode,
    pub supervision_revision: Option<u64>,
    pub policy_result: SupervisionPolicyResult,
    pub outcome: TicketEffectOutcome,
    pub idempotency_key: String,
    pub expected_work_item_sequence: u64,
    pub recorded_at: String,
    pub outcome_at: Option<String>,
}

/// The content of a ticket effect.
pub struct TicketEffectView {
    pub schema: SchemaMetadata,
    pub id: Seq<char>,
    pub board_id: Seq<char>,
    pub work_item_id: Seq<char>,
    pub organiser_profile_name: Seq<char>,
    pub action: TicketEffectAction,
    pub prompt_summary: Seq<char>,
    pub recommendation: Seq<char>,
    pub rationale: Seq<char>,
    pub proposal: TicketEffectProposalView,
    pub authority_mode: BoardSupervisionMode,
    pub supervision_revision: Option<u64>,
    pub policy_result: SupervisionPolicyResult,
    pub outcome: TicketEffectOutcome,
    pub idempotency_key: Seq<char>,
    pub expected_work_item_sequence: u64,
    pub recorded_at: Seq<char>,
    pub outcome_at: Option<Seq<char>>,
}

impl View for TicketEffect {
    type V = TicketEffectView;

    open spec fn view(&self) -> TicketEffectView {
        TicketEffectView {
            schema: self.schema,
            id: self.id@,
            board_id: self.board_id@,
            work_item_id: self.work_item_id@,
            organiser_profile_name: self.organiser_profile_name@,
            action: self.action,
            prompt_summary: self.prompt_summary@,
            recommendation: self.recommendation@,
            rationale: self.rationale@,
            proposal: self.proposal@,
            authority_mode: self.authority_mode,
            supervision_revision: self.supervision_revision,
            policy_result: self.policy_result,
            outcome: self.outcome,
            idempotency_key: self.idempotency_key@,
            expected_work_item_sequence: self.expected_work_item_sequence,
            recorded_at: self.recorded_at@,
            outcome_at: text_view(self.outcome_at),
        }
    }
}

/// Whether an update keeps the fields that a recorded effect never changes: its identity, board,
/// work item, organiser, action, prompt, recommendation, rationale, proposal, authority,
/// supervision revision, idempotency key, expected work item sequence and recording time.
pub open spec fn audit_fields_kept(recorded: TicketEffectView, requested: TicketEffectView) -> bool {
    &&& recorded.id == requested.id
    &&& recorded.board_id == requested.board_id
    &&& recorded.work_item_id == requested.work_item_id
    &&& recorded.organiser_profile_name == requested.organiser_profile_name
    &&& recorded.action == requested.action
    &&& recorded.prompt_summary == requested.prompt_summary
    &&& recorded.recommendation == requested.recommendation
    &&& recorded.rationale == requested.rationale
    &&& recorded.proposal == requested.proposal
    &&& recorded.authority_mode == requested.authority_mode
    &&& recorded.supervision_revision == requested.supervision_revision
    &&& recorded.idempotency_key == requested.idempotency_key
    &&& recorded.expected_work_item_sequence == requested.expected_work_item_sequence
    &&& recorded.recorded_at == requested.recorded_at
}

fn same_optional_text(a: &Option<String>, b: &Option<String>) -> (r: bool)
    ensures
        r == (text_view(*a) == text_view(*b)),
{
    match (a, b) {
        (Some(x), Some(y)) => *x == *y,
        (None, None) => true,
        _ => false,
    }
}

fn same_revision(a: Option<u64>, b: Option<u64>) -> (r: bool)
    ensures
        r == (a == b),
{
    match (a, b) {
        (Some(x), Some(y)) => x == y,
        (None, None) => true,
        _ => false,
    }
}

fn audit_fields_unchanged(recorded: &TicketEffect, requested: &TicketEffect) -> (r: bool)
    ensures
        r == audit_fields_kept(recorded@, requested@),
{
    recorded.id.0 == requested.id.0 && recorded.board_id.same_as(&requested.board_id)
        && recorded.work_item_id.same_as(&requested.work_item_id)
        && recorded.organiser_profile_name == requested.organiser_profile_name
        && recorded.action == requested.action && recorded.prompt_summary
        == requested.prompt_summary && recorded.recommendation == requested.recommendation
        && recorded.rationale == requested.rationale && same_optional_text(
        &recorded.proposal.worker_guidance,
        &requested.proposal.worker_guidance,
    ) && recorded.authority_mode == requested.authority_mode && same_revision(
        recorded.supervision_revision,
        requested.supervision_revision,
    ) && recorded.idempotency_key == requested.idempotency_key
        && recorded.expected_work_item_sequence == requested.expected_work_item_sequence
        && recorded.recorded_at == requested.recorded_at
}

fn outcome_change_is_allowed(recorded: TicketEffectOutcome, requested: TicketEffectOutcome) -> (r: bool)
    ensures
        r == outcome_change_allowed(recorded, requested),
{
    match (recorded, requested) {
        (TicketEffectOutcome::Pending, TicketEffectOutcome::AwaitingApproval)
        | (TicketEffectOutcome::Pending, TicketEffectOutcome::Applied)
        | (TicketEffectOutcome::Pending, TicketEffectOutcome::Denied)
        | (TicketEffectOutcome::Pending, TicketEffectOutcome::Stale)
        | (TicketEffectOutcome::Pending, TicketEffectOutcome::Recovered)
        | (TicketEffectOutcome::AwaitingApproval, TicketEffectOutcome::Applied)
        | (TicketEffectOutcome::AwaitingApproval, TicketEffectOutcome::Rejected)
        | (TicketEffectOutcome::AwaitingApproval, TicketEffectOutcome::Cancelled)
        | (TicketEffectOutcome::AwaitingApproval, TicketEffectOutcome::Denied)
        | (TicketEffectOutcome::AwaitingApproval, TicketEffectOutcome::Stale) => true,
        _ => false,
    }
}

/// Whether an update of a recorded effect is valid: it keeps every field that never changes, and
/// its outcome change is allowed.
pub fn valid_outcome_update(recorded: &TicketEffect, requested: &TicketEffect) -> (r: bool)
    ensures
        r == (audit_fields_kept(recorded@, requested@) && outcome_change_allowed(
            recorded.outcome,
            requested.outcome,
        )),
{
    audit_fields_unchanged(recorded, requested) && outcome_change_is_allowed(
        recorded.outcome,
        requested.outcome,
    )
}

fn same_effect(a: &TicketEffect, b: &TicketEffect) -> (r: bool)
    ensures
        r == (a@ == b@),
{
    a.schema == b.schema && audit_fields_unchanged(a, b) && a.policy_result == b.policy_result
        && a.outcome == b.outcome && same_optional_text(&a.outcome_at, &b.outcome_at)
}

/// A repeated effect under a recorded identifier must be the recorded one, field for field; the
/// recorded effect is returned.
pub fn matching_effect(recorded: TicketEffect, requested: TicketEffect) -> (r: Result<TicketEffect, EventStoreError>)
    ensures
        recorded@ == requested@ ==> (r matches Ok(effect) && effect@ == recorded@),
        recorded@ != requested@ ==> (r matches Err(EventStoreError::TicketEffectConflict { effect_id })
            && effect_id@ == requested.id@),
{
    if same_effect(&recorded, &requested) {
        Ok(recorded)
    } else {
        Err(EventStoreError::TicketEffectConflict { effect_id: requested.id })
    }
}

/// An update of a recorded effect: when it is valid, the updated effect; otherwise the refusal.
pub fn checked_outcome_update(recorded: &TicketEffect, requested: TicketEffect) -> (r: Result<TicketEffect, EventStoreError>)
    ensures
        valid_outcome_update_spec(recorded@, requested@) ==> (r matches Ok(effect) && effect@ == requested@),
        !valid_outcome_update_spec(recorded@, requested@) ==> (r matches Err(
            EventStoreError::TicketEffectInvalidOutcomeTransition { effect_id },
        ) && effect_id@ == requested.id@),
{
    if valid_outcome_update(recorded, &requested) {
        Ok(requested)
    } else {
        Err(EventStoreError::TicketEffectInvalidOutcomeTransition { effect_id: requested.id })
    }
}

/// Whether an update of a recorded effect is valid.
pub open spec fn valid_outcome_update_spec(recorded: TicketEffectView, requested: TicketEffectView) -> bool {
    audit_fields_kept(recorded, requested) && outcome_change_allowed(recorded.outcome, requested.outcome)
}

/// Only an effect awaiting approval can be approved away: rejected or cancelled. Only a pending
/// effect can come to await approval, or be recovered. A pending effect never skips review to be
/// rejected, and nothing returns to pending.
pub proof fn law_review_outcomes_follow_a_request_for_approval(from: TicketEffectOutcome, to: TicketEffectOutcome)
    ensures
        outcome_change_allowed(from, to) && (to == TicketEffectOutcome::Rejected || to
            == TicketEffectOutcome::Cancelled) ==> from == TicketEffectOutcome::AwaitingApproval,
        outcome_change_allowed(from, to) && (to == TicketEffectOutcome::AwaitingApproval || to
            == TicketEffectOutcome::Recovered) ==> from == TicketEffectOutcome::Pending,
        outcome_change_allowed(from, to) ==> to != TicketEffectOutcome::Pending,
        outcome_change_allowed(from, to) ==> from == TicketEffectOutcome::Pending || from
            == TicketEffectOutcome::AwaitingApproval,
{
}

/// A terminal effect is never reopened, and no update leaves an outcome unchanged.
pub proof fn law_terminal_effects_stay_terminal(from: TicketEffectOutcome, to: TicketEffectOutcome)
    ensures
        is_terminal(from) ==> !outcome_change_allowed(from, to),
        outcome_change_allowed(from, to) ==> from != to,
        outcome_change_allowed(from, to) ==> to != TicketEffectOutcome::Pending,
{
}

} // verus!
