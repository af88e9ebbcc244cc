//! Refining a work item's details: a request repeated under a recorded event identifier must be
//! the recorded refinement.
use vstd::prelude::*;
use crate::domain::{WorkItemEventId, WorkItemId};
use super::error::EventStoreError;

verus! {

/// The details that a refinement gives a work item, and why.
#[derive(Debug, PartialEq, Eq)]
pub struct DetailsRefinement {
    pub title: String,
    pub description: String,
    pub acceptance_criteria: Vec<String>,
    pub reason: String,
}

/// A request to refine a work item's details, made against the work item's latest event.
#[derive(Debug, PartialEq, Eq)]
pub struct RefineWorkItemDetailsCommand {
    pub event_id: WorkItemEventId,
    pub work_item_id: WorkItemId,
    pub title: String,
    pub description: String,
    pub acceptance_criteria: Vec<String>,
    pub reason: String,
    pub expected_work_item_sequence: u64,
    pub recorded_at: String,
}

/// The texts of a list.
pub open spec fn texts_of(v: Seq<String>) -> Seq<Seq<char>> {
    v.map_values(|t: String| t@)
}

/// Whether a recorded refinement of `recorded_work_item` is the one a command asks for.
pub open spec fn same_refinement(
    recorded_work_item: Seq<char>,
    recorded: DetailsRefinement,
    command: RefineWorkItemDetailsCommand,
) -> bool {
    &&& recorded_work_item == command.work_item_id@
    &&& recorded.title@ == command.title@
    &&& recorded.description@ == command.description@
    &&& texts_of(recorded.acceptance_criteria@) == texts_of(command.acceptance_criteria@)
    &&& recorded.reason@ == command.reason@
}

fn same_texts(a: &Vec<String>, b: &Vec<String>) -> (r: bool)
    ensures
        r == (texts_of(a@) == texts_of(b@)),
{
    if a.len() != b.len() {
        assert(texts_of(a@).len() != texts_of(b@).len());
        return false;
    }
    let mut i: usize = 0;
    while i < a.len()
        invariant
            i <= a@.len(),
            a@.len() == b@.len(),
            forall|k: int| 0 <= k < i ==> texts_of(a@)[k] == texts_of(b@)[k],
        decreases a@.len() - i,
    {
        if a[i] != b[i] {
            assert(texts_of(a@)[i as int] != texts_of(b@)[i as int]);
            return false;
        }
        i = i + 1;
    }
    assert(texts_of(a@) =~= texts_of(b@));
    true
}

/// A refinement repeated under a recorded event identifier. `recorded` is the refinement that
/// the event records, or none when the event is of another kind; `recorded_work_item_id` is the
/// event's work item. The repeat is accepted only when it asks for exactly the recorded
/// refinement; otherwise the event identifier conflicts.
pub fn idempotent_refinement(
    recorded_work_item_id: &WorkItemId,
    recorded: Option<&DetailsRefinement>,
    command: &RefineWorkItemDetailsCommand,
) -> (r: Result<(), EventStoreError>)
    ensures
        r is Ok <==> (recorded matches Some(d) && same_refinement(
            recorded_work_item_id@,
            *d,
            *command,
        )),
        r is Err ==> (r matches Err(EventStoreError::EventIdConflict { event_id })
            && event_id@ == command.event_id@),
{
    let matches = match recorded {
        Some(d) => recorded_work_item_id.same_as(&command.work_item_id) && d.title
            == command.title && d.description == command.description && same_texts(
            &d.acceptance_criteria,
            &command.acceptance_criteria,
        ) && d.reason == command.reason,
        None => false,
    };
    if matches {
        Ok(())
    } else {
        Err(EventStoreError::EventIdConflict { event_id: command.event_id.clone() })
    }
}

} // verus!
