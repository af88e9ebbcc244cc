//! Confirming a proposed plan: whether a confirmation may materialize the plan's work items and
//! dependencies on its board, repeats one already made, or is refused.
use vstd::prelude::*;
use crate::domain::{BoardId, DependencyId, PlanId, WorkItemId};
use crate::text::owned;
use super::board::BoardStoreError;

verus! {

/// A work item that a plan proposes, on the board it is for.
#[derive(Debug, PartialEq, Eq)]
pub struct PlanWorkItem {
    pub id: WorkItemId,
    pub board_id: BoardId,
    pub title: String,
}

/// The content of a planned work item.
pub struct PlanWorkItemView {
    pub id: Seq<char>,
    pub board_id: Seq<char>,
    pub title: Seq<char>,
}

impl View for PlanWorkItem {
    type V = PlanWorkItemView;

    open spec fn view(&self) -> PlanWorkItemView {
        PlanWorkItemView { id: self.id@, board_id: self.board_id@, title: self.title@ }
    }
}

/// A dependency that a plan proposes: the downstream work item waits for the upstream one.
#[derive(Debug, PartialEq, Eq)]
pub struct PlanDependency {
    pub id: DependencyId,
    pub upstream_work_item_id: WorkItemId,
    pub downstream_work_item_id: WorkItemId,
}

/// The content of a planned dependency.
pub struct PlanDependencyView {
    pub id: Seq<char>,
    pub upstream_work_item_id: Seq<char>,
    pub downstream_work_item_id: Seq<char>,
}

impl View for PlanDependency {
    type V = PlanDependencyView;

    open spec fn view(&self) -> PlanDependencyView {
        PlanDependencyView {
            id: self.id@,
            upstream_work_item_id: self.upstream_work_item_id@,
            downstream_work_item_id: self.downstream_work_item_id@,
        }
    }
}

/// A plan proposed for a board: its work items and the dependencies between them.
#[derive(Debug, PartialEq, Eq)]
pub struct PlanProposal {
    pub id: PlanId,
    pub work_items: Vec<PlanWorkItem>,
    pub dependencies: Vec<PlanDependency>,
}

/// The content of a plan proposal.
pub struct PlanProposalView {
    pub id: Seq<char>,
    pub work_items: Seq<PlanWorkItemView>,
    pub dependencies: Seq<PlanDependencyView>,
}

impl View for PlanProposal {
    type V = PlanProposalView;

    open spec fn view(&self) -> PlanProposalView {
        PlanProposalView {
            id: self.id@,
            work_items: self.work_items@.map_values(|w: PlanWorkItem| w@),
            dependencies: self.dependencies@.map_values(|d: PlanDependency| d@),
        }
    }
}

/// A user's confirmation of a plan.
#[derive(Debug, PartialEq, Eq)]
pub struct PlanConfirmation {
    pub confirmed_by: String,
    pub confirmed_at: String,
}

/// The content of a plan confirmation.
pub struct PlanConfirmationView {
    pub confirmed_by: Seq<char>,
    pub confirmed_at: Seq<char>,
}

impl View for PlanConfirmation {
    type V = PlanConfirmationView;

    open spec fn view(&self) -> PlanConfirmationView {
        PlanConfirmationView { confirmed_by: self.confirmed_by@, confirmed_at: self.confirmed_at@ }
    }
}

/// The plan that the store holds for a board: its proposal, and its confirmation once made.
#[derive(Debug, PartialEq, Eq)]
pub struct StoredPlan {
    pub proposal: PlanProposal,
    pub confirmation: Option<PlanConfirmation>,
}

/// The content of a stored plan.
pub struct StoredPlanView {
    pub proposal: PlanProposalView,
    pub confirmation: Option<PlanConfirmationView>,
}

impl View for StoredPlan {
    type V = StoredPlanView;

    open spec fn view(&self) -> StoredPlanView {
        StoredPlanView {
            proposal: self.proposal@,
            confirmation: match self.confirmation {
                Some(c) => Some(c@),
                None => None,
            },
        }
    }
}

/// The event that creates a planned work item when its plan is confirmed.
#[derive(Debug, PartialEq, Eq)]
pub struct PlanCreationEvent {
    pub event_id: String,
    pub work_item_id: WorkItemId,
    pub recorded_at: String,
}

/// The content of a creation event.
pub struct PlanCreationEventView {
    pub event_id: Seq<char>,
    pub work_item_id: Seq<char>,
    pub recorded_at: Seq<char>,
}

impl View for PlanCreationEvent {
    type V = PlanCreationEventView;

    open spec fn view(&self) -> PlanCreationEventView {
        PlanCreationEventView {
            event_id: self.event_id@,
            work_item_id: self.work_item_id@,
            recorded_at: self.recorded_at@,
        }
    }
}

/// What confirming a plan does.
#[derive(Debug, PartialEq, Eq)]
pub enum PlanConfirmationAction {
    /// The same confirmation was recorded before: nothing changes.
    AlreadyConfirmed,
    /// Record the confirmation on the board's plan, each work item's creation event in the
    /// plan's order, then the plan's dependencies.
    Materialize { board_id: BoardId, events: Vec<PlanCreationEvent> },
}

/// What confirming a plan decides, by content.
pub enum PlanDecision {
    NotFound,
    ProposalConflict,
    ConfirmationConflict,
    WorkItemExists(Seq<char>),
    DependencyExists(Seq<char>),
    AlreadyConfirmed,
    Materialize(Seq<char>, Seq<PlanCreationEventView>),
}

/// The identifier of the event that creates work item `work_item` of plan `plan`.
pub open spec fn creation_event_id(plan: Seq<char>, work_item: Seq<char>) -> Seq<char> {
    "plan-"@ + plan + "-create-"@ + work_item
}

/// The creation event of a planned work item, recorded when the plan was confirmed.
pub open spec fn creation_event(plan: Seq<char>, work_item: Seq<char>, confirmed_at: Seq<char>) -> PlanCreationEventView {
    PlanCreationEventView {
        event_id: creation_event_id(plan, work_item),
        work_item_id: work_item,
        recorded_at: confirmed_at,
    }
}

/// The first planned work item, from index `i` on, that already exists.
pub open spec fn first_existing_work_item(items: Seq<PlanWorkItemView>, existing: Seq<Seq<char>>, i: int) -> Option<Seq<char>>
    decreases items.len() - i,
{
    if i < 0 || i >= items.len() {
        None
    } else if existing.contains(items[i].id) {
        Some(items[i].id)
    } else {
        first_existing_work_item(items, existing, i + 1)
    }
}

/// The first planned dependency, from index `i` on, that already exists.
pub open spec fn first_existing_dependency(dependencies: Seq<PlanDependencyView>, existing: Seq<Seq<char>>, i: int) -> Option<Seq<char>>
    decreases dependencies.len() - i,
{
    if i < 0 || i >= dependencies.len() {
        None
    } else if existing.contains(dependencies[i].id) {
        Some(dependencies[i].id)
    } else {
        first_existing_dependency(dependencies, existing, i + 1)
    }
}

/// Confirming a plan that was not confirmed yet: no planned work item and no planned dependency
/// may exist, and the plan is materialized.
pub open spec fn unconfirmed_plan_decision(
    proposal: PlanProposalView,
    confirmation: PlanConfirmationView,
    existing_work_items: Seq<Seq<char>>,
    existing_dependencies: Seq<Seq<char>>,
) -> PlanDecision {
    match first_existing_work_item(proposal.work_items, existing_work_items, 0) {
        Some(w) => PlanDecision::WorkItemExists(w),
        None => match first_existing_dependency(proposal.dependencies, existing_dependencies, 0) {
            Some(d) => PlanDecision::DependencyExists(d),
            None => PlanDecision::Materialize(
                proposal.work_items[0].board_id,
                Seq::new(
                    proposal.work_items.len(),
                    |k: int| creation_event(
                        proposal.id,
                        proposal.work_items[k].id,
                        confirmation.confirmed_at,
                    ),
                ),
            ),
        },
    }
}

/// Confirming `proposal` against the plan recorded for its board (the board of its first work
/// item; a plan without work items has none, and is not found). The recorded proposal must be
/// this one. A recorded confirmation may only be repeated. Otherwise no planned work item and no
/// planned dependency may exist yet (`existing_work_items` and `existing_dependencies` are the
/// identifiers the store already holds), and the plan is materialized: one creation event per
/// work item, in the plan's order, recorded at the confirmation's time.
pub open spec fn plan_decision(
    recorded: Option<StoredPlanView>,
    proposal: PlanProposalView,
    confirmation: PlanConfirmationView,
    existing_work_items: Seq<Seq<char>>,
    existing_dependencies: Seq<Seq<char>>,
) -> PlanDecision {
    if proposal.work_items.len() == 0 {
        PlanDecision::NotFound
    } else {
        match recorded {
            None => PlanDecision::NotFound,
            Some(stored) => if stored.proposal != proposal {
                PlanDecision::ProposalConflict
            } else {
                match stored.confirmation {
                    Some(recorded_confirmation) => if recorded_confirmation == confirmation {
                        PlanDecision::AlreadyConfirmed
                    } else {
                        PlanDecision::ConfirmationConflict
                    },
                    None => unconfirmed_plan_decision(
                        proposal,
                        confirmation,
                        existing_work_items,
                        existing_dependencies,
                    ),
                }
            },
        }
    }
}

/// The content of a list of creation events.
pub open spec fn events_view(v: Seq<PlanCreationEvent>) -> Seq<PlanCreationEventView> {
    v.map_values(|e: PlanCreationEvent| e@)
}

fn same_work_items(a: &Vec<PlanWorkItem>, b: &Vec<PlanWorkItem>) -> (r: bool)
    ensures
        r == (a@.map_values(|w: PlanWorkItem| w@) == b@.map_values(|w: PlanWorkItem| w@)),
{
    let ghost va = a@.map_values(|w: PlanWorkItem| w@);
    let ghost vb = b@.map_values(|w: PlanWorkItem| w@);
    if a.len() != b.len() {
        assert(va.len() != vb.len());
        return false;
    }
    let mut i: usize = 0;
    while i < a.len()
        invariant
            i <= a@.len(),
            a@.len() == b@.len(),
            va == a@.map_values(|w: PlanWorkItem| w@),
            vb == b@.map_values(|w: PlanWorkItem| w@),
            forall|k: int| 0 <= k < i ==> va[k] == vb[k],
        decreases a@.len() - i,
    {
        if !(a[i].id.same_as(&b[i].id) && a[i].board_id.same_as(&b[i].board_id) && a[i].title
            == b[i].title) {
            assert(va[i as int] != vb[i as int]);
            return false;
        }
        assert(va[i as int] == vb[i as int]);
        i = i + 1;
    }
    assert(va =~= vb);
    true
}

fn same_dependencies(a: &Vec<PlanDependency>, b: &Vec<PlanDependency>) -> (r: bool)
    ensures
        r == (a@.map_values(|d: PlanDependency| d@) == b@.map_values(|d: PlanDependency| d@)),
{
    let ghost va = a@.map_values(|d: PlanDependency| d@);
    let ghost vb = b@.map_values(|d: PlanDependency| d@);
    if a.len() != b.len() {
        assert(va.len() != vb.len());
        return false;
    }
    let mut i: usize = 0;
    while i < a.len()
        invariant
            i <= a@.len(),
            a@.len() == b@.len(),
            va == a@.map_values(|d: PlanDependency| d@),
            vb == b@.map_values(|d: PlanDependency| d@),
            forall|k: int| 0 <= k < i ==> va[k] == vb[k],
        decreases a@.len() - i,
    {
        if !(a[i].id.0 == b[i].id.0 && a[i].upstream_work_item_id.same_as(
            &b[i].upstream_work_item_id,
        ) && a[i].downstream_work_item_id.same_as(&b[i].downstream_work_item_id)) {
            assert(va[i as int] != vb[i as int]);
            return false;
        }
        assert(va[i as int] == vb[i as int]);
        i = i + 1;
    }
    assert(va =~= vb);
    true
}

fn same_proposal(a: &PlanProposal, b: &PlanProposal) -> (r: bool)
    ensures
        r == (a@ == b@),
{
    let ids = a.id.0 == b.id.0;
    let items = same_work_items(&a.work_items, &b.work_items);
    let dependencies = same_dependencies(&a.dependencies, &b.dependencies);
    ids && items && dependencies
}

fn same_confirmation(a: &PlanConfirmation, b: &PlanConfirmation) -> (r: bool)
    ensures
        r == (a@ == b@),
{
    a.confirmed_by == b.confirmed_by && a.confirmed_at == b.confirmed_at
}

fn listed_work_item(ids: &Vec<WorkItemId>, id: &WorkItemId) -> (r: bool)
    ensures
        r == ids@.map_values(|w: WorkItemId| w@).contains(id@),
{
    let ghost v = ids@.map_values(|w: WorkItemId| w@);
    let mut i: usize = 0;
    while i < ids.len()
        invariant
            i <= ids@.len(),
            v == ids@.map_values(|w: WorkItemId| w@),
            forall|k: int| 0 <= k < i ==> v[k] != id@,
        decreases ids@.len() - i,
    {
        if ids[i].same_as(id) {
            assert(v[i as int] == id@);
            return true;
        }
        i = i + 1;
    }
    assert(!v.contains(id@)) by {
        if v.contains(id@) {
            let k = choose|k: int| 0 <= k < v.len() && v[k] == id@;
            assert(v[k] != id@);
        }
    }
    false
}

fn listed_dependency(ids: &Vec<DependencyId>, id: &DependencyId) -> (r: bool)
    ensures
        r == ids@.map_values(|d: DependencyId| d@).contains(id@),
{
    let ghost v = ids@.map_values(|d: DependencyId| d@);
    let mut i: usize = 0;
    while i < ids.len()
        invariant
            i <= ids@.len(),
            v == ids@.map_values(|d: DependencyId| d@),
            forall|k: int| 0 <= k < i ==> v[k] != id@,
        decreases ids@.len() - i,
    {
        if ids[i].0 == id.0 {
            assert(v[i as int] == id@);
            return true;
        }
        i = i + 1;
    }
    assert(!v.contains(id@)) by {
        if v.contains(id@) {
            let k = choose|k: int| 0 <= k < v.len() && v[k] == id@;
            assert(v[k] != id@);
        }
    }
    false
}

/// The identifier of the event that creates `work_item` of `plan`.
fn creation_event_identifier(plan: &PlanId, work_item: &WorkItemId) -> (r: String)
    ensures
        r@ == creation_event_id(plan@, work_item@),
{
    let mut r = owned("plan-");
    r.append(plan.0.as_str());
    r.append("-create-");
    r.append(work_item.0.as_str());
    r
}

/// Decides a plan confirmation from the plan recorded for the proposal's board and the planned
/// identifiers the store already holds.
pub fn plan_confirmation_step(
    recorded: Option<&StoredPlan>,
    proposal: &PlanProposal,
    confirmation: &PlanConfirmation,
    existing_work_items: &Vec<WorkItemId>,
    existing_dependencies: &Vec<DependencyId>,
) -> (r: Result<PlanConfirmationAction, BoardStoreError>)
    ensures
        match plan_decision(
            match recorded {
                Some(p) => Some(p@),
                None => None,
            },
            proposal@,
            confirmation@,
            existing_work_items@.map_values(|w: WorkItemId| w@),
            existing_dependencies@.map_values(|d: DependencyId| d@),
        ) {
            PlanDecision::NotFound => r matches Err(BoardStoreError::PlanNotFound { plan_id })
                && plan_id@ == proposal.id@,
            PlanDecision::ProposalConflict => r matches Err(
                BoardStoreError::PlanProposalConflict { plan_id },
            ) && plan_id@ == proposal.id@,
            PlanDecision::ConfirmationConflict => r matches Err(
                BoardStoreError::PlanConfirmationConflict { plan_id },
            ) && plan_id@ == proposal.id@,
            PlanDecision::WorkItemExists(w) => r matches Err(
                BoardStoreError::PlanWorkItemAlreadyExists { work_item_id },
            ) && work_item_id@ == w,
            PlanDecision::DependencyExists(d) => r matches Err(
                BoardStoreError::PlanDependencyAlreadyExists { dependency_id },
            ) && dependency_id@ == d,
            PlanDecision::AlreadyConfirmed => r == Ok::<PlanConfirmationAction, BoardStoreError>(
                PlanConfirmationAction::AlreadyConfirmed,
            ),
            PlanDecision::Materialize(board, events) => r matches Ok(
                PlanConfirmationAction::Materialize { board_id, events: made },
            ) && board_id@ == board && events_view(made@) == events,
        },
{
    let ghost items = proposal@.work_items;
    let ghost dependencies = proposal@.dependencies;
    let ghost existing_items = existing_work_items@.map_values(|w: WorkItemId| w@);
    let ghost existing_deps = existing_dependencies@.map_values(|d: DependencyId| d@);
    if proposal.work_items.len() == 0 {
        return Err(BoardStoreError::PlanNotFound { plan_id: proposal.id.clone() });
    }
    let stored = match recorded {
        Some(stored) => stored,
        None => return Err(BoardStoreError::PlanNotFound { plan_id: proposal.id.clone() }),
    };
    if !same_proposal(&stored.proposal, proposal) {
        return Err(BoardStoreError::PlanProposalConflict { plan_id: proposal.id.clone() });
    }
    if let Some(recorded_confirmation) = &stored.confirmation {
        if same_confirmation(recorded_confirmation, confirmation) {
            return Ok(PlanConfirmationAction::AlreadyConfirmed);
        }
        return Err(BoardStoreError::PlanConfirmationConflict { plan_id: proposal.id.clone() });
    }
    let ghost decision = plan_decision(
        match recorded {
            Some(p) => Some(p@),
            None => None,
        },
        proposal@,
        confirmation@,
        existing_items,
        existing_deps,
    );
    assert(decision == unconfirmed_plan_decision(proposal@, confirmation@, existing_items, existing_deps));
    let mut i: usize = 0;
    while i < proposal.work_items.len()
        invariant
            decision == plan_decision(
                match recorded {
                    Some(p) => Some(p@),
                    None => None,
                },
                proposal@,
                confirmation@,
                existing_work_items@.map_values(|w: WorkItemId| w@),
                existing_dependencies@.map_values(|d: DependencyId| d@),
            ),
            decision == unconfirmed_plan_decision(proposal@, confirmation@, existing_items, existing_deps),
            i <= items.len(),
            items == proposal@.work_items,
            items.len() == proposal.work_items@.len(),
            existing_items == existing_work_items@.map_values(|w: WorkItemId| w@),
            first_existing_work_item(items, existing_items, 0) == first_existing_work_item(
                items,
                existing_items,
                i as int,
            ),
        decreases items.len() - i,
    {
        assert(items[i as int] == proposal.work_items@[i as int]@);
        if listed_work_item(existing_work_items, &proposal.work_items[i].id) {
            assert(first_existing_work_item(items, existing_items, i as int) == Some(items[i as int].id));
            return Err(
                BoardStoreError::PlanWorkItemAlreadyExists {
                    work_item_id: proposal.work_items[i].id.clone(),
                },
            );
        }
        i = i + 1;
    }
    let mut j: usize = 0;
    while j < proposal.dependencies.len()
        invariant
            decision == plan_decision(
                match recorded {
                    Some(p) => Some(p@),
                    None => None,
                },
                proposal@,
                confirmation@,
                existing_work_items@.map_values(|w: WorkItemId| w@),
                existing_dependencies@.map_values(|d: DependencyId| d@),
            ),
            decision == unconfirmed_plan_decision(proposal@, confirmation@, existing_items, existing_deps),
            j <= dependencies.len(),
            items == proposal@.work_items,
            existing_items == existing_work_items@.map_values(|w: WorkItemId| w@),
            dependencies == proposal@.dependencies,
            dependencies.len() == proposal.dependencies@.len(),
            existing_deps == existing_dependencies@.map_values(|d: DependencyId| d@),
            first_existing_work_item(items, existing_items, 0) is None,
            first_existing_dependency(dependencies, existing_deps, 0) == first_existing_dependency(
                dependencies,
                existing_deps,
                j as int,
            ),
        decreases dependencies.len() - j,
    {
        assert(dependencies[j as int] == proposal.dependencies@[j as int]@);
        if listed_dependency(existing_dependencies, &proposal.dependencies[j].id) {
            assert(first_existing_dependency(dependencies, existing_deps, j as int) == Some(dependencies[j as int].id));
            return Err(
                BoardStoreError::PlanDependencyAlreadyExists {
                    dependency_id: proposal.dependencies[j].id.clone(),
                },
            );
        }
        j = j + 1;
    }
    let mut events: Vec<PlanCreationEvent> = Vec::new();
    let mut k: usize = 0;
    while k < proposal.work_items.len()
        invariant
            decision == plan_decision(
                match recorded {
                    Some(p) => Some(p@),
                    None => None,
                },
                proposal@,
                confirmation@,
                existing_work_items@.map_values(|w: WorkItemId| w@),
                existing_dependencies@.map_values(|d: DependencyId| d@),
            ),
            decision == unconfirmed_plan_decision(proposal@, confirmation@, existing_items, existing_deps),
            first_existing_work_item(items, existing_items, 0) is None,
            first_existing_dependency(dependencies, existing_deps, 0) is None,
            dependencies == proposal@.dependencies,
            k <= items.len(),
            items == proposal@.work_items,
            items.len() == proposal.work_items@.len(),
            events@.len() == k,
            forall|m: int| 0 <= m < k ==> #[trigger] events_view(events@)[m] == creation_event(
                proposal.id@,
                items[m].id,
                confirmation.confirmed_at@,
            ),
        decreases items.len() - k,
    {
        assert(items[k as int] == proposal.work_items@[k as int]@);
        let ghost before = events@;
        events.push(
            PlanCreationEvent {
                event_id: creation_event_identifier(&proposal.id, &proposal.work_items[k].id),
                work_item_id: proposal.work_items[k].id.clone(),
                recorded_at: owned(confirmation.confirmed_at.as_str()),
            },
        );
        assert(events@[k as int]@ == creation_event(proposal.id@, items[k as int].id, confirmation.confirmed_at@));
        assert forall|m: int| 0 <= m < k + 1 implies #[trigger] events_view(events@)[m]
            == creation_event(proposal.id@, items[m].id, confirmation.confirmed_at@) by {
            assert(events_view(events@)[m] == events@[m]@);
            if m < k {
                assert(events@[m] == before[m]);
                assert(events_view(before)[m] == before[m]@);
            }
        }
        k = k + 1;
    }
    assert(events_view(events@) =~= Seq::new(
        items.len(),
        |m: int| creation_event(proposal.id@, items[m].id, confirmation.confirmed_at@),
    ));
    assert(items[0] == proposal.work_items@[0]@);
    Ok(
        PlanConfirmationAction::Materialize {
            board_id: proposal.work_items[0].board_id.clone(),
            events,
        },
    )
}

} // verus!
