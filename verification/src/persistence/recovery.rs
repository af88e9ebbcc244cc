//! Restart reconciliation: which work items lost their live execution when the daemon stopped,
//! and the recovery event under which each is interrupted.
use vstd::prelude::*;
use crate::domain::{WorkItemId, WorkItemState};
use crate::text::{chars_of, lemma_text_less_irreflexive, lemma_text_less_transitive, owned, text_less, text_precedes};
use super::error::EventStoreError;

verus! {

/// Whether a work item in this state had a live execution that a restart leaves unconfirmed.
pub open spec fn is_uncertain_after_restart(state: WorkItemState) -> bool {
    state == WorkItemState::Running || state == WorkItemState::AwaitingInput
}

/// Whether a work item in this state had a live execution that a restart leaves unconfirmed.
pub fn uncertain_after_restart(state: WorkItemState) -> (r: bool)
    ensures
        r == is_uncertain_after_restart(state),
        r <==> (state == WorkItemState::Running || state == WorkItemState::AwaitingInput),
{
    state == WorkItemState::Running || state == WorkItemState::AwaitingInput
}

/// The identifiers of a list of work items with their states.
pub open spec fn states_view(v: Seq<(WorkItemId, WorkItemState)>) -> Seq<(Seq<char>, WorkItemState)> {
    v.map_values(|p: (WorkItemId, WorkItemState)| (p.0@, p.1))
}

/// The spelling of a list of work item identifiers.
pub open spec fn ids_view(v: Seq<WorkItemId>) -> Seq<Seq<char>> {
    v.map_values(|id: WorkItemId| id@)
}

/// The spelling of a list of work items with event identifiers.
pub open spec fn pairs_view(v: Seq<(WorkItemId, String)>) -> Seq<(Seq<char>, Seq<char>)> {
    v.map_values(|p: (WorkItemId, String)| (p.0@, p.1@))
}

/// The work items, in order, that were live at the restart and whose execution nobody confirmed.
pub open spec fn uncertain_work_items(
    items: Seq<(Seq<char>, WorkItemState)>,
    confirmed: Seq<Seq<char>>,
) -> Seq<Seq<char>>
    decreases items.len(),
{
    if items.len() == 0 {
        Seq::empty()
    } else {
        let before = uncertain_work_items(items.drop_last(), confirmed);
        if is_uncertain_after_restart(items.last().1) && !confirmed.contains(items.last().0) {
            before.push(items.last().0)
        } else {
            before
        }
    }
}

/// The recovery event identifier given for a work item, the first one listed from index `i` on.
pub open spec fn recovery_event_for(
    event_ids: Seq<(Seq<char>, Seq<char>)>,
    work_item: Seq<char>,
    i: int,
) -> Option<Seq<char>>
    decreases event_ids.len() - i,
{
    if i < 0 || i >= event_ids.len() {
        None
    } else if event_ids[i].0 == work_item {
        Some(event_ids[i].1)
    } else {
        recovery_event_for(event_ids, work_item, i + 1)
    }
}

pub(crate) fn listed(ids: &Vec<WorkItemId>, id: &WorkItemId) -> (r: bool)
    ensures
        r == ids_view(ids@).contains(id@),
{
    let mut i: usize = 0;
    while i < ids.len()
        invariant
            i <= ids@.len(),
            forall|k: int| 0 <= k < i ==> ids_view(ids@)[k] != id@,
        decreases ids@.len() - i,
    {
        if ids[i].same_as(id) {
            assert(ids_view(ids@)[i as int] == id@);
            return true;
        }
        i = i + 1;
    }
    assert(!ids_view(ids@).contains(id@)) by {
        if ids_view(ids@).contains(id@) {
            let k = choose|k: int| 0 <= k < ids_view(ids@).len() && ids_view(ids@)[k] == id@;
            assert(ids_view(ids@)[k] != id@);
        }
    }
    false
}

fn event_for(event_ids: &Vec<(WorkItemId, String)>, id: &WorkItemId, i: usize) -> (r: Option<String>)
    requires
        i <= event_ids@.len(),
    ensures
        r matches Some(e) ==> recovery_event_for(pairs_view(event_ids@), id@, i as int) == Some(e@),
        r is None ==> recovery_event_for(pairs_view(event_ids@), id@, i as int) is None,
    decreases event_ids@.len() - i,
{
    if i == event_ids.len() {
        return None;
    }
    if event_ids[i].0.same_as(id) {
        Some(event_ids[i].1.clone())
    } else {
        event_for(event_ids, id, i + 1)
    }
}

/// The reason recorded when reconciliation interrupts a work item.
pub open spec fn restart_reason() -> Seq<char> {
    "The daemon restarted before a live execution could be confirmed."@
}

/// A transition that restart reconciliation records: the work item is interrupted under its
/// recovery event.
#[derive(Debug, PartialEq, Eq)]
pub struct RecoveryTransition {
    pub event_id: String,
    pub work_item_id: WorkItemId,
    pub next_state: WorkItemState,
    pub reason: String,
    pub recorded_at: String,
}

/// The content of a recovery transition.
pub struct RecoveryTransitionView {
    pub event_id: Seq<char>,
    pub work_item_id: Seq<char>,
    pub next_state: WorkItemState,
    pub reason: Seq<char>,
    pub recorded_at: Seq<char>,
}

impl View for RecoveryTransition {
    type V = RecoveryTransitionView;

    open spec fn view(&self) -> RecoveryTransitionView {
        RecoveryTransitionView {
            event_id: self.event_id@,
            work_item_id: self.work_item_id@,
            next_state: self.next_state,
            reason: self.reason@,
            recorded_at: self.recorded_at@,
        }
    }
}

/// The interruption of `work_item` under `event_id`, recorded at `recorded_at`.
pub open spec fn interruption(work_item: Seq<char>, event_id: Seq<char>, recorded_at: Seq<char>) -> RecoveryTransitionView {
    RecoveryTransitionView {
        event_id,
        work_item_id: work_item,
        next_state: WorkItemState::Interrupted,
        reason: restart_reason(),
        recorded_at,
    }
}

/// The contents of a list of transitions.
pub open spec fn transitions_view(v: Seq<RecoveryTransition>) -> Seq<RecoveryTransitionView> {
    v.map_values(|t: RecoveryTransition| t@)
}

/// The work items that a list of transitions is about, in order.
pub open spec fn transition_ids(v: Seq<RecoveryTransitionView>) -> Seq<Seq<char>> {
    v.map_values(|t: RecoveryTransitionView| t.work_item_id)
}

/// Whether texts are in ascending order.
pub open spec fn ids_sorted(s: Seq<Seq<char>>) -> bool {
    forall|i: int, j: int| 0 <= i < j < s.len() ==> !text_less(#[trigger] s[j], #[trigger] s[i])
}

/// Where `x` goes into the ascending list: after every identifier that does not sort after it.
fn insertion_point(sorted: &Vec<WorkItemId>, x: &Vec<char>) -> (p: usize)
    ensures
        p <= sorted@.len(),
        forall|k: int| 0 <= k < p ==> !text_less(x@, #[trigger] ids_view(sorted@)[k]),
        p < sorted@.len() ==> text_less(x@, ids_view(sorted@)[p as int]),
{
    let mut p: usize = 0;
    while p < sorted.len()
        invariant
            p <= sorted@.len(),
            forall|k: int| 0 <= k < p ==> !text_less(x@, #[trigger] ids_view(sorted@)[k]),
        decreases sorted@.len() - p,
    {
        let c = chars_of(sorted[p].0.as_str());
        assert(c@ == ids_view(sorted@)[p as int]);
        if text_precedes(x, &c) {
            return p;
        }
        p = p + 1;
    }
    p
}

/// The work item identifiers in ascending order.
fn sorted_ids(ids: &Vec<WorkItemId>) -> (r: Vec<WorkItemId>)
    ensures
        ids_sorted(ids_view(r@)),
        ids_view(r@).to_multiset() == ids_view(ids@).to_multiset(),
{
    let mut sorted: Vec<WorkItemId> = Vec::new();
    let mut i: usize = 0;
    assert(ids_view(ids@.subrange(0, 0)) =~= Seq::<Seq<char>>::empty());
    assert(ids_view(sorted@) =~= Seq::<Seq<char>>::empty());
    while i < ids.len()
        invariant
            i <= ids@.len(),
            ids_sorted(ids_view(sorted@)),
            ids_view(sorted@).to_multiset() == ids_view(ids@.subrange(0, i as int)).to_multiset(),
        decreases ids@.len() - i,
    {
        let x = ids[i].clone();
        let xc = chars_of(x.0.as_str());
        let p = insertion_point(&sorted, &xc);
        let ghost before = ids_view(sorted@);
        sorted.insert(p, x);
        proof {
            let t = ids_view(sorted@);
            assert(t =~= before.insert(p as int, xc@));
            vstd::seq_lib::to_multiset_insert(before, p as int, xc@);
            let prefix = ids_view(ids@.subrange(0, i as int));
            assert(ids_view(ids@.subrange(0, i + 1)) =~= prefix.push(xc@));
            vstd::seq_lib::to_multiset_build(prefix, xc@);
            assert forall|a: int, b: int| 0 <= a < b < t.len() implies !text_less(
                #[trigger] t[b],
                #[trigger] t[a],
            ) by {
                if a < p && b == p {
                    assert(t[a] == before[a]);
                } else if a == p {
                    assert(t[b] == before[b - 1]);
                    if text_less(before[b - 1], xc@) {
                        lemma_text_less_transitive(before[b - 1], xc@, before[p as int]);
                        if b - 1 == p {
                            lemma_text_less_irreflexive(before[p as int]);
                        } else {
                            assert(!text_less(before[b - 1], before[p as int]));
                        }
                    }
                } else if b < p {
                    assert(t[a] == before[a] && t[b] == before[b]);
                } else if a < p {
                    assert(t[a] == before[a] && t[b] == before[b - 1]);
                } else {
                    assert(t[a] == before[a - 1] && t[b] == before[b - 1]);
                }
            }
        }
        i = i + 1;
    }
    assert(ids@.subrange(0, ids@.len() as int) =~= ids@);
    sorted
}

/// Plans restart reconciliation: every work item that was running or awaiting input and whose
/// execution was not confirmed active is interrupted under its recovery event, in ascending order
/// of work item identifier. A missing recovery event identifier refuses the whole plan, naming
/// the first such work item in that order.
pub fn plan_restart_recovery(
    work_items: &Vec<(WorkItemId, WorkItemState)>,
    confirmed_active: &Vec<WorkItemId>,
    recovery_event_ids: &Vec<(WorkItemId, String)>,
    recorded_at: &str,
) -> (r: Result<Vec<RecoveryTransition>, EventStoreError>)
    ensures
        ({
            let uncertain = uncertain_work_items(states_view(work_items@), ids_view(confirmed_active@));
            let events = pairs_view(recovery_event_ids@);
            &&& (r is Ok) == (forall|u: Seq<char>| #[trigger] uncertain.contains(u)
                ==> recovery_event_for(events, u, 0) is Some)
            &&& r matches Ok(v) ==> {
                &&& ids_sorted(transition_ids(transitions_view(v@)))
                &&& transition_ids(transitions_view(v@)).to_multiset() == uncertain.to_multiset()
                &&& forall|k: int| 0 <= k < v@.len() ==> #[trigger] transitions_view(v@)[k]
                    == interruption(
                    v@[k].work_item_id@,
                    recovery_event_for(events, v@[k].work_item_id@, 0)->0,
                    recorded_at@,
                )
            }
            &&& r matches Err(e) ==> {
                &&& e matches EventStoreError::MissingRecoveryEventId { work_item_id }
                &&& uncertain.contains(work_item_id@)
                &&& recovery_event_for(events, work_item_id@, 0) is None
                &&& forall|u: Seq<char>| #[trigger] uncertain.contains(u) && text_less(u, work_item_id@)
                    ==> recovery_event_for(events, u, 0) is Some
            }
        }),
{
    let ghost items = states_view(work_items@);
    let ghost confirmed = ids_view(confirmed_active@);
    let ghost events = pairs_view(recovery_event_ids@);
    let mut uncertain: Vec<WorkItemId> = Vec::new();
    let mut i: usize = 0;
    while i < work_items.len()
        invariant
            i <= work_items@.len(),
            items == states_view(work_items@),
            confirmed == ids_view(confirmed_active@),
            ids_view(uncertain@) == uncertain_work_items(items.subrange(0, i as int), confirmed),
        decreases work_items@.len() - i,
    {
        let ghost before = uncertain@;
        assert(items.subrange(0, i + 1).drop_last() =~= items.subrange(0, i as int));
        assert(items.subrange(0, i + 1).last() == (work_items@[i as int].0@, work_items@[i as int].1));
        if uncertain_after_restart(work_items[i].1) && !listed(confirmed_active, &work_items[i].0) {
            uncertain.push(work_items[i].0.clone());
            assert(ids_view(uncertain@) =~= ids_view(before).push(work_items@[i as int].0@));
        }
        i = i + 1;
    }
    assert(items.subrange(0, work_items@.len() as int) =~= items);
    let ghost us = ids_view(uncertain@);
    let sorted = sorted_ids(&uncertain);
    let ghost ss = ids_view(sorted@);
    let reason = restart_uncertainty_reason();
    let mut plan: Vec<RecoveryTransition> = Vec::new();
    let mut j: usize = 0;
    while j < sorted.len()
        invariant
            j <= sorted@.len(),
            ss == ids_view(sorted@),
            ids_sorted(ss),
            us == uncertain_work_items(states_view(work_items@), ids_view(confirmed_active@)),
            ss.to_multiset() == us.to_multiset(),
            events == pairs_view(recovery_event_ids@),
            reason@ == restart_reason(),
            plan@.len() == j,
            forall|k: int| 0 <= k < j ==> (#[trigger] recovery_event_for(events, ss[k], 0)) is Some,
            forall|k: int| 0 <= k < j ==> #[trigger] transitions_view(plan@)[k] == interruption(
                ss[k],
                recovery_event_for(events, ss[k], 0)->0,
                recorded_at@,
            ),
        decreases sorted@.len() - j,
    {
        assert(ss[j as int] == sorted@[j as int]@);
        match event_for(recovery_event_ids, &sorted[j], 0) {
            Some(event_id) => {
                let ghost before = plan@;
                plan.push(
                    RecoveryTransition {
                        event_id,
                        work_item_id: sorted[j].clone(),
                        next_state: WorkItemState::Interrupted,
                        reason: owned(reason),
                        recorded_at: owned(recorded_at),
                    },
                );
                assert forall|k: int| 0 <= k < j + 1 implies #[trigger] transitions_view(plan@)[k]
                    == interruption(ss[k], recovery_event_for(events, ss[k], 0)->0, recorded_at@) by {
                    if k < j {
                        assert(plan@[k] == before[k]);
                        assert(transitions_view(before)[k] == transitions_view(plan@)[k]);
                    }
                }
            },
            None => {
                let ghost missing = ss[j as int];
                proof {
                    assert(ss.contains(missing));
                    vstd::seq_lib::to_multiset_contains(us, missing);
                    vstd::seq_lib::to_multiset_contains(ss, missing);
                    assert(us.contains(missing));
                    assert forall|u: Seq<char>| #[trigger] us.contains(u) && text_less(u, missing)
                        implies recovery_event_for(events, u, 0) is Some by {
                        vstd::seq_lib::to_multiset_contains(us, u);
                        vstd::seq_lib::to_multiset_contains(ss, u);
                        assert(ss.contains(u));
                        let m = choose|m: int| 0 <= m < ss.len() && ss[m] == u;
                        if m == j {
                            lemma_text_less_irreflexive(u);
                        } else if m > j {
                            assert(!text_less(ss[m], ss[j as int]));
                        }
                    }
                }
                return Err(EventStoreError::MissingRecoveryEventId {
                    work_item_id: sorted[j].clone(),
                });
            },
        }
        j = j + 1;
    }
    proof {
        assert(transition_ids(transitions_view(plan@)) =~= ss) by {
            assert forall|k: int| 0 <= k < ss.len() implies transition_ids(transitions_view(plan@))[k]
                == ss[k] by {
                assert(transitions_view(plan@)[k] == interruption(
                    ss[k],
                    recovery_event_for(events, ss[k], 0)->0,
                    recorded_at@,
                ));
            }
        }
        assert forall|k: int| 0 <= k < plan@.len() implies #[trigger] transitions_view(plan@)[k]
            == interruption(
            plan@[k].work_item_id@,
            recovery_event_for(events, plan@[k].work_item_id@, 0)->0,
            recorded_at@,
        ) by {
            assert(transitions_view(plan@)[k] == plan@[k]@);
        }
        assert forall|u: Seq<char>| #[trigger] us.contains(u) implies recovery_event_for(events, u, 0) is Some by {
            vstd::seq_lib::to_multiset_contains(us, u);
            vstd::seq_lib::to_multiset_contains(ss, u);
            assert(ss.contains(u));
        }
    }
    Ok(plan)
}

/// The reason recorded when reconciliation interrupts a work item.
pub fn restart_uncertainty_reason() -> (r: &'static str)
    ensures
        r@ == "The daemon restarted before a live execution could be confirmed."@,
{
    "The daemon restarted before a live execution could be confirmed."
}

/// Reconciliation never touches a work item whose execution was confirmed active, nor one that
/// was not running or awaiting input.
pub proof fn law_reconciliation_spares_confirmed_and_idle_items(
    items: Seq<(Seq<char>, WorkItemState)>,
    confirmed: Seq<Seq<char>>,
    k: int,
)
    requires
        0 <= k < uncertain_work_items(items, confirmed).len(),
    ensures
        !confirmed.contains(uncertain_work_items(items, confirmed)[k]),
        exists|j: int| 0 <= j < items.len() && #[trigger] items[j].0 == uncertain_work_items(items, confirmed)[k]
            && (items[j].1 == WorkItemState::Running || items[j].1 == WorkItemState::AwaitingInput),
    decreases items.len(),
{
    let before = uncertain_work_items(items.drop_last(), confirmed);
    if k < before.len() {
        law_reconciliation_spares_confirmed_and_idle_items(items.drop_last(), confirmed, k);
        let j = choose|j: int| 0 <= j < items.drop_last().len() && #[trigger] items.drop_last()[j].0 == before[k]
            && (items.drop_last()[j].1 == WorkItemState::Running || items.drop_last()[j].1
            == WorkItemState::AwaitingInput);
        assert(items[j] == items.drop_last()[j]);
    } else {
        assert(items[items.len() - 1] == items.last());
    }
}

/// Reconciliation interrupts every work item that was running or awaiting input and whose
/// execution nobody confirmed.
pub proof fn law_reconciliation_interrupts_unconfirmed_live_items(
    items: Seq<(Seq<char>, WorkItemState)>,
    confirmed: Seq<Seq<char>>,
    j: int,
)
    requires
        0 <= j < items.len(),
        items[j].1 == WorkItemState::Running || items[j].1 == WorkItemState::AwaitingInput,
        !confirmed.contains(items[j].0),
    ensures
        uncertain_work_items(items, confirmed).contains(items[j].0),
    decreases items.len(),
{
    let before = uncertain_work_items(items.drop_last(), confirmed);
    if j < items.len() - 1 {
        assert(items.drop_last()[j] == items[j]);
        law_reconciliation_interrupts_unconfirmed_live_items(items.drop_last(), confirmed, j);
        let k = choose|k: int| 0 <= k < before.len() && before[k] == items[j].0;
        if is_uncertain_after_restart(items.last().1) && !confirmed.contains(items.last().0) {
            assert(uncertain_work_items(items, confirmed)[k] == items[j].0);
        }
    } else {
        assert(items.last() == items[j]);
        let all = uncertain_work_items(items, confirmed);
        assert(all[all.len() - 1] == items[j].0);
    }
}

} // verus!
