//! The rules of boards and their dependencies, with the messages of their refusals.
use vstd::prelude::*;
use crate::domain::{BoardId, DependencyId, PlanId, ProjectId, SchemaMetadata, WorkItemId};
use super::error::{event_store_message, EventStoreError};
use super::recovery::{ids_view, listed};

verus! {

/// A request that the board store refuses.
#[derive(Debug, PartialEq, Eq)]
pub enum BoardStoreError {
    EventStore(EventStoreError),
    ProjectAlreadyExists { project_id: ProjectId },
    ProjectNotFound { project_id: ProjectId },
    BoardAlreadyExists { board_id: BoardId },
    BoardNotFound { board_id: BoardId },
    WorkItemNotFound { work_item_id: WorkItemId },
    CrossBoardDependency {
        dependency_id: DependencyId,
        upstream_board_id: BoardId,
        downstream_board_id: BoardId,
    },
    DependencyIdConflict { dependency_id: DependencyId },
    DependencyCycle { dependency_id: DependencyId },
    PlanNotFound { plan_id: PlanId },
    PlanProposalConflict { plan_id: PlanId },
    PlanConfirmationConflict { plan_id: PlanId },
    PlanWorkItemAlreadyExists { work_item_id: WorkItemId },
    PlanDependencyAlreadyExists { dependency_id: DependencyId },
}

/// The message of a refusal.
pub open spec fn board_store_message(error: BoardStoreError) -> Seq<char> {
    match error {
        BoardStoreError::EventStore(e) => "board-store event error: "@ + event_store_message(e),
        BoardStoreError::ProjectAlreadyExists { project_id } => "project "@ + project_id@
            + " already exists"@,
        BoardStoreError::ProjectNotFound { project_id } => "project "@ + project_id@
            + " was not found"@,
        BoardStoreError::BoardAlreadyExists { board_id } => "board "@ + board_id@
            + " already exists"@,
        BoardStoreError::BoardNotFound { board_id } => "board "@ + board_id@ + " was not found"@,
        BoardStoreError::WorkItemNotFound { work_item_id } => "work item "@ + work_item_id@
            + " was not found"@,
        BoardStoreError::CrossBoardDependency {
            dependency_id,
            upstream_board_id,
            downstream_board_id,
        } => "dependency "@ + dependency_id@ + " crosses boards "@ + upstream_board_id@ + " and "@
            + downstream_board_id@,
        BoardStoreError::DependencyIdConflict { dependency_id } => "dependency id "@
            + dependency_id@ + " conflicts with a recorded dependency"@,
        BoardStoreError::DependencyCycle { dependency_id } => "dependency "@ + dependency_id@
            + " would close a cycle of hard dependencies"@,
        BoardStoreError::PlanNotFound { plan_id } => "plan "@ + plan_id@ + " was not found"@,
        BoardStoreError::PlanProposalConflict { plan_id } => "plan "@ + plan_id@
            + " conflicts with the recorded proposal"@,
        BoardStoreError::PlanConfirmationConflict { plan_id } => "plan "@ + plan_id@
            + " conflicts with its recorded confirmation"@,
        BoardStoreError::PlanWorkItemAlreadyExists { work_item_id } => "planned work item "@
            + work_item_id@ + " already exists"@,
        BoardStoreError::PlanDependencyAlreadyExists { dependency_id } => "planned dependency "@
            + dependency_id@ + " already exists"@,
    }
}

impl BoardStoreError {
    /// The message of this refusal.
    pub fn to_string(&self) -> (r: String)
        ensures
            r@ == board_store_message(*self),
    {
        let mut r = String::new();
        match self {
            BoardStoreError::EventStore(error) => {
                r.append("board-store event error: ");
                let detail = error.to_string();
                r.append(detail.as_str());
            },
            BoardStoreError::ProjectAlreadyExists { project_id } => {
                r.append("project ");
                r.append(project_id.0.as_str());
                r.append(" already exists");
            },
            BoardStoreError::ProjectNotFound { project_id } => {
                r.append("project ");
                r.append(project_id.0.as_str());
                r.append(" was not found");
            },
            BoardStoreError::BoardAlreadyExists { board_id } => {
                r.append("board ");
                r.append(board_id.0.as_str());
                r.append(" already exists");
            },
            BoardStoreError::BoardNotFound { board_id } => {
                r.append("board ");
                r.append(board_id.0.as_str());
                r.append(" was not found");
            },
            BoardStoreError::WorkItemNotFound { work_item_id } => {
                r.append("work item ");
                r.append(work_item_id.0.as_str());
                r.append(" was not found");
            },
            BoardStoreError::CrossBoardDependency {
                dependency_id,
                upstream_board_id,
                downstream_board_id,
            } => {
                r.append("dependency ");
                r.append(dependency_id.0.as_str());
                r.append(" crosses boards ");
                r.append(upstream_board_id.0.as_str());
                r.append(" and ");
                r.append(downstream_board_id.0.as_str());
            },
            BoardStoreError::DependencyIdConflict { dependency_id } => {
                r.append("dependency id ");
                r.append(dependency_id.0.as_str());
                r.append(" conflicts with a recorded dependency");
            },
            BoardStoreError::DependencyCycle { dependency_id } => {
                r.append("dependency ");
                r.append(dependency_id.0.as_str());
                r.append(" would close a cycle of hard dependencies");
            },
            BoardStoreError::PlanNotFound { plan_id } => {
                r.append("plan ");
                r.append(plan_id.0.as_str());
                r.append(" was not found");
            },
            BoardStoreError::PlanProposalConflict { plan_id } => {
                r.append("plan ");
                r.append(plan_id.0.as_str());
                r.append(" conflicts with the recorded proposal");
            },
            BoardStoreError::PlanConfirmationConflict { plan_id } => {
                r.append("plan ");
                r.append(plan_id.0.as_str());
                r.append(" conflicts with its recorded confirmation");
            },
            BoardStoreError::PlanWorkItemAlreadyExists { work_item_id } => {
                r.append("planned work item ");
                r.append(work_item_id.0.as_str());
                r.append(" already exists");
            },
            BoardStoreError::PlanDependencyAlreadyExists { dependency_id } => {
                r.append("planned dependency ");
                r.append(dependency_id.0.as_str());
                r.append(" already exists");
            },
        }
        r
    }

    /// The failure beneath this one: only a wrapped event store refusal has one.
    pub fn source(&self) -> (r: Option<&EventStoreError>)
        ensures
            r is Some <==> self is EventStore,
            r matches Some(e) ==> *self == BoardStoreError::EventStore(*e),
    {
        match self {
            BoardStoreError::EventStore(error) => Some(error),
            _ => None,
        }
    }
}

/// The board of a dependency: both work items must exist (`None` when the store has no such
/// work item) and be on the same board.
pub fn require_dependency_board(
    dependency_id: &DependencyId,
    upstream_work_item_id: &WorkItemId,
    upstream_board: Option<BoardId>,
    downstream_work_item_id: &WorkItemId,
    downstream_board: Option<BoardId>,
) -> (r: Result<BoardId, BoardStoreError>)
    ensures
        upstream_board is None ==> (r matches Err(BoardStoreError::WorkItemNotFound { work_item_id })
            && work_item_id@ == upstream_work_item_id@),
        upstream_board is Some && downstream_board is None ==> (r matches Err(
            BoardStoreError::WorkItemNotFound { work_item_id },
        ) && work_item_id@ == downstream_work_item_id@),
        upstream_board matches Some(u) ==> downstream_board matches Some(d) ==> if u@ == d@ {
            r matches Ok(b) && b@ == u@
        } else {
            r matches Err(BoardStoreError::CrossBoardDependency {
                dependency_id: id,
                upstream_board_id,
                downstream_board_id,
            }) && id@ == dependency_id@ && upstream_board_id@ == u@ && downstream_board_id@ == d@
        },
{
    let upstream = match upstream_board {
        Some(b) => b,
        None => return Err(BoardStoreError::WorkItemNotFound { work_item_id: upstream_work_item_id.clone() }),
    };
    let downstream = match downstream_board {
        Some(b) => b,
        None => return Err(BoardStoreError::WorkItemNotFound { work_item_id: downstream_work_item_id.clone() }),
    };
    if upstream.same_as(&downstream) {
        Ok(upstream)
    } else {
        Err(BoardStoreError::CrossBoardDependency {
            dependency_id: dependency_id.clone(),
            upstream_board_id: upstream,
            downstream_board_id: downstream,
        })
    }
}


/// The dependencies of a board as pairs of upstream and downstream work item identifiers.
pub open spec fn edges_view(dependencies: Seq<(WorkItemId, WorkItemId)>) -> Seq<(Seq<char>, Seq<char>)> {
    dependencies.map_values(|d: (WorkItemId, WorkItemId)| (d.0@, d.1@))
}

/// The downstream work items of the first `i` dependencies whose upstream work item is in `from`.
pub open spec fn step_targets(edges: Seq<(Seq<char>, Seq<char>)>, from: Set<Seq<char>>, i: int) -> Set<Seq<char>>
    decreases i,
{
    if i <= 0 {
        Set::empty()
    } else {
        let earlier = step_targets(edges, from, i - 1);
        if from.contains(edges[i - 1].0) {
            earlier.insert(edges[i - 1].1)
        } else {
            earlier
        }
    }
}

/// The work items that wait, through at most `steps` dependencies, for `start` (itself included).
pub open spec fn reached_within(edges: Seq<(Seq<char>, Seq<char>)>, start: Seq<char>, steps: nat) -> Set<Seq<char>>
    decreases steps,
{
    if steps == 0 {
        Set::empty().insert(start)
    } else {
        let before = reached_within(edges, start, (steps - 1) as nat);
        before.union(step_targets(edges, before, edges.len() as int))
    }
}

/// Whether a new dependency (the downstream work item waits for the upstream one) closes a cycle
/// among the board's dependencies: a work item cannot wait for itself, and the upstream work item
/// must not already wait for the downstream one. A chain of waiting that exists at all exists
/// through at most as many dependencies as there are.
pub open spec fn closes_cycle(edges: Seq<(Seq<char>, Seq<char>)>, upstream: Seq<char>, downstream: Seq<char>) -> bool {
    upstream == downstream || reached_within(edges, downstream, edges.len()).contains(upstream)
}

/// Whether the board holds a dependency of `downstream` on `upstream`.
pub open spec fn has_edge(edges: Seq<(Seq<char>, Seq<char>)>, upstream: Seq<char>, downstream: Seq<char>) -> bool {
    exists|i: int| 0 <= i < edges.len() && edges[i] == (upstream, downstream)
}

/// Whether `path` is a chain of waiting: each work item in it depends on the one before.
pub open spec fn is_chain(edges: Seq<(Seq<char>, Seq<char>)>, path: Seq<Seq<char>>) -> bool {
    &&& path.len() >= 1
    &&& forall|k: int| 0 <= k < path.len() - 1 ==> #[trigger] has_edge(edges, path[k], path[k + 1])
}

/// Whether `later` waits for `earlier` through a chain of dependencies of any length.
pub open spec fn waits_for(edges: Seq<(Seq<char>, Seq<char>)>, earlier: Seq<char>, later: Seq<char>) -> bool {
    exists|path: Seq<Seq<char>>| #[trigger] is_chain(edges, path) && path[0] == earlier && path.last() == later
}

proof fn lemma_step_targets_sound(edges: Seq<(Seq<char>, Seq<char>)>, from: Set<Seq<char>>, i: int, x: Seq<char>)
    requires
        0 <= i <= edges.len(),
        step_targets(edges, from, i).contains(x),
    ensures
        exists|j: int| 0 <= j < i && from.contains(edges[j].0) && edges[j].1 == x,
    decreases i,
{
    if i > 0 {
        if from.contains(edges[i - 1].0) && edges[i - 1].1 == x {
        } else {
            lemma_step_targets_sound(edges, from, i - 1, x);
        }
    }
}

proof fn lemma_step_targets_complete(edges: Seq<(Seq<char>, Seq<char>)>, from: Set<Seq<char>>, i: int, j: int)
    requires
        0 <= j < i <= edges.len(),
        from.contains(edges[j].0),
    ensures
        step_targets(edges, from, i).contains(edges[j].1),
    decreases i,
{
    if j < i - 1 {
        lemma_step_targets_complete(edges, from, i - 1, j);
    }
}

proof fn lemma_reached_sound(edges: Seq<(Seq<char>, Seq<char>)>, start: Seq<char>, k: nat, x: Seq<char>)
    requires
        reached_within(edges, start, k).contains(x),
    ensures
        waits_for(edges, start, x),
    decreases k,
{
    if k == 0 {
        let path = seq![start];
        assert(is_chain(edges, path));
    } else {
        let before = reached_within(edges, start, (k - 1) as nat);
        if before.contains(x) {
            lemma_reached_sound(edges, start, (k - 1) as nat, x);
        } else {
            lemma_step_targets_sound(edges, before, edges.len() as int, x);
            let j = choose|j: int| 0 <= j < edges.len() && before.contains(edges[j].0) && edges[j].1 == x;
            lemma_reached_sound(edges, start, (k - 1) as nat, edges[j].0);
            let path = choose|path: Seq<Seq<char>>| #[trigger] is_chain(edges, path) && path[0] == start
                && path.last() == edges[j].0;
            let longer = path.push(x);
            assert forall|m: int| 0 <= m < longer.len() - 1 implies #[trigger] has_edge(
                edges,
                longer[m],
                longer[m + 1],
            ) by {
                if m < path.len() - 1 {
                    assert(longer[m] == path[m] && longer[m + 1] == path[m + 1]);
                    assert(has_edge(edges, path[m], path[m + 1]));
                } else {
                    assert(longer[m] == path.last() && longer[m + 1] == x);
                    assert(edges[j] == (edges[j].0, x));
                }
            }
            assert(is_chain(edges, longer));
            assert(longer[0] == start && longer.last() == x);
        }
    }
}

proof fn lemma_reached_complete(edges: Seq<(Seq<char>, Seq<char>)>, start: Seq<char>, path: Seq<Seq<char>>)
    requires
        is_chain(edges, path),
        path[0] == start,
    ensures
        reached_within(edges, start, (path.len() - 1) as nat).contains(path.last()),
    decreases path.len(),
{
    if path.len() > 1 {
        let shorter = path.drop_last();
        assert forall|m: int| 0 <= m < shorter.len() - 1 implies #[trigger] has_edge(
            edges,
            shorter[m],
            shorter[m + 1],
        ) by {
            assert(shorter[m] == path[m] && shorter[m + 1] == path[m + 1]);
            assert(has_edge(edges, path[m], path[m + 1]));
        }
        lemma_reached_complete(edges, start, shorter);
        let n = path.len() - 2;
        assert(has_edge(edges, path[n], path[n + 1]));
        let j = choose|j: int| 0 <= j < edges.len() && edges[j] == (path[n], path[n + 1]);
        let before = reached_within(edges, start, (path.len() - 2) as nat);
        assert(shorter.last() == path[n]);
        lemma_step_targets_complete(edges, before, edges.len() as int, j);
    }
}

proof fn lemma_reached_grows(edges: Seq<(Seq<char>, Seq<char>)>, start: Seq<char>, a: nat, b: nat)
    requires
        a <= b,
    ensures
        reached_within(edges, start, a).subset_of(reached_within(edges, start, b)),
    decreases b - a,
{
    if a < b {
        lemma_reached_grows(edges, start, a, (b - 1) as nat);
    }
}

/// The work items that any search from `start` can reach: `start` and the downstream work items.
spec fn reach_bound(edges: Seq<(Seq<char>, Seq<char>)>, start: Seq<char>) -> Set<Seq<char>> {
    edges.map_values(|e: (Seq<char>, Seq<char>)| e.1).to_set().insert(start)
}

proof fn lemma_reach_bound(edges: Seq<(Seq<char>, Seq<char>)>, start: Seq<char>, k: nat)
    ensures
        reach_bound(edges, start).finite(),
        reach_bound(edges, start).len() <= edges.len() + 1,
        reached_within(edges, start, k).subset_of(reach_bound(edges, start)),
    decreases k,
{
    let targets = edges.map_values(|e: (Seq<char>, Seq<char>)| e.1);
    vstd::seq_lib::seq_to_set_is_finite(targets);
    targets.lemma_cardinality_of_set();
    vstd::set::axiom_set_insert_len(targets.to_set(), start);
    if k > 0 {
        lemma_reach_bound(edges, start, (k - 1) as nat);
        let before = reached_within(edges, start, (k - 1) as nat);
        assert forall|x: Seq<char>| #[trigger] reached_within(edges, start, k).contains(x) implies reach_bound(
            edges,
            start,
        ).contains(x) by {
            if !before.contains(x) {
                lemma_step_targets_sound(edges, before, edges.len() as int, x);
                let j = choose|j: int| 0 <= j < edges.len() && before.contains(edges[j].0) && edges[j].1 == x;
                assert(targets[j] == x);
                assert(targets.contains(x));
            }
        }
    }
}

proof fn lemma_reached_stable(edges: Seq<(Seq<char>, Seq<char>)>, start: Seq<char>, k: nat, m: nat)
    requires
        reached_within(edges, start, k + 1) == reached_within(edges, start, k),
        k <= m,
    ensures
        reached_within(edges, start, m) == reached_within(edges, start, k),
    decreases m - k,
{
    if m > k {
        lemma_reached_stable(edges, start, k, (m - 1) as nat);
        assert(reached_within(edges, start, m) == reached_within(edges, start, k + 1));
    }
}

proof fn lemma_reached_size(edges: Seq<(Seq<char>, Seq<char>)>, start: Seq<char>, bound: nat)
    requires
        forall|k: nat| k < bound ==> reached_within(edges, start, k + 1) != #[trigger] reached_within(
            edges,
            start,
            k,
        ),
    ensures
        reached_within(edges, start, bound).finite(),
        reached_within(edges, start, bound).len() >= bound + 1,
    decreases bound,
{
    lemma_reach_bound(edges, start, bound);
    vstd::set_lib::lemma_len_subset(reached_within(edges, start, bound), reach_bound(edges, start));
    if bound == 0 {
        vstd::set::axiom_set_insert_len(Set::<Seq<char>>::empty(), start);
    } else {
        let previous = (bound - 1) as nat;
        lemma_reached_size(edges, start, previous);
        let before = reached_within(edges, start, previous);
        let now = reached_within(edges, start, bound);
        lemma_reached_grows(edges, start, previous, bound);
        assert(now != before);
        let x = choose|x: Seq<char>| now.contains(x) && !before.contains(x);
        assert(exists|x: Seq<char>| now.contains(x) && !before.contains(x)) by {
            if !(exists|x: Seq<char>| now.contains(x) && !before.contains(x)) {
                assert(now =~= before);
            }
        }
        assert(before.insert(x).subset_of(now));
        vstd::set::axiom_set_insert_len(before, x);
        vstd::set_lib::lemma_len_subset(before.insert(x), now);
    }
}

proof fn lemma_reached_settles(edges: Seq<(Seq<char>, Seq<char>)>, start: Seq<char>, m: nat)
    requires
        m >= edges.len(),
    ensures
        reached_within(edges, start, m) == reached_within(edges, start, edges.len()),
{
    let n = edges.len();
    if forall|k: nat| k < n + 1 ==> reached_within(edges, start, k + 1) != #[trigger] reached_within(
        edges,
        start,
        k,
    ) {
        lemma_reached_size(edges, start, (n + 1) as nat);
        lemma_reach_bound(edges, start, (n + 1) as nat);
        vstd::set_lib::lemma_len_subset(reached_within(edges, start, (n + 1) as nat), reach_bound(edges, start));
        assert(false);
    }
    let k = choose|k: nat| k < n + 1 && reached_within(edges, start, k + 1) == #[trigger] reached_within(edges, start, k);
    lemma_reached_stable(edges, start, k, m);
    lemma_reached_stable(edges, start, k, n);
}

/// A new dependency closes a cycle exactly when it would make a work item depend on itself: its
/// two work items are the same, or the upstream work item already waits, through a chain of
/// dependencies of any length, for the downstream one.
pub proof fn law_cycles_are_chains_of_any_length(
    edges: Seq<(Seq<char>, Seq<char>)>,
    upstream: Seq<char>,
    downstream: Seq<char>,
)
    ensures
        closes_cycle(edges, upstream, downstream) <==> (upstream == downstream || waits_for(
            edges,
            downstream,
            upstream,
        )),
{
    let n = edges.len();
    if reached_within(edges, downstream, n).contains(upstream) {
        lemma_reached_sound(edges, downstream, n, upstream);
    }
    if waits_for(edges, downstream, upstream) {
        let path = choose|path: Seq<Seq<char>>| #[trigger] is_chain(edges, path) && path[0] == downstream
            && path.last() == upstream;
        lemma_reached_complete(edges, downstream, path);
        let steps = (path.len() - 1) as nat;
        if steps <= n {
            lemma_reached_grows(edges, downstream, steps, n);
        } else {
            lemma_reached_settles(edges, downstream, steps);
        }
    }
}

fn copied_ids(ids: &Vec<WorkItemId>) -> (r: Vec<WorkItemId>)
    ensures
        ids_view(r@) == ids_view(ids@),
{
    let mut r: Vec<WorkItemId> = Vec::new();
    let mut i: usize = 0;
    while i < ids.len()
        invariant
            i <= ids@.len(),
            ids_view(r@) == ids_view(ids@.subrange(0, i as int)),
        decreases ids@.len() - i,
    {
        let ghost before = r@;
        r.push(ids[i].clone());
        assert(ids_view(r@) =~= ids_view(before).push(ids@[i as int]@));
        assert(ids@.subrange(0, i + 1) =~= ids@.subrange(0, i as int).push(ids@[i as int]));
        assert(ids_view(ids@.subrange(0, i + 1)) =~= ids_view(ids@.subrange(0, i as int)).push(
            ids@[i as int]@,
        ));
        i = i + 1;
    }
    assert(ids@.subrange(0, ids@.len() as int) =~= ids@);
    r
}

/// Whether a new dependency of `downstream` on `upstream` closes a cycle among `dependencies`
/// (upstream, downstream pairs) of the board.
pub fn dependency_closes_cycle(
    dependencies: &Vec<(WorkItemId, WorkItemId)>,
    upstream: &WorkItemId,
    downstream: &WorkItemId,
) -> (r: bool)
    ensures
        r == closes_cycle(edges_view(dependencies@), upstream@, downstream@),
        r == (upstream@ == downstream@ || waits_for(edges_view(dependencies@), downstream@, upstream@)),
{
    proof {
        law_cycles_are_chains_of_any_length(edges_view(dependencies@), upstream@, downstream@);
    }
    if upstream.same_as(downstream) {
        return true;
    }
    let ghost edges = edges_view(dependencies@);
    let mut reached: Vec<WorkItemId> = Vec::new();
    reached.push(downstream.clone());
    let mut k: usize = 0;
    assert forall|x: Seq<char>| ids_view(reached@).contains(x) <==> reached_within(edges, downstream@, 0).contains(x) by {
        if x == downstream@ {
            assert(ids_view(reached@)[0] == x);
        }
    }
    while k < dependencies.len()
        invariant
            k <= dependencies@.len(),
            edges == edges_view(dependencies@),
            forall|x: Seq<char>| #[trigger] ids_view(reached@).contains(x) <==> reached_within(
                edges,
                downstream@,
                k as nat,
            ).contains(x),
        decreases dependencies@.len() - k,
    {
        let ghost before = reached_within(edges, downstream@, k as nat);
        let mut next = copied_ids(&reached);
        let mut i: usize = 0;
        while i < dependencies.len()
            invariant
                i <= dependencies@.len(),
                edges == edges_view(dependencies@),
                before == reached_within(edges, downstream@, k as nat),
                forall|x: Seq<char>| #[trigger] ids_view(reached@).contains(x) <==> before.contains(x),
                forall|x: Seq<char>| #[trigger] ids_view(next@).contains(x) <==> (before.contains(x)
                    || step_targets(edges, before, i as int).contains(x)),
            decreases dependencies@.len() - i,
        {
            let ghost old_next = ids_view(next@);
            assert(edges[i as int] == (dependencies@[i as int].0@, dependencies@[i as int].1@));
            if listed(&reached, &dependencies[i].0) && !listed(&next, &dependencies[i].1) {
                next.push(dependencies[i].1.clone());
                assert(ids_view(next@) =~= old_next.push(dependencies@[i as int].1@));
                assert forall|x: Seq<char>| #[trigger] ids_view(next@).contains(x) <==> (before.contains(x)
                    || step_targets(edges, before, i + 1).contains(x)) by {
                    if x == dependencies@[i as int].1@ {
                        assert(ids_view(next@)[old_next.len() as int] == x);
                    }
                    if old_next.contains(x) {
                        let m = choose|m: int| 0 <= m < old_next.len() && old_next[m] == x;
                        assert(ids_view(next@)[m] == x);
                    }
                    if ids_view(next@).contains(x) && x != dependencies@[i as int].1@ {
                        let m = choose|m: int| 0 <= m < ids_view(next@).len() && ids_view(next@)[m] == x;
                        assert(old_next[m] == x);
                    }
                }
            }
            i = i + 1;
        }
        reached = next;
        k = k + 1;
        assert forall|x: Seq<char>| #[trigger] ids_view(reached@).contains(x) <==> reached_within(
            edges,
            downstream@,
            k as nat,
        ).contains(x) by {
            assert(reached_within(edges, downstream@, k as nat) == before.union(
                step_targets(edges, before, edges.len() as int),
            ));
        }
    }
    listed(&reached, upstream)
}

/// A new dependency must not close a cycle among the board's dependencies.
pub fn require_acyclic_dependency(
    dependencies: &Vec<(WorkItemId, WorkItemId)>,
    dependency_id: &DependencyId,
    upstream: &WorkItemId,
    downstream: &WorkItemId,
) -> (r: Result<(), BoardStoreError>)
    ensures
        r is Ok <==> !closes_cycle(edges_view(dependencies@), upstream@, downstream@),
        r is Ok <==> !(upstream@ == downstream@ || waits_for(edges_view(dependencies@), downstream@, upstream@)),
        r is Err ==> (r matches Err(BoardStoreError::DependencyCycle { dependency_id: id })
            && id@ == dependency_id@),
{
    if dependency_closes_cycle(dependencies, upstream, downstream) {
        Err(BoardStoreError::DependencyCycle { dependency_id: dependency_id.clone() })
    } else {
        Ok(())
    }
}


/// How a dependency constrains its downstream work item.
#[derive(Clone, Copy, Debug, PartialEq, Eq, Structural)]
pub enum DependencyKind {
    /// The downstream work item cannot start before the upstream one is done.
    Blocks,
}

/// Who declared a dependency.
#[derive(Clone, Copy, Debug, PartialEq, Eq, Structural)]
pub enum DependencySource {
    Orchestrator,
}

/// A dependency between two work items of a board.
#[derive(Debug, PartialEq, Eq)]
pub struct Dependency {
    pub schema: SchemaMetadata,
    pub id: DependencyId,
    pub upstream_work_item_id: WorkItemId,
    pub downstream_work_item_id: WorkItemId,
    pub kind: DependencyKind,
    pub source: DependencySource,
    pub reason: String,
    pub owner: String,
    pub next_action: String,
    pub created_by: String,
    pub created_at: String,
}

/// The content of a dependency.
pub struct DependencyView {
    pub schema: SchemaMetadata,
    pub id: Seq<char>,
    pub upstream_work_item_id: Seq<char>,
    pub downstream_work_item_id: Seq<char>,
    pub kind: DependencyKind,
    pub source: DependencySource,
    pub reason: Seq<char>,
    pub owner: Seq<char>,
    pub next_action: Seq<char>,
    pub created_by: Seq<char>,
    pub created_at: Seq<char>,
}

impl View for Dependency {
    type V = DependencyView;

    open spec fn view(&self) -> DependencyView {
        DependencyView {
            schema: self.schema,
            id: self.id@,
            upstream_work_item_id: self.upstream_work_item_id@,
            downstream_work_item_id: self.downstream_work_item_id@,
            kind: self.kind,
            source: self.source,
            reason: self.reason@,
            owner: self.owner@,
            next_action: self.next_action@,
            created_by: self.created_by@,
            created_at: self.created_at@,
        }
    }
}

/// A dependency under a recorded identifier must be the recorded one, field for field; the
/// recorded dependency is returned.
pub fn idempotent_dependency(recorded_dependency: Dependency, dependency: Dependency) -> (r: Result<Dependency, BoardStoreError>)
    ensures
        recorded_dependency@ == dependency@ ==> (r matches Ok(d) && d@ == recorded_dependency@),
        recorded_dependency@ != dependency@ ==> (r matches Err(
            BoardStoreError::DependencyIdConflict { dependency_id },
        ) && dependency_id@ == dependency.id@),
{
    let a = &recorded_dependency;
    let b = &dependency;
    let same = a.schema == b.schema && a.id.0 == b.id.0 && a.upstream_work_item_id.same_as(
        &b.upstream_work_item_id,
    ) && a.downstream_work_item_id.same_as(&b.downstream_work_item_id) && a.kind == b.kind
        && a.source == b.source && a.reason == b.reason && a.owner == b.owner && a.next_action
        == b.next_action && a.created_by == b.created_by && a.created_at == b.created_at;
    if same {
        Ok(recorded_dependency)
    } else {
        Err(BoardStoreError::DependencyIdConflict { dependency_id: dependency.id })
    }
}

} // verus!
