//! How a board's work items add up to the attention it needs in the board library.
use vstd::prelude::*;
use crate::domain::WorkItemState;

verus! {

/// How many work items of a board are running, and how many wait for a person.
#[derive(Clone, Copy, Debug, Default, PartialEq, Eq, Structural)]
pub struct BoardAttentionSummary {
    pub active_work_item_count: usize,
    pub needs_attention_count: usize,
}

/// Whether a work item in this state waits for a person: for input, a review, an unblock, or a
/// look at a failure or an interruption.
pub open spec fn needs_attention(state: WorkItemState) -> bool {
    ||| state == WorkItemState::AwaitingInput
    ||| state == WorkItemState::Review
    ||| state == WorkItemState::Blocked
    ||| state == WorkItemState::Failed
    ||| state == WorkItemState::Interrupted
}

/// How many of the states are `Running`.
pub open spec fn running_count(states: Seq<WorkItemState>) -> nat
    decreases states.len(),
{
    if states.len() == 0 {
        0
    } else {
        running_count(states.drop_last()) + if states.last() == WorkItemState::Running {
            1nat
        } else {
            0nat
        }
    }
}

/// How many of the states wait for a person.
pub open spec fn attention_count(states: Seq<WorkItemState>) -> nat
    decreases states.len(),
{
    if states.len() == 0 {
        0
    } else {
        attention_count(states.drop_last()) + if needs_attention(states.last()) {
            1nat
        } else {
            0nat
        }
    }
}

proof fn lemma_counts_bounded(states: Seq<WorkItemState>)
    ensures
        running_count(states) <= states.len(),
        attention_count(states) <= states.len(),
    decreases states.len(),
{
    if states.len() > 0 {
        lemma_counts_bounded(states.drop_last());
    }
}

/// The attention summary of a board with work items in these states.
pub fn board_attention_summary(states: &Vec<WorkItemState>) -> (r: BoardAttentionSummary)
    ensures
        r.active_work_item_count == running_count(states@),
        r.needs_attention_count == attention_count(states@),
{
    let mut summary = BoardAttentionSummary { active_work_item_count: 0, needs_attention_count: 0 };
    let mut i: usize = 0;
    while i < states.len()
        invariant
            i <= states@.len(),
            summary.active_work_item_count == running_count(states@.subrange(0, i as int)),
            summary.needs_attention_count == attention_count(states@.subrange(0, i as int)),
        decreases states@.len() - i,
    {
        proof {
            lemma_counts_bounded(states@.subrange(0, i + 1));
            assert(states@.subrange(0, i + 1).drop_last() =~= states@.subrange(0, i as int));
        }
        match states[i] {
            WorkItemState::Running => {
                summary.active_work_item_count = summary.active_work_item_count + 1;
            },
            WorkItemState::AwaitingInput | WorkItemState::Review | WorkItemState::Blocked
            | WorkItemState::Failed | WorkItemState::Interrupted => {
                summary.needs_attention_count = summary.needs_attention_count + 1;
            },
            _ => {},
        }
        i = i + 1;
    }
    assert(states@.subrange(0, states@.len() as int) =~= states@);
    summary
}


/// The counts grow one work item at a time: a further work item adds one to the running count
/// exactly when it is running, and one to the attention count exactly when it awaits input, is
/// in review, blocked, failed or interrupted. Inbox, planned, ready, running and done work items
/// never add to the attention count. A board without work items counts nothing.
pub proof fn law_counts_follow_each_work_item(states: Seq<WorkItemState>, state: WorkItemState)
    ensures
        running_count(Seq::empty()) == 0,
        attention_count(Seq::empty()) == 0,
        running_count(states.push(state)) == running_count(states) + if state
            == WorkItemState::Running {
            1nat
        } else {
            0nat
        },
        attention_count(states.push(state)) == attention_count(states) + if state
            == WorkItemState::AwaitingInput || state == WorkItemState::Review || state
            == WorkItemState::Blocked || state == WorkItemState::Failed || state
            == WorkItemState::Interrupted {
            1nat
        } else {
            0nat
        },
        state == WorkItemState::Inbox || state == WorkItemState::Planned || state
            == WorkItemState::Ready || state == WorkItemState::Running || state
            == WorkItemState::Done ==> attention_count(states.push(state)) == attention_count(
            states,
        ),
{
    assert(states.push(state).drop_last() =~= states);
}

/// A board whose work items are all inbox, planned, ready, running or done needs no attention.
pub proof fn law_quiet_boards_need_no_attention(states: Seq<WorkItemState>)
    requires
        forall|i: int| 0 <= i < states.len() ==> {
            let s = #[trigger] states[i];
            s == WorkItemState::Inbox || s == WorkItemState::Planned || s == WorkItemState::Ready
                || s == WorkItemState::Running || s == WorkItemState::Done
        },
    ensures
        attention_count(states) == 0,
    decreases states.len(),
{
    if states.len() > 0 {
        assert(states[states.len() - 1] == states.last());
        assert forall|i: int| 0 <= i < states.drop_last().len() implies {
            let s = #[trigger] states.drop_last()[i];
            s == WorkItemState::Inbox || s == WorkItemState::Planned || s == WorkItemState::Ready
                || s == WorkItemState::Running || s == WorkItemState::Done
        } by {
            assert(states.drop_last()[i] == states[i]);
        }
        law_quiet_boards_need_no_attention(states.drop_last());
    }
}

} // verus!
