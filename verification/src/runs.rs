//! Runs of the orchestrator: the states a run passes through for a given
//! sequence of external results, and the guarantees that hold of every
//! such run.

use vstd::prelude::*;
use crate::errors::ErrorModel;
use crate::orchestrator::{
    exit_code_of, step_of, DiffResultModel, EventModel, OutcomeModel, StateModel,
};
use crate::review::{review_step_of, ReviewModel};

verus! {

/// The states a run passes through, in order, when it starts in `s` and
/// the driver feeds it `events` one by one.
pub open spec fn run_states(s: StateModel, events: Seq<EventModel>) -> Seq<StateModel>
    decreases events.len(),
{
    if events.len() == 0 {
        Seq::empty()
    } else {
        seq![step_of(s, events[0])] + run_states(step_of(s, events[0]), events.skip(1))
    }
}

/// The state a run ends in after consuming all of `events` from `s`.
pub open spec fn final_state(s: StateModel, events: Seq<EventModel>) -> StateModel
    decreases events.len(),
{
    if events.len() == 0 {
        s
    } else {
        final_state(step_of(s, events[0]), events.skip(1))
    }
}

/// How many times a run enters the committing state — that is, how many
/// times the commit command is invoked.
pub open spec fn commit_entries(s: StateModel, events: Seq<EventModel>) -> nat
    decreases events.len(),
{
    if events.len() == 0 {
        0
    } else {
        let s2 = step_of(s, events[0]);
        (if s2 is Committing && !(s is Committing) {
            1nat
        } else {
            0nat
        }) + commit_entries(s2, events.skip(1))
    }
}

/// A finished run stays finished: once the orchestrator is done with an
/// outcome, every later state is that same terminal state, whatever
/// events arrive.
pub proof fn lemma_done_absorbing(o: OutcomeModel, events: Seq<EventModel>)
    ensures
        forall|i: int|
            0 <= i < run_states(StateModel::Done { outcome: o }, events).len()
                ==> run_states(StateModel::Done { outcome: o }, events)[i] == (StateModel::Done {
                outcome: o,
            }),
        final_state(StateModel::Done { outcome: o }, events) == (StateModel::Done { outcome: o }),
    decreases events.len(),
{
    if events.len() > 0 {
        lemma_done_absorbing(o, events.skip(1));
    }
}

/// When the staged-diff query returns an empty result, the run ends at
/// once with the zero-status empty-diff outcome, and no later state —
/// whatever events follow — invokes the generation service or the commit
/// command.
pub proof fn lemma_empty_diff_terminates(events: Seq<EventModel>)
    ensures
        ({
            let s = step_of(
                StateModel::FetchingDiff,
                EventModel::DiffFetched { result: DiffResultModel::Text { text: Seq::empty() } },
            );
            &&& s == (StateModel::Done { outcome: OutcomeModel::EmptyDiff })
            &&& exit_code_of(OutcomeModel::EmptyDiff) == 0
            &&& forall|i: int|
                0 <= i < run_states(s, events).len() ==> !(#[trigger] run_states(s, events)[i]
                    is Generating) && !(run_states(s, events)[i] is Committing)
        }),
{
    lemma_done_absorbing(OutcomeModel::EmptyDiff, events);
}

/// When the availability check reports the version-control tool missing,
/// the run ends at once with a non-zero status carrying the tool-missing
/// error, and no later state — whatever events follow — invokes any other
/// component: not the repository check, not the diff query, not prompt
/// building, not the generation service, and not the commit command.
pub proof fn lemma_tool_missing_halts(events: Seq<EventModel>)
    ensures
        ({
            let s = step_of(StateModel::CheckingTool, EventModel::ToolChecked { present: false });
            &&& s == (StateModel::Done {
                outcome: OutcomeModel::Failed { error: ErrorModel::ToolMissing },
            })
            &&& exit_code_of(OutcomeModel::Failed { error: ErrorModel::ToolMissing }) != 0
            &&& forall|i: int|
                0 <= i < run_states(s, events).len() ==> #[trigger] run_states(s, events)[i] == s
        }),
{
    lemma_done_absorbing(OutcomeModel::Failed { error: ErrorModel::ToolMissing }, events);
}

/// Once the run has reached the committing state or is done, it never
/// enters the committing state again.
proof fn lemma_commit_entries_bound(s: StateModel, events: Seq<EventModel>)
    ensures
        commit_entries(s, events) <= (if s is Committing || s is Done {
            0nat
        } else {
            1nat
        }),
    decreases events.len(),
{
    if events.len() > 0 {
        lemma_commit_entries_bound(step_of(s, events[0]), events.skip(1));
    }
}

/// Along any run from the initial state, the commit command is invoked at
/// most once.
pub proof fn lemma_commit_at_most_once(events: Seq<EventModel>)
    ensures
        commit_entries(StateModel::CheckingTool, events) <= 1,
{
    lemma_commit_entries_bound(StateModel::CheckingTool, events);
}

/// The orchestrator moves into the committing state only when the review
/// loop resolves to a commit, and the message it commits is exactly the
/// message that resolution carries.
pub proof fn lemma_commit_only_from_commit_resolution(s: StateModel, e: EventModel)
    ensures
        (step_of(s, e) is Committing && !(s is Committing)) ==> {
            &&& s matches StateModel::Reviewing { review }
            &&& e matches EventModel::Review { event }
            &&& review_step_of(review, event) matches ReviewModel::ResolvedCommit { message }
            &&& step_of(s, e) == (StateModel::Committing { message })
        },
{
}

} // verus!
