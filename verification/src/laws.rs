use vstd::prelude::*;
use crate::workflow::{
    actions_of, feedback_watched, is_final, progress, state_after, transition, Action, Event,
    WorkflowState, EXIT_SUCCESS,
};

verus! {

/// No transition moves the workflow backwards.
pub proof fn lemma_progress_monotone(state: WorkflowState, event: Event)
    ensures
        progress(state) <= progress(transition(state, event).next),
{
}

/// A final state is kept on every event, and only a failed workflow, whose
/// feedback consumer lives on, still acts: it logs feedback.
pub proof fn lemma_final_step(state: WorkflowState, event: Event)
    requires
        is_final(state),
    ensures
        transition(state, event).next == state,
        transition(state, event).action == Action::Idle || (state == WorkflowState::Failed
            && event == Event::Feedback && transition(state, event).action
            == Action::LogFeedback),
{
}

/// Feedback is observational: it never changes the state. It is logged
/// exactly where the feedback consumer runs and ignored elsewhere.
pub proof fn lemma_feedback_is_observational(state: WorkflowState)
    ensures
        transition(state, Event::Feedback).next == state,
        feedback_watched(state) ==> transition(state, Event::Feedback).action
            == Action::LogFeedback,
        !feedback_watched(state) ==> transition(state, Event::Feedback).action == Action::Idle,
{
}

/// The process is ended by the workflow on one transition only: a terminal
/// result that arrives while the goal is active. The exit code is then zero
/// and the state `Completed`. A rejection or a failed result never ends it.
pub proof fn lemma_exit_only_on_success(state: WorkflowState, event: Event)
    ensures
        transition(state, event).action is Exit <==> (state == WorkflowState::FeedbackActive
            && event == Event::ResultOk),
        transition(state, event).action is Exit ==> transition(state, event).action == (
        Action::Exit { code: EXIT_SUCCESS }) && transition(state, event).next
            == WorkflowState::Completed,
        (transition(state, event).next == WorkflowState::Completed && state
            != WorkflowState::Completed) ==> transition(state, event).action is Exit,
{
}

/// A goal is submitted on one transition only: the server becoming
/// available while the workflow waits for it.
pub proof fn lemma_submit_needs_availability(state: WorkflowState, event: Event)
    ensures
        transition(state, event).action == Action::SubmitGoal <==> (state
            == WorkflowState::AwaitingService && event == Event::ServiceAvailable),
        transition(state, event).action == Action::SubmitGoal ==> transition(state, event).next
            == WorkflowState::GoalSent,
{
}

/// Every event draws exactly one action.
pub proof fn lemma_actions_len(start: WorkflowState, events: Seq<Event>)
    ensures
        actions_of(start, events).len() == events.len(),
    decreases events.len(),
{
    if events.len() > 0 {
        lemma_actions_len(start, events.drop_last());
    }
}

/// The action at a place in a run is the one that the event at that place
/// draws from the state reached by the events before it.
pub proof fn lemma_action_at(start: WorkflowState, events: Seq<Event>, i: int)
    requires
        0 <= i < events.len(),
    ensures
        actions_of(start, events).len() == events.len(),
        actions_of(start, events)[i] == transition(
            state_after(start, events.take(i)),
            events[i],
        ).action,
    decreases events.len(),
{
    let shorter = events.drop_last();
    lemma_actions_len(start, events);
    lemma_actions_len(start, shorter);
    if i == events.len() - 1 {
        assert(events.take(i) == shorter);
    } else {
        lemma_action_at(start, shorter, i);
        assert(shorter.take(i) == events.take(i));
    }
}

/// Running on carries the state forward: the state after the first `j`
/// events is at least as far along as the state after the first `i`.
pub proof fn lemma_progress_along_run(start: WorkflowState, events: Seq<Event>, i: int, j: int)
    requires
        0 <= i <= j <= events.len(),
    ensures
        progress(state_after(start, events.take(i))) <= progress(
            state_after(start, events.take(j)),
        ),
    decreases j - i,
{
    if i < j {
        lemma_progress_along_run(start, events, i, j - 1);
        assert(events.take(j).drop_last() == events.take(j - 1));
        lemma_progress_monotone(state_after(start, events.take(j - 1)), events[j - 1]);
    }
}

/// A final state, once reached, is the state after every further event.
pub proof fn lemma_final_is_absorbing(state: WorkflowState, events: Seq<Event>)
    requires
        is_final(state),
    ensures
        state_after(state, events) == state,
    decreases events.len(),
{
    if events.len() > 0 {
        lemma_final_is_absorbing(state, events.drop_last());
        lemma_final_step(state, events.last());
    }
}

/// In a run from the start, a goal is submitted only at the event that
/// reports the server available, and the workflow was waiting for it.
pub proof fn lemma_submission_follows_availability(events: Seq<Event>, i: int)
    requires
        0 <= i < events.len(),
        actions_of(WorkflowState::Created, events)[i] == Action::SubmitGoal,
    ensures
        events[i] == Event::ServiceAvailable,
        state_after(WorkflowState::Created, events.take(i)) == WorkflowState::AwaitingService,
        exists|k: int| 0 <= k < i && events[k] == Event::ClientReady,
{
    let start = WorkflowState::Created;
    lemma_action_at(start, events, i);
    lemma_submit_needs_availability(state_after(start, events.take(i)), events[i]);
    lemma_left_created(events.take(i));
    let k = choose|k: int| 0 <= k < events.take(i).len() && events.take(i)[k] == Event::ClientReady;
    assert(events[k] == Event::ClientReady);
}

/// A run from the start that waits for the server has seen the client ready.
proof fn lemma_left_created(events: Seq<Event>)
    requires
        state_after(WorkflowState::Created, events) == WorkflowState::AwaitingService,
    ensures
        exists|k: int| 0 <= k < events.len() && events[k] == Event::ClientReady,
    decreases events.len(),
{
    if events.len() > 0 {
        let shorter = events.drop_last();
        let before = state_after(WorkflowState::Created, shorter);
        if before == WorkflowState::AwaitingService {
            lemma_left_created(shorter);
            let k = choose|k: int| 0 <= k < shorter.len() && shorter[k] == Event::ClientReady;
            assert(events[k] == Event::ClientReady);
        } else {
            assert(before == WorkflowState::Created && events.last() == Event::ClientReady);
            assert(events[events.len() - 1] == Event::ClientReady);
        }
    }
}

/// At most one goal is submitted in a run, whatever the events are.
pub proof fn lemma_one_goal_at_most(start: WorkflowState, events: Seq<Event>, i: int, j: int)
    requires
        0 <= i < events.len(),
        0 <= j < events.len(),
        actions_of(start, events)[i] == Action::SubmitGoal,
        actions_of(start, events)[j] == Action::SubmitGoal,
    ensures
        i == j,
{
    if i != j {
        let (a, b) = if i < j {
            (i, j)
        } else {
            (j, i)
        };
        lemma_action_at(start, events, a);
        lemma_action_at(start, events, b);
        lemma_submit_needs_availability(state_after(start, events.take(a)), events[a]);
        lemma_submit_needs_availability(state_after(start, events.take(b)), events[b]);
        assert(events.take(a + 1).drop_last() == events.take(a));
        assert(state_after(start, events.take(a + 1)) == WorkflowState::GoalSent);
        lemma_progress_along_run(start, events, a + 1, b);
    }
}

/// While the server is neither seen nor the watch for it fails, the
/// workflow stays suspended in `AwaitingService` and does nothing.
pub proof fn lemma_waits_while_unavailable(events: Seq<Event>)
    requires
        forall|k: int|
            0 <= k < events.len() ==> events[k] != Event::ServiceAvailable && events[k]
                != Event::AvailabilityFailed,
    ensures
        state_after(WorkflowState::AwaitingService, events) == WorkflowState::AwaitingService,
        actions_of(WorkflowState::AwaitingService, events).len() == events.len(),
        forall|k: int|
            0 <= k < events.len() ==> actions_of(WorkflowState::AwaitingService, events)[k]
                == Action::Idle,
    decreases events.len(),
{
    lemma_actions_len(WorkflowState::AwaitingService, events);
    if events.len() > 0 {
        lemma_waits_while_unavailable(events.drop_last());
        lemma_actions_len(WorkflowState::AwaitingService, events.drop_last());
    }
}

/// While the goal is active, every feedback message is logged, one line for
/// each and in the order of arrival, and the goal stays active.
pub proof fn lemma_feedback_is_logged_in_order(events: Seq<Event>)
    requires
        forall|k: int| 0 <= k < events.len() ==> events[k] == Event::Feedback,
    ensures
        state_after(WorkflowState::FeedbackActive, events) == WorkflowState::FeedbackActive,
        actions_of(WorkflowState::FeedbackActive, events).len() == events.len(),
        forall|k: int|
            0 <= k < events.len() ==> actions_of(WorkflowState::FeedbackActive, events)[k]
                == Action::LogFeedback,
    decreases events.len(),
{
    lemma_actions_len(WorkflowState::FeedbackActive, events);
    if events.len() > 0 {
        lemma_feedback_is_logged_in_order(events.drop_last());
        lemma_actions_len(WorkflowState::FeedbackActive, events.drop_last());
    }
}

/// A run can be cut anywhere: the events after the cut go on from the state
/// that the events before it reached.
pub proof fn lemma_run_splits(start: WorkflowState, first: Seq<Event>, second: Seq<Event>)
    ensures
        state_after(start, first + second) == state_after(state_after(start, first), second),
        actions_of(start, first + second) == actions_of(start, first) + actions_of(
            state_after(start, first),
            second,
        ),
    decreases second.len(),
{
    if second.len() == 0 {
        assert(first + second == first);
        assert(actions_of(start, first) + Seq::<Action>::empty() == actions_of(start, first));
    } else {
        lemma_run_splits(start, first, second.drop_last());
        assert((first + second).drop_last() == first + second.drop_last());
        assert((first + second).last() == second.last());
        let mid = state_after(start, first);
        let act = transition(state_after(mid, second.drop_last()), second.last()).action;
        assert((actions_of(start, first) + actions_of(mid, second.drop_last())).push(act)
            == actions_of(start, first) + actions_of(mid, second.drop_last()).push(act));
    }
}

/// In any run, the process is ended only at the event that brings the
/// terminal result of an active goal; the run is then `Completed`. A run
/// without such an event never ends the process.
pub proof fn lemma_exit_in_run(start: WorkflowState, events: Seq<Event>, i: int)
    requires
        0 <= i < events.len(),
        actions_of(start, events)[i] is Exit,
    ensures
        events[i] == Event::ResultOk,
        state_after(start, events.take(i)) == WorkflowState::FeedbackActive,
        state_after(start, events) == WorkflowState::Completed,
        actions_of(start, events)[i] == (Action::Exit { code: EXIT_SUCCESS }),
{
    lemma_action_at(start, events, i);
    lemma_exit_only_on_success(state_after(start, events.take(i)), events[i]);
    assert(events.take(i + 1).drop_last() == events.take(i));
    assert(state_after(start, events.take(i + 1)) == WorkflowState::Completed);
    lemma_run_splits(start, events.take(i + 1), events.skip(i + 1));
    assert(events.take(i + 1) + events.skip(i + 1) == events);
    lemma_final_is_absorbing(WorkflowState::Completed, events.skip(i + 1));
}

/// The events of a run in which the server appears, accepts the goal, sends
/// `n` feedback messages and then the result.
pub open spec fn successful_run(n: nat) -> Seq<Event> {
    seq![Event::ClientReady, Event::ServiceAvailable, Event::GoalAccepted] + Seq::new(
        n,
        |k: int| Event::Feedback,
    ) + seq![Event::ResultOk]
}

/// A successful run ends `Completed`. Its actions are: wait for the server,
/// submit the goal, watch it, log each of the `n` feedback messages in turn,
/// and end the process with exit code zero.
pub proof fn lemma_successful_run(n: nat)
    ensures
        state_after(WorkflowState::Created, successful_run(n)) == WorkflowState::Completed,
        actions_of(WorkflowState::Created, successful_run(n)) == seq![
            Action::AwaitService,
            Action::SubmitGoal,
            Action::WatchGoal,
        ] + Seq::new(n, |k: int| Action::LogFeedback) + seq![Action::Exit { code: EXIT_SUCCESS }],
{
    let start = WorkflowState::Created;
    let opening = seq![Event::ClientReady, Event::ServiceAvailable, Event::GoalAccepted];
    let feedback = Seq::new(n, |k: int| Event::Feedback);
    let closing = seq![Event::ResultOk];

    let o1 = seq![Event::ClientReady];
    let o2 = seq![Event::ClientReady, Event::ServiceAvailable];
    let none = Seq::<Event>::empty();
    assert(state_after(start, none) == start);
    assert(actions_of(start, none) == Seq::<Action>::empty());
    assert(state_after(WorkflowState::FeedbackActive, none) == WorkflowState::FeedbackActive);
    assert(actions_of(WorkflowState::FeedbackActive, none) == Seq::<Action>::empty());
    assert(o1.drop_last() == none);
    assert(o2.drop_last() == o1);
    assert(opening.drop_last() == o2);
    assert(state_after(start, o1) == WorkflowState::AwaitingService);
    assert(state_after(start, o2) == WorkflowState::GoalSent);
    assert(state_after(start, opening) == WorkflowState::FeedbackActive);
    assert(actions_of(start, o1) == seq![Action::AwaitService]);
    assert(actions_of(start, o2) == seq![Action::AwaitService, Action::SubmitGoal]);
    assert(actions_of(start, opening) == seq![
        Action::AwaitService,
        Action::SubmitGoal,
        Action::WatchGoal,
    ]);

    lemma_feedback_is_logged_in_order(feedback);
    assert(actions_of(WorkflowState::FeedbackActive, feedback) == Seq::new(
        n,
        |k: int| Action::LogFeedback,
    ));

    assert(closing.drop_last() == none);
    assert(state_after(WorkflowState::FeedbackActive, closing) == WorkflowState::Completed);
    assert(actions_of(WorkflowState::FeedbackActive, closing) == seq![
        Action::Exit { code: EXIT_SUCCESS },
    ]);

    lemma_run_splits(start, opening, feedback);
    lemma_run_splits(start, opening + feedback, closing);
}

} // verus!
