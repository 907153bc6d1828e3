use nav2_send_goal_rust::send_goal::{action_client, begin, replay};
use nav2_send_goal_rust::workflow::{Action, Event, Fault, Step, WorkflowState, EXIT_SUCCESS};

const ALL_EVENTS: [Event; 11] = [
    Event::ClientReady,
    Event::ClientFailed,
    Event::ServiceAvailable,
    Event::AvailabilityFailed,
    Event::ClockUnavailable,
    Event::DispatchFailed,
    Event::GoalAccepted,
    Event::GoalRejected,
    Event::Feedback,
    Event::ResultOk,
    Event::ResultErr,
];

const ALL_STATES: [WorkflowState; 8] = [
    WorkflowState::Created,
    WorkflowState::AwaitingService,
    WorkflowState::GoalSent,
    WorkflowState::FeedbackActive,
    WorkflowState::Completed,
    WorkflowState::Rejected,
    WorkflowState::Failed,
    WorkflowState::Aborted,
];

fn rank(state: WorkflowState) -> u8 {
    match state {
        WorkflowState::Created => 0,
        WorkflowState::AwaitingService => 1,
        WorkflowState::GoalSent => 2,
        WorkflowState::FeedbackActive => 3,
        _ => 4,
    }
}

#[test]
fn begin_asks_for_the_client() {
    assert_eq!(
        begin(),
        Step { next: WorkflowState::Created, action: Action::CreateClient }
    );
}

#[test]
fn exit_code_of_success_is_zero() {
    assert_eq!(EXIT_SUCCESS, 0);
}

#[test]
fn happy_path_step_by_step() {
    let s = action_client(WorkflowState::Created, Event::ClientReady);
    assert_eq!(s, Step { next: WorkflowState::AwaitingService, action: Action::AwaitService });
    let s = action_client(s.next, Event::ServiceAvailable);
    assert_eq!(s, Step { next: WorkflowState::GoalSent, action: Action::SubmitGoal });
    let s = action_client(s.next, Event::GoalAccepted);
    assert_eq!(s, Step { next: WorkflowState::FeedbackActive, action: Action::WatchGoal });
    let s = action_client(s.next, Event::ResultOk);
    assert_eq!(s, Step { next: WorkflowState::Completed, action: Action::Exit { code: 0 } });
}

#[test]
fn server_never_available_keeps_waiting() {
    let events = vec![
        Event::ClientReady,
        Event::Feedback,
        Event::GoalAccepted,
        Event::ResultOk,
        Event::ClientReady,
        Event::GoalRejected,
        Event::ResultErr,
        Event::ClockUnavailable,
        Event::DispatchFailed,
        Event::ClientFailed,
    ];
    let run = replay(WorkflowState::Created, &events);
    assert_eq!(run.state, WorkflowState::AwaitingService);
    assert_eq!(run.actions.len(), events.len());
    assert_eq!(run.actions[0], Action::AwaitService);
    for action in &run.actions[1..] {
        assert_eq!(*action, Action::Idle);
    }
}

#[test]
fn waiting_with_no_events_stays_suspended() {
    let run = replay(WorkflowState::AwaitingService, &Vec::new());
    assert_eq!(run.state, WorkflowState::AwaitingService);
    assert!(run.actions.is_empty());
}

#[test]
fn three_feedback_messages_then_success() {
    let events = vec![
        Event::ClientReady,
        Event::ServiceAvailable,
        Event::GoalAccepted,
        Event::Feedback,
        Event::Feedback,
        Event::Feedback,
        Event::ResultOk,
    ];
    let run = replay(WorkflowState::Created, &events);
    assert_eq!(run.state, WorkflowState::Completed);
    assert_eq!(
        run.actions,
        vec![
            Action::AwaitService,
            Action::SubmitGoal,
            Action::WatchGoal,
            Action::LogFeedback,
            Action::LogFeedback,
            Action::LogFeedback,
            Action::Exit { code: 0 },
        ]
    );
}

#[test]
fn rejected_goal_is_reported_without_exit() {
    let events = vec![Event::ClientReady, Event::ServiceAvailable, Event::GoalRejected];
    let run = replay(WorkflowState::Created, &events);
    assert_eq!(run.state, WorkflowState::Rejected);
    assert_eq!(
        run.actions,
        vec![Action::AwaitService, Action::SubmitGoal, Action::ReportRejection]
    );
    assert!(!run.actions.iter().any(|a| matches!(a, Action::Exit { .. })));
    for event in ALL_EVENTS {
        assert_eq!(
            action_client(WorkflowState::Rejected, event),
            Step { next: WorkflowState::Rejected, action: Action::Idle }
        );
    }
}

#[test]
fn result_error_without_feedback_is_reported_without_exit() {
    let events = vec![
        Event::ClientReady,
        Event::ServiceAvailable,
        Event::GoalAccepted,
        Event::ResultErr,
    ];
    let run = replay(WorkflowState::Created, &events);
    assert_eq!(run.state, WorkflowState::Failed);
    assert_eq!(
        run.actions,
        vec![
            Action::AwaitService,
            Action::SubmitGoal,
            Action::WatchGoal,
            Action::ReportFailure,
        ]
    );
    assert!(!run.actions.iter().any(|a| matches!(a, Action::Exit { .. })));
}

#[test]
fn client_creation_failure_aborts() {
    assert_eq!(
        action_client(WorkflowState::Created, Event::ClientFailed),
        Step { next: WorkflowState::Aborted, action: Action::Abort { fault: Fault::Client } }
    );
}

#[test]
fn availability_failure_aborts() {
    assert_eq!(
        action_client(WorkflowState::AwaitingService, Event::AvailabilityFailed),
        Step { next: WorkflowState::Aborted, action: Action::Abort { fault: Fault::Client } }
    );
}

#[test]
fn clock_failure_aborts() {
    assert_eq!(
        action_client(WorkflowState::GoalSent, Event::ClockUnavailable),
        Step { next: WorkflowState::Aborted, action: Action::Abort { fault: Fault::Clock } }
    );
}

#[test]
fn dispatch_failure_aborts() {
    assert_eq!(
        action_client(WorkflowState::GoalSent, Event::DispatchFailed),
        Step { next: WorkflowState::Aborted, action: Action::Abort { fault: Fault::Dispatch } }
    );
}

#[test]
fn feedback_never_changes_the_state() {
    for state in ALL_STATES {
        let step = action_client(state, Event::Feedback);
        assert_eq!(step.next, state);
        let watched = state == WorkflowState::FeedbackActive || state == WorkflowState::Failed;
        let expected = if watched { Action::LogFeedback } else { Action::Idle };
        assert_eq!(step.action, expected);
    }
}

#[test]
fn feedback_after_a_failed_result_is_still_logged() {
    let events = vec![
        Event::ClientReady,
        Event::ServiceAvailable,
        Event::GoalAccepted,
        Event::Feedback,
        Event::ResultErr,
        Event::Feedback,
    ];
    let run = replay(WorkflowState::Created, &events);
    assert_eq!(run.state, WorkflowState::Failed);
    assert_eq!(run.actions[3], Action::LogFeedback);
    assert_eq!(run.actions[4], Action::ReportFailure);
    assert_eq!(run.actions[5], Action::LogFeedback);
}

#[test]
fn no_transition_goes_backwards() {
    for state in ALL_STATES {
        for event in ALL_EVENTS {
            assert!(rank(action_client(state, event).next) >= rank(state));
        }
    }
}

#[test]
fn final_states_are_kept() {
    let finals = [
        WorkflowState::Completed,
        WorkflowState::Rejected,
        WorkflowState::Failed,
        WorkflowState::Aborted,
    ];
    for state in finals {
        let run = replay(state, &ALL_EVENTS.to_vec());
        assert_eq!(run.state, state);
        for (event, action) in ALL_EVENTS.iter().zip(run.actions.iter()) {
            let logs = state == WorkflowState::Failed && *event == Event::Feedback;
            let expected = if logs { Action::LogFeedback } else { Action::Idle };
            assert_eq!(*action, expected);
        }
    }
}

#[test]
fn exit_happens_only_on_a_result_for_an_active_goal() {
    for state in ALL_STATES {
        for event in ALL_EVENTS {
            let step = action_client(state, event);
            let exits = matches!(step.action, Action::Exit { .. });
            let expected = state == WorkflowState::FeedbackActive && event == Event::ResultOk;
            assert_eq!(exits, expected);
            if exits {
                assert_eq!(step.action, Action::Exit { code: 0 });
                assert_eq!(step.next, WorkflowState::Completed);
            }
        }
    }
}

#[test]
fn goal_is_submitted_once_and_after_availability() {
    let events = vec![
        Event::ServiceAvailable,
        Event::ClientReady,
        Event::ServiceAvailable,
        Event::ServiceAvailable,
        Event::GoalAccepted,
        Event::ServiceAvailable,
    ];
    let run = replay(WorkflowState::Created, &events);
    let submitted: Vec<usize> = run
        .actions
        .iter()
        .enumerate()
        .filter(|(_, a)| **a == Action::SubmitGoal)
        .map(|(i, _)| i)
        .collect();
    assert_eq!(submitted, vec![2]);
    assert_eq!(events[2], Event::ServiceAvailable);
    assert_eq!(run.state, WorkflowState::FeedbackActive);
}

#[test]
fn replay_splits_at_any_point() {
    let events = vec![
        Event::ClientReady,
        Event::ServiceAvailable,
        Event::GoalAccepted,
        Event::Feedback,
        Event::ResultErr,
    ];
    let whole = replay(WorkflowState::Created, &events);
    for cut in 0..=events.len() {
        let first = replay(WorkflowState::Created, &events[..cut].to_vec());
        let second = replay(first.state, &events[cut..].to_vec());
        assert_eq!(second.state, whole.state);
        let mut actions = first.actions.clone();
        actions.extend(second.actions.iter().copied());
        assert_eq!(actions, whole.actions);
    }
}

#[test]
fn result_before_acceptance_is_ignored() {
    assert_eq!(
        action_client(WorkflowState::GoalSent, Event::ResultOk),
        Step { next: WorkflowState::GoalSent, action: Action::Idle }
    );
    assert_eq!(
        action_client(WorkflowState::GoalSent, Event::Feedback),
        Step { next: WorkflowState::GoalSent, action: Action::Idle }
    );
}

#[test]
fn success_without_feedback() {
    let events = vec![
        Event::ClientReady,
        Event::ServiceAvailable,
        Event::GoalAccepted,
        Event::ResultOk,
    ];
    let run = replay(WorkflowState::Created, &events);
    assert_eq!(run.state, WorkflowState::Completed);
    assert_eq!(
        run.actions,
        vec![
            Action::AwaitService,
            Action::SubmitGoal,
            Action::WatchGoal,
            Action::Exit { code: EXIT_SUCCESS },
        ]
    );
}

#[test]
fn many_feedback_messages_are_each_logged() {
    let events = vec![Event::Feedback; 40];
    let run = replay(WorkflowState::FeedbackActive, &events);
    assert_eq!(run.state, WorkflowState::FeedbackActive);
    assert_eq!(run.actions, vec![Action::LogFeedback; 40]);
}

#[test]
fn nothing_follows_completion() {
    let events = vec![
        Event::ClientReady,
        Event::ServiceAvailable,
        Event::GoalAccepted,
        Event::ResultOk,
        Event::Feedback,
        Event::ResultOk,
        Event::ResultErr,
    ];
    let run = replay(WorkflowState::Created, &events);
    assert_eq!(run.state, WorkflowState::Completed);
    assert_eq!(&run.actions[4..], &[Action::Idle, Action::Idle, Action::Idle]);
}
