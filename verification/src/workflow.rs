use vstd::prelude::*;

verus! {

/// Where the goal submission stands.
#[derive(Clone, Copy, Debug, PartialEq, Eq, Structural)]
pub enum WorkflowState {
    /// The action client is being created.
    Created,
    /// The client exists; the server has not been seen yet.
    AwaitingService,
    /// The server is there; the goal is built and on its way.
    GoalSent,
    /// The server took the goal; feedback and the result are awaited.
    FeedbackActive,
    /// The result arrived and the process has ended.
    Completed,
    /// The server refused the goal.
    Rejected,
    /// The result could not be had.
    Failed,
    /// A fatal fault stopped the workflow.
    Aborted,
}

/// What the driver observed on the middleware.
#[derive(Clone, Copy, Debug, PartialEq, Eq, Structural)]
pub enum Event {
    /// The action client and its availability watch were created.
    ClientReady,
    /// Creating the client or the availability watch failed.
    ClientFailed,
    /// The action server was discovered.
    ServiceAvailable,
    /// The availability watch ended with an error.
    AvailabilityFailed,
    /// The time source gave no time for the goal's stamp.
    ClockUnavailable,
    /// The goal request could not be dispatched.
    DispatchFailed,
    /// The server accepted the goal.
    GoalAccepted,
    /// The server rejected the goal.
    GoalRejected,
    /// A feedback message arrived.
    Feedback,
    /// The terminal result arrived.
    ResultOk,
    /// Waiting for the terminal result ended with an error.
    ResultErr,
}

/// The fatal faults, none of which is retried.
#[derive(Clone, Copy, Debug, PartialEq, Eq, Structural)]
pub enum Fault {
    /// The action client or its availability watch.
    Client,
    /// The time source.
    Clock,
    /// The dispatch of the goal request.
    Dispatch,
}

/// What the driver does next.
#[derive(Clone, Copy, Debug, PartialEq, Eq, Structural)]
pub enum Action {
    /// Nothing: the event has no meaning in the current state.
    Idle,
    /// Create the action client and the availability watch.
    CreateClient,
    /// Announce the wait and suspend until the server is available.
    AwaitService,
    /// Announce the server, build the goal and submit it.
    SubmitGoal,
    /// Start consuming feedback, detached, and await the result.
    WatchGoal,
    /// Print the feedback message with the goal's current status.
    LogFeedback,
    /// Print the outcome and end the process with the given exit code.
    Exit { code: i32 },
    /// Print the rejection and return; the process lives on.
    ReportRejection,
    /// Print the error of the result and return; the process lives on.
    ReportFailure,
    /// Stop with a diagnostic.
    Abort { fault: Fault },
}

/// A transition: the state that follows and what the driver does.
#[derive(Clone, Copy, Debug, PartialEq, Eq, Structural)]
pub struct Step {
    pub next: WorkflowState,
    pub action: Action,
}

/// The exit code of the process after a successful terminal result.
pub const EXIT_SUCCESS: i32 = 0;

/// How far a state is along the workflow. No transition lowers it.
pub open spec fn progress(state: WorkflowState) -> nat {
    match state {
        WorkflowState::Created => 0,
        WorkflowState::AwaitingService => 1,
        WorkflowState::GoalSent => 2,
        WorkflowState::FeedbackActive => 3,
        _ => 4,
    }
}

/// The states that no event leaves.
pub open spec fn is_final(state: WorkflowState) -> bool {
    progress(state) == 4
}

/// The states in which the detached feedback consumer runs: from the goal's
/// acceptance on, and on after a failed result, until the process ends.
pub open spec fn feedback_watched(state: WorkflowState) -> bool {
    state == WorkflowState::FeedbackActive || state == WorkflowState::Failed
}

/// The transition table of the workflow.
pub open spec fn transition(state: WorkflowState, event: Event) -> Step {
    match (state, event) {
        (WorkflowState::Created, Event::ClientReady) => Step {
            next: WorkflowState::AwaitingService,
            action: Action::AwaitService,
        },
        (WorkflowState::Created, Event::ClientFailed) => Step {
            next: WorkflowState::Aborted,
            action: Action::Abort { fault: Fault::Client },
        },
        (WorkflowState::AwaitingService, Event::ServiceAvailable) => Step {
            next: WorkflowState::GoalSent,
            action: Action::SubmitGoal,
        },
        (WorkflowState::AwaitingService, Event::AvailabilityFailed) => Step {
            next: WorkflowState::Aborted,
            action: Action::Abort { fault: Fault::Client },
        },
        (WorkflowState::GoalSent, Event::ClockUnavailable) => Step {
            next: WorkflowState::Aborted,
            action: Action::Abort { fault: Fault::Clock },
        },
        (WorkflowState::GoalSent, Event::DispatchFailed) => Step {
            next: WorkflowState::Aborted,
            action: Action::Abort { fault: Fault::Dispatch },
        },
        (WorkflowState::GoalSent, Event::GoalAccepted) => Step {
            next: WorkflowState::FeedbackActive,
            action: Action::WatchGoal,
        },
        (WorkflowState::GoalSent, Event::GoalRejected) => Step {
            next: WorkflowState::Rejected,
            action: Action::ReportRejection,
        },
        (WorkflowState::FeedbackActive, Event::Feedback) => Step {
            next: WorkflowState::FeedbackActive,
            action: Action::LogFeedback,
        },
        (WorkflowState::FeedbackActive, Event::ResultOk) => Step {
            next: WorkflowState::Completed,
            action: Action::Exit { code: EXIT_SUCCESS },
        },
        (WorkflowState::FeedbackActive, Event::ResultErr) => Step {
            next: WorkflowState::Failed,
            action: Action::ReportFailure,
        },
        (WorkflowState::Failed, Event::Feedback) => Step {
            next: WorkflowState::Failed,
            action: Action::LogFeedback,
        },
        _ => Step { next: state, action: Action::Idle },
    }
}

/// The state reached from `start` after the events, taken in order.
pub open spec fn state_after(start: WorkflowState, events: Seq<Event>) -> WorkflowState
    decreases events.len(),
{
    if events.len() == 0 {
        start
    } else {
        transition(state_after(start, events.drop_last()), events.last()).next
    }
}

/// The actions that the events draw from `start`, one for each event.
pub open spec fn actions_of(start: WorkflowState, events: Seq<Event>) -> Seq<Action>
    decreases events.len(),
{
    if events.len() == 0 {
        Seq::empty()
    } else {
        actions_of(start, events.drop_last()).push(
            transition(state_after(start, events.drop_last()), events.last()).action,
        )
    }
}

} // verus!
