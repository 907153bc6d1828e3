use vstd::prelude::*;
use crate::message::{NavigationGoal, Point, Quaternion, Stamp, GoalView, ZERO};
use crate::waypoint::{PlanarRotation, Waypoint};
use crate::workflow::{
    actions_of, state_after, transition, Action, Event, Fault, Step, WorkflowState, EXIT_SUCCESS,
};

verus! {

/// The goal message that belongs to a waypoint, its rotation and a time.
pub open spec fn goal_of(waypoint: Waypoint, rotation: PlanarRotation, now: Stamp) -> GoalView {
    GoalView {
        frame_id: "map"@,
        stamp: now,
        position: Point { x: waypoint.x, y: waypoint.y, z: ZERO },
        orientation: Quaternion { x: ZERO, y: ZERO, z: rotation.z, w: rotation.w },
    }
}

/// The name of the action server that the goal is sent to.
pub fn action_server_name() -> (name: String)
    ensures
        name@ == "navigate_to_pose"@,
{
    "navigate_to_pose".to_owned()
}

/// Builds the goal message for a waypoint.
///
/// The frame is always `map`; the stamp is `now`; the position takes `x` and
/// `y` from the waypoint, bit for bit, and leaves `z` at zero; the
/// orientation takes `w` and `z` from the rotation and leaves `x` and `y` at
/// zero.
pub fn set_goal(waypoint: Waypoint, rotation: PlanarRotation, now: Stamp) -> (goal: NavigationGoal)
    ensures
        goal@ == goal_of(waypoint, rotation, now),
        goal.frame_id@ == "map"@,
        goal.position.x == waypoint.x,
        goal.position.y == waypoint.y,
        goal.position.z == 0,
{
    let position = Point { x: waypoint.get_x(), y: waypoint.get_y(), z: ZERO };
    let orientation = Quaternion { x: ZERO, y: ZERO, z: rotation.z, w: rotation.w };
    NavigationGoal { frame_id: "map".to_owned(), stamp: now, position, orientation }
}

/// The first step of every run: the workflow is created and asks for its
/// action client.
pub fn begin() -> (step: Step)
    ensures
        step == (Step { next: WorkflowState::Created, action: Action::CreateClient }),
{
    Step { next: WorkflowState::Created, action: Action::CreateClient }
}

/// One decision of the action client: the state that follows `state` on
/// `event`, and what the driver does then.
///
/// An event that has no meaning in `state` is ignored: the state stays and
/// the action is `Idle`.
pub fn action_client(state: WorkflowState, event: Event) -> (step: Step)
    ensures
        step == transition(state, event),
{
    match state {
        WorkflowState::Created => match event {
            Event::ClientReady => Step {
                next: WorkflowState::AwaitingService,
                action: Action::AwaitService,
            },
            Event::ClientFailed => aborted(Fault::Client),
            _ => Step { next: state, action: Action::Idle },
        },
        WorkflowState::AwaitingService => match event {
            Event::ServiceAvailable => Step {
                next: WorkflowState::GoalSent,
                action: Action::SubmitGoal,
            },
            Event::AvailabilityFailed => aborted(Fault::Client),
            _ => Step { next: state, action: Action::Idle },
        },
        WorkflowState::GoalSent => match event {
            Event::ClockUnavailable => aborted(Fault::Clock),
            Event::DispatchFailed => aborted(Fault::Dispatch),
            Event::GoalAccepted => Step {
                next: WorkflowState::FeedbackActive,
                action: Action::WatchGoal,
            },
            Event::GoalRejected => Step {
                next: WorkflowState::Rejected,
                action: Action::ReportRejection,
            },
            _ => Step { next: state, action: Action::Idle },
        },
        WorkflowState::FeedbackActive => match event {
            Event::Feedback => Step { next: state, action: Action::LogFeedback },
            Event::ResultOk => Step {
                next: WorkflowState::Completed,
                action: Action::Exit { code: EXIT_SUCCESS },
            },
            Event::ResultErr => Step {
                next: WorkflowState::Failed,
                action: Action::ReportFailure,
            },
            _ => Step { next: state, action: Action::Idle },
        },
        WorkflowState::Failed => match event {
            Event::Feedback => Step { next: state, action: Action::LogFeedback },
            _ => Step { next: state, action: Action::Idle },
        },
        _ => Step { next: state, action: Action::Idle },
    }
}

fn aborted(fault: Fault) -> (step: Step)
    ensures
        step == (Step { next: WorkflowState::Aborted, action: Action::Abort { fault } }),
{
    Step { next: WorkflowState::Aborted, action: Action::Abort { fault } }
}

/// The outcome of a run: the state reached and the actions drawn.
#[derive(Clone, Debug, PartialEq, Eq)]
pub struct Run {
    pub state: WorkflowState,
    pub actions: Vec<Action>,
}

/// Feeds the events to the workflow in order, from `start` on.
pub fn replay(start: WorkflowState, events: &Vec<Event>) -> (run: Run)
    ensures
        run.state == state_after(start, events@),
        run.actions@ == actions_of(start, events@),
{
    let mut state = start;
    let mut actions: Vec<Action> = Vec::new();
    let mut i: usize = 0;
    while i < events.len()
        invariant
            i <= events.len(),
            state == state_after(start, events@.take(i as int)),
            actions@ == actions_of(start, events@.take(i as int)),
        decreases events.len() - i,
    {
        proof {
            let longer = events@.take(i + 1);
            assert(longer.drop_last() == events@.take(i as int));
            assert(longer.last() == events@[i as int]);
        }
        let step = action_client(state, events[i]);
        state = step.next;
        actions.push(step.action);
        i = i + 1;
    }
    proof {
        assert(events@.take(i as int) == events@);
    }
    Run { state, actions }
}

} // verus!
