//! The life of one subscription task.
//!
//! A subscription task registers a filtered subscription, forwards the window
//! records of its stream to the callback one at a time, and unregisters when
//! the stream ends. The task does no waiting of its own here: a driver
//! performs each [`TaskAction`] and reports what came of it as a
//! [`TaskEvent`], and [`SubscriptionTask::step`] decides what happens next.
//!
//! ```text
//! Registering -> Listening -> Listening ...
//!                          -> Unregistering -> Terminated
//! any live state -> Cancelled
//! ```

use crate::event::WindowEvent;
use crate::filter::EventFilter;
use vstd::prelude::*;

verus! {

/// Where a subscription task stands.
#[derive(Clone, Copy, Debug, PartialEq, Eq, Structural)]
pub enum TaskState {
    /// The subscription is being registered.
    Registering,
    /// The subscription is registered. The task waits for the next record of
    /// the stream, or, with `awaiting_reply`, for the reply to the callback
    /// invocation it has begun.
    Listening { awaiting_reply: bool },
    /// The stream has ended and the subscription is being unregistered.
    Unregistering,
    /// The task has ended on its own.
    Terminated,
    /// The task was cancelled from outside.
    Cancelled,
}

/// What can go wrong in a subscription task.
#[derive(Clone, Copy, Debug, PartialEq, Eq, Structural)]
pub enum TaskFailure {
    /// The subscription could not be registered. This ends the task.
    Registration,
    /// A callback invocation got no reply. The task goes on.
    Delivery,
    /// The subscription could not be unregistered. This ends the task.
    Unregister,
}

/// What the driver reports to the task.
#[derive(Clone, Copy, Debug, PartialEq, Eq, Structural)]
pub enum TaskEvent {
    /// The subscription is registered.
    Registered,
    /// The subscription could not be registered.
    RegistrationFailed,
    /// The stream yielded a record.
    Record(WindowEvent),
    /// The stream has ended.
    StreamClosed,
    /// The callback replied to the invocation in flight.
    Delivered,
    /// The invocation in flight ended without a reply.
    DeliveryFailed,
    /// The subscription is unregistered.
    Unregistered,
    /// The subscription could not be unregistered.
    UnregisterFailed,
    /// The task is cancelled.
    Cancel,
}

/// What the task asks of the driver.
#[derive(Debug, PartialEq, Eq)]
pub enum TaskAction {
    /// Wait for the next record of the stream.
    AwaitRecord,
    /// Invoke the callback with this text and wait for its reply.
    Invoke(String),
    /// Unregister the subscription.
    Unregister,
    /// Stop: the task is over.
    Halt,
    /// Nothing: the event was not one the task waits for, and it was dropped.
    Disregard,
}

/// A [`TaskAction`] as contracts speak of it: the same five actions, with
/// the text of an invocation as a sequence of characters.
pub enum ActionView {
    /// Wait for the next record of the stream.
    AwaitRecord,
    /// Invoke the callback with this text and wait for its reply.
    Invoke(Seq<char>),
    /// Unregister the subscription.
    Unregister,
    /// Stop: the task is over.
    Halt,
    /// Nothing: the event was dropped.
    Disregard,
}

impl View for TaskAction {
    type V = ActionView;

    open spec fn view(&self) -> ActionView {
        match self {
            TaskAction::AwaitRecord => ActionView::AwaitRecord,
            TaskAction::Invoke(text) => ActionView::Invoke(text@),
            TaskAction::Unregister => ActionView::Unregister,
            TaskAction::Halt => ActionView::Halt,
            TaskAction::Disregard => ActionView::Disregard,
        }
    }
}

/// The result of one step: what to do next, and the failure, if any, that
/// the step has to report.
#[derive(Debug, PartialEq, Eq)]
pub struct Transition {
    /// What the driver does next.
    pub action: TaskAction,
    /// The failure that the event brought, to be reported on the side.
    pub failure: Option<TaskFailure>,
}

/// One step of the task, as a value: the state it leads to, the action it
/// asks for, and the failure it reports.
pub struct Outcome {
    /// The state after the step.
    pub state: TaskState,
    /// What the driver does next.
    pub action: ActionView,
    /// The failure that the event brought, if it brought one.
    pub failure: Option<TaskFailure>,
}

impl TaskState {
    /// A task that has neither ended nor been cancelled.
    pub open spec fn spec_is_live(&self) -> bool {
        !(self is Terminated || self is Cancelled)
    }

    /// A task that has begun a callback invocation and not yet seen its
    /// reply.
    pub open spec fn spec_is_awaiting_reply(&self) -> bool {
        *self == (TaskState::Listening { awaiting_reply: true })
    }

    /// Whether the task has neither ended nor been cancelled.
    #[verifier::when_used_as_spec(spec_is_live)]
    pub fn is_live(&self) -> (live: bool)
        ensures
            live == self.spec_is_live(),
    {
        match self {
            TaskState::Terminated => false,
            TaskState::Cancelled => false,
            _ => true,
        }
    }

    /// Whether the task waits for the reply to an invocation.
    #[verifier::when_used_as_spec(spec_is_awaiting_reply)]
    pub fn is_awaiting_reply(&self) -> (awaiting: bool)
        ensures
            awaiting == self.spec_is_awaiting_reply(),
    {
        match self {
            TaskState::Listening { awaiting_reply } => *awaiting_reply,
            _ => false,
        }
    }
}

impl TaskEvent {
    /// The events that end an invocation: the reply, or its absence.
    pub open spec fn is_reply(&self) -> bool {
        self is Delivered || self is DeliveryFailed
    }
}

/// The step the task takes from `state` when the driver reports `event`.
///
/// Each live state waits for its own events; any other event is dropped and
/// leaves the state as it was. Cancellation is taken in every live state. A
/// task that is over stays over.
pub open spec fn transition(state: TaskState, event: TaskEvent) -> Outcome {
    match state {
        TaskState::Registering => match event {
            TaskEvent::Registered => Outcome {
                state: TaskState::Listening { awaiting_reply: false },
                action: ActionView::AwaitRecord,
                failure: None,
            },
            TaskEvent::RegistrationFailed => Outcome {
                state: TaskState::Terminated,
                action: ActionView::Halt,
                failure: Some(TaskFailure::Registration),
            },
            TaskEvent::Cancel => cancelled(),
            _ => disregarded(state),
        },
        TaskState::Listening { awaiting_reply: false } => match event {
            TaskEvent::Record(record) => if record.spec_is_window() {
                Outcome {
                    state: TaskState::Listening { awaiting_reply: true },
                    action: ActionView::Invoke(record.spec_argument()),
                    failure: None,
                }
            } else {
                Outcome { state, action: ActionView::AwaitRecord, failure: None }
            },
            TaskEvent::StreamClosed => Outcome {
                state: TaskState::Unregistering,
                action: ActionView::Unregister,
                failure: None,
            },
            TaskEvent::Cancel => cancelled(),
            _ => disregarded(state),
        },
        TaskState::Listening { awaiting_reply: true } => match event {
            TaskEvent::Delivered => Outcome {
                state: TaskState::Listening { awaiting_reply: false },
                action: ActionView::AwaitRecord,
                failure: None,
            },
            TaskEvent::DeliveryFailed => Outcome {
                state: TaskState::Listening { awaiting_reply: false },
                action: ActionView::AwaitRecord,
                failure: Some(TaskFailure::Delivery),
            },
            TaskEvent::Cancel => cancelled(),
            _ => disregarded(state),
        },
        TaskState::Unregistering => match event {
            TaskEvent::Unregistered => Outcome {
                state: TaskState::Terminated,
                action: ActionView::Halt,
                failure: None,
            },
            TaskEvent::UnregisterFailed => Outcome {
                state: TaskState::Terminated,
                action: ActionView::Halt,
                failure: Some(TaskFailure::Unregister),
            },
            TaskEvent::Cancel => cancelled(),
            _ => disregarded(state),
        },
        TaskState::Terminated => Outcome { state, action: ActionView::Halt, failure: None },
        TaskState::Cancelled => Outcome { state, action: ActionView::Halt, failure: None },
    }
}

/// The step that cancellation takes from any live state.
pub open spec fn cancelled() -> Outcome {
    Outcome { state: TaskState::Cancelled, action: ActionView::Halt, failure: None }
}

/// The step that drops an event and stays in `state`.
pub open spec fn disregarded(state: TaskState) -> Outcome {
    Outcome { state, action: ActionView::Disregard, failure: None }
}

/// One subscription task: the filter it registers with and the state it is
/// in.
#[derive(Debug)]
pub struct SubscriptionTask {
    filter: EventFilter,
    state: TaskState,
}

impl SubscriptionTask {
    /// The filter the task registers its subscription with.
    pub closed spec fn spec_filter(&self) -> EventFilter {
        self.filter
    }

    /// The state the task is in.
    pub closed spec fn spec_state(&self) -> TaskState {
        self.state
    }

    /// A task that is about to register a subscription with `filter`.
    pub fn new(filter: EventFilter) -> (task: SubscriptionTask)
        ensures
            task.filter() == filter,
            task.state() == TaskState::Registering,
    {
        SubscriptionTask { filter, state: TaskState::Registering }
    }

    /// The filter the task registers its subscription with.
    #[verifier::when_used_as_spec(spec_filter)]
    pub fn filter(&self) -> (filter: EventFilter)
        ensures
            filter == self.spec_filter(),
    {
        self.filter
    }

    /// The state the task is in.
    #[verifier::when_used_as_spec(spec_state)]
    pub fn state(&self) -> (state: TaskState)
        ensures
            state == self.spec_state(),
    {
        self.state
    }

    /// Takes the step that `event` calls for and says what the driver does
    /// next. The filter stays as it is.
    pub fn step(&mut self, event: TaskEvent) -> (taken: Transition)
        ensures
            final(self).state() == transition(old(self).state(), event).state,
            taken.action@ == transition(old(self).state(), event).action,
            taken.failure == transition(old(self).state(), event).failure,
            final(self).filter() == old(self).filter(),
    {
        match self.state {
            TaskState::Terminated => {
                return Transition { action: TaskAction::Halt, failure: None };
            },
            TaskState::Cancelled => {
                return Transition { action: TaskAction::Halt, failure: None };
            },
            _ => {},
        }
        if let TaskEvent::Cancel = event {
            self.state = TaskState::Cancelled;
            return Transition { action: TaskAction::Halt, failure: None };
        }
        match (self.state, event) {
            (TaskState::Registering, TaskEvent::Registered) => {
                self.state = TaskState::Listening { awaiting_reply: false };
                Transition { action: TaskAction::AwaitRecord, failure: None }
            },
            (TaskState::Registering, TaskEvent::RegistrationFailed) => {
                self.state = TaskState::Terminated;
                Transition { action: TaskAction::Halt, failure: Some(TaskFailure::Registration) }
            },
            (TaskState::Listening { awaiting_reply: false }, TaskEvent::Record(record)) => {
                if record.is_window() {
                    self.state = TaskState::Listening { awaiting_reply: true };
                    Transition { action: TaskAction::Invoke(record.argument()), failure: None }
                } else {
                    Transition { action: TaskAction::AwaitRecord, failure: None }
                }
            },
            (TaskState::Listening { awaiting_reply: false }, TaskEvent::StreamClosed) => {
                self.state = TaskState::Unregistering;
                Transition { action: TaskAction::Unregister, failure: None }
            },
            (TaskState::Listening { awaiting_reply: true }, TaskEvent::Delivered) => {
                self.state = TaskState::Listening { awaiting_reply: false };
                Transition { action: TaskAction::AwaitRecord, failure: None }
            },
            (TaskState::Listening { awaiting_reply: true }, TaskEvent::DeliveryFailed) => {
                self.state = TaskState::Listening { awaiting_reply: false };
                Transition { action: TaskAction::AwaitRecord, failure: Some(TaskFailure::Delivery) }
            },
            (TaskState::Unregistering, TaskEvent::Unregistered) => {
                self.state = TaskState::Terminated;
                Transition { action: TaskAction::Halt, failure: None }
            },
            (TaskState::Unregistering, TaskEvent::UnregisterFailed) => {
                self.state = TaskState::Terminated;
                Transition { action: TaskAction::Halt, failure: Some(TaskFailure::Unregister) }
            },
            _ => Transition { action: TaskAction::Disregard, failure: None },
        }
    }
}

} // verus!
