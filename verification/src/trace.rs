//! What a subscription task does over a whole sequence of events.
//!
//! [`transition`] says what one event does. The functions here follow a task
//! through a sequence of events and collect the callback invocations it
//! begins; the lemmas state what holds of every such sequence.

use crate::event::WindowEvent;
use crate::task::{transition, ActionView, TaskEvent, TaskState};
use vstd::prelude::*;

verus! {

/// The state a task is in after it has taken `events`, in order, from
/// `state`.
pub open spec fn state_after(state: TaskState, events: Seq<TaskEvent>) -> TaskState
    decreases events.len(),
{
    if events.len() == 0 {
        state
    } else {
        transition(state_after(state, events.drop_last()), events.last()).state
    }
}

/// The texts of the callback invocations that a task begins while it takes
/// `events` from `state`, in the order in which it begins them.
pub open spec fn invocations(state: TaskState, events: Seq<TaskEvent>) -> Seq<Seq<char>>
    decreases events.len(),
{
    if events.len() == 0 {
        Seq::empty()
    } else {
        let earlier = invocations(state, events.drop_last());
        match transition(state_after(state, events.drop_last()), events.last()).action {
            ActionView::Invoke(text) => earlier.push(text),
            _ => earlier,
        }
    }
}

/// Whether a task that takes `events` from `state` begins a callback
/// invocation at the event of index `at`.
pub open spec fn begins_invocation(state: TaskState, events: Seq<TaskEvent>, at: int) -> bool
    recommends
        0 <= at < events.len(),
{
    transition(state_after(state, events.take(at)), events[at]).action is Invoke
}

/// The texts that the window records among `records` are forwarded as, in
/// the order of the records.
pub open spec fn forwarded(records: Seq<WindowEvent>) -> Seq<Seq<char>> {
    records.filter(|record: WindowEvent| record.spec_is_window()).map_values(
        |record: WindowEvent| record.spec_argument(),
    )
}

/// The events a driver reports for a stream of `records`: each record as it
/// arrives, and after each window record the end of its invocation, with a
/// reply where `delivered` says so and without one where it does not.
pub open spec fn schedule(records: Seq<WindowEvent>, delivered: Seq<bool>) -> Seq<TaskEvent>
    recommends
        delivered.len() == records.len(),
    decreases records.len(),
{
    if records.len() == 0 {
        Seq::empty()
    } else {
        let earlier = schedule(records.drop_last(), delivered.drop_last());
        let arrival = earlier.push(TaskEvent::Record(records.last()));
        if records.last().spec_is_window() {
            arrival.push(
                if delivered.last() {
                    TaskEvent::Delivered
                } else {
                    TaskEvent::DeliveryFailed
                },
            )
        } else {
            arrival
        }
    }
}

/// The events of a whole life: the registration, the stream of `records`
/// with the end of each invocation, the end of the stream, and the
/// unregistration.
pub open spec fn whole_life(records: Seq<WindowEvent>, delivered: Seq<bool>) -> Seq<TaskEvent>
    recommends
        delivered.len() == records.len(),
{
    seq![TaskEvent::Registered] + schedule(records, delivered) + seq![
        TaskEvent::StreamClosed,
        TaskEvent::Unregistered,
    ]
}

/// Taking one more event is one more step.
pub proof fn lemma_one_more(state: TaskState, events: Seq<TaskEvent>, event: TaskEvent)
    ensures
        state_after(state, events.push(event)) == transition(
            state_after(state, events),
            event,
        ).state,
        invocations(state, events.push(event)) == (match transition(
            state_after(state, events),
            event,
        ).action {
            ActionView::Invoke(text) => invocations(state, events).push(text),
            _ => invocations(state, events),
        }),
{
    assert(events.push(event).drop_last() =~= events);
}

/// Taking two sequences of events one after the other is taking the second
/// from where the first has led.
pub proof fn lemma_in_sequence(state: TaskState, first: Seq<TaskEvent>, second: Seq<TaskEvent>)
    ensures
        state_after(state, first + second) == state_after(state_after(state, first), second),
        invocations(state, first + second) == invocations(state, first) + invocations(
            state_after(state, first),
            second,
        ),
    decreases second.len(),
{
    if second.len() > 0 {
        lemma_in_sequence(state, first, second.drop_last());
        assert((first + second).drop_last() =~= first + second.drop_last());
    }
}

/// A task that is over stays as it is and begins no invocation, whatever
/// events follow.
pub proof fn lemma_over_is_silent(state: TaskState, events: Seq<TaskEvent>)
    requires
        !state.spec_is_live(),
    ensures
        state_after(state, events) == state,
        invocations(state, events) == Seq::<Seq<char>>::empty(),
    decreases events.len(),
{
    if events.len() > 0 {
        lemma_over_is_silent(state, events.drop_last());
    }
}

/// Cancellation termination: once a task is cancelled it begins no further
/// invocation, whatever is still queued. The invocations of a run are those
/// begun before the cancellation, and cancelling a live task leaves it
/// cancelled for good.
pub proof fn lemma_cancellation_ends_invocations(
    state: TaskState,
    before: Seq<TaskEvent>,
    after: Seq<TaskEvent>,
)
    ensures
        invocations(state, before.push(TaskEvent::Cancel) + after) == invocations(state, before),
        !state_after(state, before.push(TaskEvent::Cancel) + after).spec_is_live(),
        state_after(state, before).spec_is_live() ==> state_after(
            state,
            before.push(TaskEvent::Cancel) + after,
        ) == TaskState::Cancelled,
{
    let cancelled = before.push(TaskEvent::Cancel);
    lemma_one_more(state, before, TaskEvent::Cancel);
    lemma_in_sequence(state, cancelled, after);
    lemma_over_is_silent(state_after(state, cancelled), after);
}

/// Non-window filtering: a record that is not about a window itself begins
/// no invocation and changes nothing, in whatever state it arrives. A run
/// with such a record goes as the run without it.
pub proof fn lemma_other_objects_are_dropped(
    state: TaskState,
    before: Seq<TaskEvent>,
    record: WindowEvent,
    after: Seq<TaskEvent>,
)
    requires
        !record.spec_is_window(),
    ensures
        !(transition(state, TaskEvent::Record(record)).action is Invoke),
        transition(state, TaskEvent::Record(record)).state == state,
        invocations(state, before.push(TaskEvent::Record(record)) + after) == invocations(
            state,
            before + after,
        ),
        state_after(state, before.push(TaskEvent::Record(record)) + after) == state_after(
            state,
            before + after,
        ),
{
    let arrival = TaskEvent::Record(record);
    lemma_one_more(state, before, arrival);
    lemma_in_sequence(state, before.push(arrival), after);
    lemma_in_sequence(state, before, after);
}

/// One at a time: a step that begins an invocation leaves the task waiting
/// for the reply, and it was not waiting for one before.
pub proof fn lemma_invocation_awaits_reply(state: TaskState, event: TaskEvent)
    requires
        transition(state, event).action is Invoke,
    ensures
        !state.spec_is_awaiting_reply(),
        transition(state, event).state.spec_is_awaiting_reply(),
        event is Record,
{
}

/// One at a time: while a task waits for the reply to an invocation, it
/// begins no other. Events that do not end the invocation in flight lead to
/// no invocation, however many they are.
pub proof fn lemma_one_at_a_time(state: TaskState, events: Seq<TaskEvent>)
    requires
        state.spec_is_awaiting_reply(),
        forall|i: int| 0 <= i < events.len() ==> !(#[trigger] events[i]).is_reply(),
    ensures
        invocations(state, events) == Seq::<Seq<char>>::empty(),
        state_after(state, events) == state || state_after(state, events) == TaskState::Cancelled,
    decreases events.len(),
{
    if events.len() > 0 {
        lemma_one_at_a_time(state, events.drop_last());
    }
}

/// One at a time: in any run, the end of an invocation lies between the
/// beginnings of any two. No invocation begins before the reply to the one
/// before it, or the lack of one, has been observed.
pub proof fn lemma_replies_separate_invocations(
    state: TaskState,
    events: Seq<TaskEvent>,
    earlier: int,
    later: int,
)
    requires
        0 <= earlier < later < events.len(),
        begins_invocation(state, events, earlier),
        begins_invocation(state, events, later),
    ensures
        exists|between: int| earlier < between < later && (#[trigger] events[between]).is_reply(),
{
    if !(exists|between: int| earlier < between < later && (#[trigger] events[between]).is_reply()) {
        let head = events.take(earlier + 1);
        let middle = events.subrange(earlier + 1, later);
        assert(events.take(earlier).push(events[earlier]) =~= head);
        assert(head + middle =~= events.take(later));
        assert forall|i: int| 0 <= i < middle.len() implies !(#[trigger] middle[i]).is_reply() by {
            assert(middle[i] == events[earlier + 1 + i]);
        }
        lemma_one_more(state, events.take(earlier), events[earlier]);
        lemma_invocation_awaits_reply(state_after(state, events.take(earlier)), events[earlier]);
        lemma_one_at_a_time(state_after(state, head), middle);
        lemma_in_sequence(state, head, middle);
    }
}

/// Delivery-failure resilience: an invocation that ends without a reply is
/// reported and leaves the task listening, and the next window record is
/// forwarded as if nothing had failed.
pub proof fn lemma_delivery_failure_is_survived(next: WindowEvent)
    requires
        next.spec_is_window(),
    ensures
        transition(
            TaskState::Listening { awaiting_reply: true },
            TaskEvent::DeliveryFailed,
        ).state == (TaskState::Listening { awaiting_reply: false }),
        transition(
            TaskState::Listening { awaiting_reply: false },
            TaskEvent::Record(next),
        ).action == ActionView::Invoke(next.spec_argument()),
{
}

/// Event-order preservation: over a stream of records, a listening task
/// begins exactly one invocation for each window record, in the order of the
/// stream and with the text of that record, and none for any other record.
/// This holds whichever of the invocations get a reply, and the task is
/// listening again when the stream has been taken.
pub proof fn lemma_deliveries_in_order(records: Seq<WindowEvent>, delivered: Seq<bool>)
    requires
        delivered.len() == records.len(),
    ensures
        invocations(
            TaskState::Listening { awaiting_reply: false },
            schedule(records, delivered),
        ) == forwarded(records),
        state_after(TaskState::Listening { awaiting_reply: false }, schedule(records, delivered))
            == (TaskState::Listening { awaiting_reply: false }),
    decreases records.len(),
{
    let listening = TaskState::Listening { awaiting_reply: false };
    reveal(Seq::filter);
    if records.len() > 0 {
        let last = records.last();
        let earlier = schedule(records.drop_last(), delivered.drop_last());
        let arrival = TaskEvent::Record(last);
        lemma_deliveries_in_order(records.drop_last(), delivered.drop_last());
        lemma_one_more(listening, earlier, arrival);
        if last.spec_is_window() {
            let ending = if delivered.last() {
                TaskEvent::Delivered
            } else {
                TaskEvent::DeliveryFailed
            };
            lemma_one_more(listening, earlier.push(arrival), ending);
        }
    }
}

/// A task that registers, takes a whole stream and unregisters ends
/// terminated, and the invocations of its life are those of the window
/// records of the stream, in order.
pub proof fn lemma_whole_life(records: Seq<WindowEvent>, delivered: Seq<bool>)
    requires
        delivered.len() == records.len(),
    ensures
        state_after(TaskState::Registering, whole_life(records, delivered))
            == TaskState::Terminated,
        invocations(TaskState::Registering, whole_life(records, delivered)) == forwarded(records),
{
    let listening = TaskState::Listening { awaiting_reply: false };
    let opening = seq![TaskEvent::Registered];
    let stream = schedule(records, delivered);
    let closing = seq![TaskEvent::StreamClosed, TaskEvent::Unregistered];
    lemma_one_more(TaskState::Registering, Seq::empty(), TaskEvent::Registered);
    lemma_deliveries_in_order(records, delivered);
    lemma_in_sequence(TaskState::Registering, opening, stream);
    lemma_one_more(listening, Seq::empty(), TaskEvent::StreamClosed);
    lemma_one_more(listening, seq![TaskEvent::StreamClosed], TaskEvent::Unregistered);
    assert(Seq::<TaskEvent>::empty().push(TaskEvent::StreamClosed).push(TaskEvent::Unregistered)
        =~= closing);
    lemma_in_sequence(TaskState::Registering, opening + stream, closing);
}

} // verus!
