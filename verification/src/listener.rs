//! The listener: at most one subscription task at a time.
//!
//! A listener owns the handle of the task it has started last, if that task
//! was not stopped since. Starting replaces the task: the old one is
//! cancelled first, then the new one is spawned and kept. Stopping cancels
//! the task and keeps none. Cancelling only asks: the listener does not wait
//! for the task to be gone.

use crate::filter::EventFilter;
use vstd::prelude::*;

verus! {

/// The handle of a task spawned on a `tokio` runtime. The listener keeps it
/// and hands it to `abort`; it reads nothing from it.
#[verifier::external_type_specification]
#[verifier::external_body]
#[verifier::reject_recursive_types(T)]
pub struct ExJoinHandle<T>(tokio::task::JoinHandle<T>);

/// The error with which a `tokio` task handle resolves when its task was
/// cancelled or has panicked. It is declared because the handle's type
/// mentions it; the listener never obtains one.
#[verifier::external_type_specification]
#[verifier::external_body]
pub struct ExJoinError(tokio::task::JoinError);

/// Calls `JoinHandle::abort` of `tokio`, which asks the runtime to cancel the
/// task behind the handle and returns without waiting for it. The call
/// reports nothing back, so nothing is claimed of it.
#[verifier::external_body]
fn abort(handle: &tokio::task::JoinHandle<()>) {
    handle.abort();
}

/// What a listener asks of the runtime.
pub enum Request {
    /// The task was handed to `abort`.
    Cancel(tokio::task::JoinHandle<()>),
    /// The task was spawned for the listener.
    Spawn(tokio::task::JoinHandle<()>),
}

/// A listener as contracts speak of it: the task it keeps, and what it has
/// asked of the runtime so far. A task counts as cancelled once its handle
/// was passed to `abort`; when the runtime lets go of it is not the
/// listener's to know.
pub struct ListenerView {
    /// The task the listener keeps, if it keeps one.
    pub task: Option<tokio::task::JoinHandle<()>>,
    /// The requests the listener has made, oldest first.
    pub requests: Seq<Request>,
}

/// A call on a listener, as a value.
pub enum ListenerCall {
    /// A start, with the task that it spawned.
    Start(tokio::task::JoinHandle<()>),
    /// A stop.
    Stop,
}

/// The tasks that `requests` cancel, in order.
pub open spec fn cancellations(requests: Seq<Request>) -> Seq<tokio::task::JoinHandle<()>>
    decreases requests.len(),
{
    if requests.len() == 0 {
        Seq::empty()
    } else {
        match requests.last() {
            Request::Cancel(handle) => cancellations(requests.drop_last()).push(handle),
            Request::Spawn(_) => cancellations(requests.drop_last()),
        }
    }
}

/// The tasks that the starts among `calls` spawn, in order.
pub open spec fn spawned(calls: Seq<ListenerCall>) -> Seq<tokio::task::JoinHandle<()>>
    decreases calls.len(),
{
    if calls.len() == 0 {
        Seq::empty()
    } else {
        match calls.last() {
            ListenerCall::Start(handle) => spawned(calls.drop_last()).push(handle),
            ListenerCall::Stop => spawned(calls.drop_last()),
        }
    }
}

impl ListenerView {
    /// A listener that has never kept a task.
    pub open spec fn fresh() -> ListenerView {
        ListenerView { task: None, requests: Seq::empty() }
    }

    /// The tasks the listener keeps: one or none.
    pub open spec fn kept(self) -> Seq<tokio::task::JoinHandle<()>> {
        match self.task {
            Some(handle) => seq![handle],
            None => Seq::empty(),
        }
    }

    /// The tasks the listener has cancelled, oldest first.
    pub open spec fn cancelled(self) -> Seq<tokio::task::JoinHandle<()>> {
        cancellations(self.requests)
    }

    /// The listener after `stop`: the task it kept, if any, is cancelled, and
    /// it keeps none. Without a task nothing is asked of the runtime.
    pub open spec fn stopped(self) -> ListenerView {
        ListenerView {
            task: None,
            requests: match self.task {
                Some(handle) => self.requests.push(Request::Cancel(handle)),
                None => self.requests,
            },
        }
    }

    /// The listener after a `start` that spawned the task `handle`: the task
    /// it kept before is cancelled first, then `handle` is spawned, and the
    /// listener keeps `handle`.
    pub open spec fn started(self, handle: tokio::task::JoinHandle<()>) -> ListenerView {
        ListenerView {
            task: Some(handle),
            requests: self.stopped().requests.push(Request::Spawn(handle)),
        }
    }

    /// The listener after `call`.
    pub open spec fn after(self, call: ListenerCall) -> ListenerView {
        match call {
            ListenerCall::Start(handle) => self.started(handle),
            ListenerCall::Stop => self.stopped(),
        }
    }

    /// The listener after each of `calls`, in order.
    pub open spec fn after_each(self, calls: Seq<ListenerCall>) -> ListenerView
        decreases calls.len(),
    {
        if calls.len() == 0 {
            self
        } else {
            self.after_each(calls.drop_last()).after(calls.last())
        }
    }

    /// The listener after one `start` for each of `handles`, in order.
    pub open spec fn started_each(self, handles: Seq<tokio::task::JoinHandle<()>>) -> ListenerView
        decreases handles.len(),
    {
        if handles.len() == 0 {
            self
        } else {
            self.started_each(handles.drop_last()).started(handles.last())
        }
    }
}

/// Keeps at most one subscription task alive.
///
/// Beside the handle of that task the listener carries a record of what it
/// has asked of the runtime: each call of `abort` and each task spawned for
/// it, in the order in which they happened. The record exists for contracts
/// and proofs only and takes no space in the compiled program.
pub struct WindowForegroundListener {
    join_handle: Option<tokio::task::JoinHandle<()>>,
    requests: Ghost<Seq<Request>>,
}

impl View for WindowForegroundListener {
    type V = ListenerView;

    closed spec fn view(&self) -> ListenerView {
        ListenerView { task: self.join_handle, requests: self.requests@ }
    }
}

impl WindowForegroundListener {
    /// A listener without a task.
    pub fn new() -> (listener: WindowForegroundListener)
        ensures
            listener@ == ListenerView::fresh(),
    {
        WindowForegroundListener { join_handle: None, requests: Ghost(Seq::empty()) }
    }

    /// Whether the listener keeps a task.
    pub fn is_running(&self) -> (running: bool)
        ensures
            running == self@.task is Some,
    {
        self.join_handle.is_some()
    }

    /// Cancels the task the listener keeps, if any, and keeps none. Without
    /// a task this changes nothing.
    pub fn stop(&mut self)
        ensures
            final(self)@ == old(self)@.stopped(),
            old(self)@.task is None ==> final(self)@ == old(self)@,
    {
        match self.join_handle.take() {
            Some(handle) => {
                abort(&handle);
                proof {
                    self.requests@ = self.requests@.push(Request::Cancel(handle));
                }
            },
            None => {},
        }
    }

    /// Replaces the task: cancels the one the listener keeps, if any, then
    /// has `spawn` start a task for the foreground changes of the process
    /// `pid` (zero for every process) and keeps the handle it returns.
    ///
    /// `spawn` receives the freshly built filter of the new task and is
    /// called exactly once, after the old task has been cancelled.
    pub fn start<F>(&mut self, pid: u32, spawn: F) where
        F: FnOnce(EventFilter) -> tokio::task::JoinHandle<()>,

        requires
            forall|filter: EventFilter|
                filter.is_foreground(pid) ==> call_requires(spawn, (filter,)),
        ensures
            final(self)@.task matches Some(handle) && call_ensures(
                spawn,
                (EventFilter::foreground(pid),),
                handle,
            ) && final(self)@ == old(self)@.started(handle),
    {
        self.stop();
        let handle = spawn(EventFilter::foreground(pid));
        proof {
            self.requests@ = self.requests@.push(Request::Spawn(handle));
        }
        self.join_handle = Some(handle);
    }
}

/// Exclusivity: after any number of starts, one after the other, the
/// listener keeps exactly the task of the last start, and every task it kept
/// before, the one from before the first start included, is cancelled, in
/// the order in which they were started.
pub proof fn lemma_start_is_exclusive(
    before: ListenerView,
    handles: Seq<tokio::task::JoinHandle<()>>,
)
    requires
        handles.len() > 0,
    ensures
        before.started_each(handles).task == Some(handles.last()),
        before.started_each(handles).cancelled() == before.cancelled() + before.kept()
            + handles.drop_last(),
    decreases handles.len(),
{
    let earlier = handles.drop_last();
    lemma_start_cancels_then_spawns(before.started_each(earlier), handles.last());
    if earlier.len() > 0 {
        lemma_start_is_exclusive(before, earlier);
    }
}

/// Idempotent stop: stopping a listener that keeps no task leaves it as it
/// is, so a second stop after a first changes nothing.
pub proof fn lemma_stop_is_idempotent(listener: ListenerView)
    ensures
        listener.task is None ==> listener.stopped() == listener,
        listener.stopped().stopped() == listener.stopped(),
{
}

/// A stop cancels what the listener kept and nothing else.
pub proof fn lemma_stop_cancels_the_kept(listener: ListenerView)
    ensures
        listener.stopped().cancelled() == listener.cancelled() + listener.kept(),
        listener.stopped().kept() == Seq::<tokio::task::JoinHandle<()>>::empty(),
{
    match listener.task {
        Some(handle) => {
            lemma_request_adds(listener.requests, Request::Cancel(handle));
        },
        None => {},
    }
}

/// A start cancels what the listener kept, once, and its requests are those
/// of a stop followed by the spawning of the new task: the old task is
/// cancelled before the new one is spawned.
pub proof fn lemma_start_cancels_then_spawns(
    listener: ListenerView,
    handle: tokio::task::JoinHandle<()>,
)
    ensures
        listener.started(handle).requests == listener.stopped().requests.push(
            Request::Spawn(handle),
        ),
        listener.started(handle).cancelled() == listener.cancelled() + listener.kept(),
        listener.started(handle).kept() == seq![handle],
{
    lemma_request_adds(listener.stopped().requests, Request::Spawn(handle));
    lemma_stop_cancels_the_kept(listener);
}

/// Whatever starts and stops a listener goes through, in whatever order, no
/// task is lost: every task it kept at the beginning or spawned since is
/// either the one it keeps or cancelled, once, in the order of the starts.
/// What it keeps in the end is the task of the last call, if that was a
/// start, and none if that was a stop.
pub proof fn lemma_no_task_is_lost(before: ListenerView, calls: Seq<ListenerCall>)
    ensures
        before.after_each(calls).cancelled() + before.after_each(calls).kept()
            == before.cancelled() + before.kept() + spawned(calls),
        calls.len() > 0 ==> before.after_each(calls).task == (match calls.last() {
            ListenerCall::Start(handle) => Some(handle),
            ListenerCall::Stop => None,
        }),
    decreases calls.len(),
{
    if calls.len() > 0 {
        let then = before.after_each(calls.drop_last());
        lemma_no_task_is_lost(before, calls.drop_last());
        match calls.last() {
            ListenerCall::Start(handle) => {
                lemma_start_cancels_then_spawns(then, handle);
            },
            ListenerCall::Stop => {
                lemma_stop_cancels_the_kept(then);
            },
        }
    }
}

/// One more request adds its task to the cancellations if it is a
/// cancellation, and leaves them as they are if it is not.
proof fn lemma_request_adds(requests: Seq<Request>, request: Request)
    ensures
        cancellations(requests.push(request)) == (match request {
            Request::Cancel(handle) => cancellations(requests).push(handle),
            Request::Spawn(_) => cancellations(requests),
        }),
{
    assert(requests.push(request).drop_last() =~= requests);
}

} // verus!
