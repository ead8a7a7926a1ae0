use foreground_listener::filter::EventFilter;
use foreground_listener::listener::WindowForegroundListener;
use std::cell::Cell;
use tokio::runtime::Runtime;
use tokio::sync::oneshot;
use tokio::sync::oneshot::error::TryRecvError;
use tokio::task::JoinHandle;

/// Spawns a task that never ends by itself. The receiver resolves with an
/// error once the task is gone, and stays empty while the task is alive.
fn spawn_pending(runtime: &Runtime) -> (JoinHandle<()>, oneshot::Receiver<()>) {
    let (alive, gone) = oneshot::channel::<()>();
    let handle = runtime.spawn(async move {
        let _alive = alive;
        std::future::pending::<()>().await;
    });
    (handle, gone)
}

#[test]
fn new_listener_has_no_task() {
    let listener = WindowForegroundListener::new();
    assert!(!listener.is_running());
}

#[test]
fn stop_without_task_is_a_no_op() {
    let mut listener = WindowForegroundListener::new();
    listener.stop();
    assert!(!listener.is_running());
    listener.stop();
    assert!(!listener.is_running());
}

#[test]
fn start_keeps_the_spawned_task() {
    let runtime = Runtime::new().unwrap();
    let mut listener = WindowForegroundListener::new();
    let (handle, mut gone) = spawn_pending(&runtime);
    listener.start(0, move |_| handle);
    assert!(listener.is_running());
    assert_eq!(gone.try_recv(), Err(TryRecvError::Empty));
    listener.stop();
}

#[test]
fn start_hands_the_filter_of_the_process_to_the_spawner() {
    let runtime = Runtime::new().unwrap();
    let mut listener = WindowForegroundListener::new();
    let seen = Cell::new(None);
    listener.start(4321, |filter| {
        seen.set(Some(filter));
        runtime.spawn(async {})
    });
    assert_eq!(seen.get(), Some(EventFilter::foreground(4321)));
    assert_eq!(seen.get().unwrap().process(), Some(4321));

    listener.start(0, |filter| {
        seen.set(Some(filter));
        runtime.spawn(async {})
    });
    assert_eq!(seen.get(), Some(EventFilter::foreground(0)));
    assert_eq!(seen.get().unwrap().process(), None);
}

#[test]
fn stop_cancels_the_task() {
    let runtime = Runtime::new().unwrap();
    let mut listener = WindowForegroundListener::new();
    let (handle, gone) = spawn_pending(&runtime);
    listener.start(0, move |_| handle);
    listener.stop();
    assert!(!listener.is_running());
    assert!(gone.blocking_recv().is_err());
}

#[test]
fn stop_twice_is_the_same_as_once() {
    let runtime = Runtime::new().unwrap();
    let mut listener = WindowForegroundListener::new();
    let (handle, gone) = spawn_pending(&runtime);
    listener.start(0, move |_| handle);
    listener.stop();
    listener.stop();
    assert!(!listener.is_running());
    assert!(gone.blocking_recv().is_err());
}

#[test]
fn start_replaces_the_running_task() {
    let runtime = Runtime::new().unwrap();
    let mut listener = WindowForegroundListener::new();
    let (first, first_gone) = spawn_pending(&runtime);
    let (second, mut second_gone) = spawn_pending(&runtime);
    listener.start(0, move |_| first);
    listener.start(0, move |_| second);
    assert!(listener.is_running());
    assert!(first_gone.blocking_recv().is_err());
    assert_eq!(second_gone.try_recv(), Err(TryRecvError::Empty));
    listener.stop();
    assert!(second_gone.blocking_recv().is_err());
}

#[test]
fn old_task_is_cancelled_before_the_new_one_is_spawned() {
    let runtime = Runtime::new().unwrap();
    let mut listener = WindowForegroundListener::new();
    let (first, first_gone) = spawn_pending(&runtime);
    listener.start(0, move |_| first);
    listener.start(0, |_| {
        assert!(first_gone.blocking_recv().is_err());
        runtime.spawn(async {})
    });
    assert!(listener.is_running());
}

#[test]
fn every_start_leaves_exactly_the_last_task() {
    let runtime = Runtime::new().unwrap();
    let mut listener = WindowForegroundListener::new();
    let mut watchers = Vec::new();
    for pid in 0..5 {
        let (handle, gone) = spawn_pending(&runtime);
        listener.start(pid, move |_| handle);
        assert!(listener.is_running());
        watchers.push(gone);
    }
    let mut last = watchers.pop().unwrap();
    for gone in watchers {
        assert!(gone.blocking_recv().is_err());
    }
    assert_eq!(last.try_recv(), Err(TryRecvError::Empty));
    listener.stop();
    assert!(last.blocking_recv().is_err());
}

#[test]
fn start_after_stop_keeps_a_task_again() {
    let runtime = Runtime::new().unwrap();
    let mut listener = WindowForegroundListener::new();
    let (first, first_gone) = spawn_pending(&runtime);
    listener.start(0, move |_| first);
    listener.stop();
    assert!(first_gone.blocking_recv().is_err());
    let (second, mut second_gone) = spawn_pending(&runtime);
    listener.start(7, move |_| second);
    assert!(listener.is_running());
    assert_eq!(second_gone.try_recv(), Err(TryRecvError::Empty));
    listener.stop();
}

#[test]
fn stopping_a_finished_task_is_safe() {
    let runtime = Runtime::new().unwrap();
    let mut listener = WindowForegroundListener::new();
    let (done, finished) = oneshot::channel::<()>();
    listener.start(0, |_| {
        runtime.spawn(async move {
            let _ = done.send(());
        })
    });
    assert!(finished.blocking_recv().is_ok());
    listener.stop();
    assert!(!listener.is_running());
}
