//! Event bridge for foreground-window notifications.
//!
//! A listener relays changes of the operating system's foreground window to
//! a host callback, one window identifier at a time. This crate holds what
//! such a listener decides, and proves it:
//!
//! - [`filter`]: the filter a subscription is registered with;
//! - [`event`] and [`identifier`]: the records of the event stream, which of
//!   them are forwarded, and as what text;
//! - [`task`] and [`trace`]: the subscription task, step by step and over
//!   whole streams of events;
//! - [`bridge`]: how a callback invocation ends;
//! - [`listener`]: the listener itself, which keeps at most one task alive.
//!
//! The crate waits for nothing. A driver around it registers the
//! subscription, awaits records and replies, and reports each of them to the
//! task; the task answers with what to do next.

pub mod bridge;
pub mod event;
pub mod filter;
pub mod identifier;
pub mod listener;
pub mod task;
pub mod trace;
