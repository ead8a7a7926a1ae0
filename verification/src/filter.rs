//! The filter a subscription is registered with.

use vstd::prelude::*;

verus! {

/// The event code that announces a change of the foreground window.
pub const SYSTEM_FOREGROUND: i32 = 0x0003;

/// Which native events a subscription receives: one event code, raised by one
/// process or by any.
#[derive(Clone, Copy, Debug, PartialEq, Eq, Structural)]
pub struct EventFilter {
    event: i32,
    process: Option<u32>,
}

impl EventFilter {
    /// A process scope is never the id zero: zero asks for every process and
    /// is held as `None`.
    #[verifier::type_invariant]
    pub closed spec fn well_formed(&self) -> bool {
        self.process != Some(0u32)
    }

    /// The event code the filter lets through.
    pub closed spec fn spec_event(&self) -> i32 {
        self.event
    }

    /// The process the filter is restricted to, or `None` for any process.
    pub closed spec fn spec_process(&self) -> Option<u32> {
        self.process
    }

    /// Whether an event with code `event`, raised by the process `process`,
    /// passes the filter.
    pub open spec fn spec_admits(&self, event: i32, process: u32) -> bool {
        &&& event == self.event()
        &&& match self.process() {
            Some(only) => process == only,
            None => true,
        }
    }

    /// Whether this is the filter for foreground changes of the process
    /// `pid`, where zero stands for every process.
    pub open spec fn is_foreground(&self, pid: u32) -> bool {
        &&& self.event() == SYSTEM_FOREGROUND
        &&& self.process() == if pid == 0 {
            None
        } else {
            Some(pid)
        }
    }

    /// The filter for foreground changes of the process `pid`, where zero
    /// stands for every process.
    pub closed spec fn spec_foreground(pid: u32) -> EventFilter {
        EventFilter {
            event: SYSTEM_FOREGROUND,
            process: if pid == 0 {
                None
            } else {
                Some(pid)
            },
        }
    }

    /// Builds the filter for foreground changes. A `pid` of zero leaves the
    /// process unrestricted.
    #[verifier::when_used_as_spec(spec_foreground)]
    pub fn foreground(pid: u32) -> (filter: EventFilter)
        ensures
            filter == Self::spec_foreground(pid),
            filter.is_foreground(pid),
    {
        let process: Option<u32> = if pid == 0 {
            None
        } else {
            Some(pid)
        };
        EventFilter { event: SYSTEM_FOREGROUND, process }
    }

    /// The event code to register for.
    #[verifier::when_used_as_spec(spec_event)]
    pub fn event(&self) -> (code: i32)
        ensures
            code == self.spec_event(),
    {
        self.event
    }

    /// The process to register for; `None` asks for every process. The scope
    /// is never the id zero.
    #[verifier::when_used_as_spec(spec_process)]
    pub fn process(&self) -> (scope: Option<u32>)
        ensures
            scope == self.spec_process(),
            scope != Some(0u32),
    {
        proof {
            use_type_invariant(self);
        }
        self.process
    }

    /// Decides whether an event with code `event`, raised by the process
    /// `process`, passes the filter.
    #[verifier::when_used_as_spec(spec_admits)]
    pub fn admits(&self, event: i32, process: u32) -> (yes: bool)
        ensures
            yes == self.spec_admits(event, process),
    {
        if event != self.event {
            return false;
        }
        match self.process {
            Some(only) => process == only,
            None => true,
        }
    }
}

/// Process-scope filtering: a filter for the foreground changes of a process
/// lets an event through exactly when it is a foreground change that this
/// process raised; the filter for process zero lets every foreground change
/// through.
pub proof fn lemma_process_scope(filter: EventFilter, pid: u32, event: i32, process: u32)
    requires
        filter.is_foreground(pid),
    ensures
        filter.admits(event, process) <==> (event == SYSTEM_FOREGROUND && (pid == 0 || process
            == pid)),
{
}

/// The filter for the foreground changes of a process is the only one: it
/// carries the foreground event code and that process scope, and every
/// filter that does is equal to it.
pub proof fn lemma_foreground_unique(filter: EventFilter, pid: u32)
    ensures
        EventFilter::foreground(pid).is_foreground(pid),
        EventFilter::foreground(pid).well_formed(),
        filter.is_foreground(pid) ==> filter == EventFilter::foreground(pid),
{
}

} // verus!
