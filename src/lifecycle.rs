//! The lifecycle of one launched process and the polling of its readiness.

use vstd::prelude::*;

verus! {

/// Where a validator or indexer process stands.
#[derive(Clone, Copy, Debug, PartialEq, Eq, Structural)]
pub enum ProcessState {
    Unstarted,
    Launching,
    Ready,
    Stopped,
    Failed,
}

/// What happens to a process.
#[derive(Clone, Copy, Debug, PartialEq, Eq, Structural)]
pub enum ProcessEvent {
    /// The process is being spawned.
    Launch,
    /// Its readiness probe succeeded.
    ReadyObserved,
    /// Spawning failed or readiness timed out.
    LaunchFailed,
    /// It was terminated.
    Terminate,
}

/// `Stopped` and `Failed` admit no further transition.
pub open spec fn is_terminal(s: ProcessState) -> bool {
    s == ProcessState::Stopped || s == ProcessState::Failed
}

/// The transition table: `None` where the event is not valid in the state.
pub open spec fn transition(s: ProcessState, e: ProcessEvent) -> Option<ProcessState> {
    match (s, e) {
        (ProcessState::Unstarted, ProcessEvent::Launch) => Some(ProcessState::Launching),
        (ProcessState::Launching, ProcessEvent::ReadyObserved) => Some(ProcessState::Ready),
        (ProcessState::Launching, ProcessEvent::LaunchFailed) => Some(ProcessState::Failed),
        (_, ProcessEvent::Terminate) => if is_terminal(s) {
            None
        } else {
            Some(ProcessState::Stopped)
        },
        _ => None,
    }
}

impl ProcessState {
    /// Tells whether the state admits no further transition.
    pub fn is_terminal(&self) -> (r: bool)
        ensures
            r == is_terminal(*self),
    {
        match self {
            ProcessState::Stopped | ProcessState::Failed => true,
            _ => false,
        }
    }

    /// The state after `event`, or `None` where the event is not valid here.
    pub fn step(&self, event: ProcessEvent) -> (r: Option<ProcessState>)
        ensures
            r == transition(*self, event),
    {
        match (self, event) {
            (ProcessState::Unstarted, ProcessEvent::Launch) => Some(ProcessState::Launching),
            (ProcessState::Launching, ProcessEvent::ReadyObserved) => Some(ProcessState::Ready),
            (ProcessState::Launching, ProcessEvent::LaunchFailed) => Some(ProcessState::Failed),
            (_, ProcessEvent::Terminate) => {
                if self.is_terminal() {
                    None
                } else {
                    Some(ProcessState::Stopped)
                }
            },
            _ => None,
        }
    }
}

/// Termination is valid from every state that is not terminal, and leads to
/// `Stopped`; a terminal state admits no event at all.
pub proof fn terminate_from_any_live_state(s: ProcessState, e: ProcessEvent)
    ensures
        !is_terminal(s) ==> transition(s, ProcessEvent::Terminate) == Some(ProcessState::Stopped),
        is_terminal(s) ==> transition(s, e) is None,
{
}

/// What the readiness poller does after one probe.
#[derive(Clone, Copy, Debug, PartialEq, Eq, Structural)]
pub enum PollDecision {
    /// The probe succeeded: the process is ready.
    Ready,
    /// Probe again after this many milliseconds.
    RetryAfter(u64),
    /// The timeout has elapsed without a successful probe.
    TimedOut,
}

/// The poller's decision after a probe at `elapsed_ms` milliseconds into a
/// wait bounded by `timeout_ms`: the next probe waits one interval, cut short
/// so as not to pass the timeout.
pub open spec fn poll_decision(probe_ok: bool, elapsed_ms: u64, timeout_ms: u64, interval_ms: u64) -> PollDecision {
    if probe_ok {
        PollDecision::Ready
    } else if elapsed_ms >= timeout_ms {
        PollDecision::TimedOut
    } else if interval_ms <= timeout_ms - elapsed_ms {
        PollDecision::RetryAfter(interval_ms)
    } else {
        PollDecision::RetryAfter((timeout_ms - elapsed_ms) as u64)
    }
}

/// Decides what follows one readiness probe.
pub fn next_poll(probe_ok: bool, elapsed_ms: u64, timeout_ms: u64, interval_ms: u64) -> (r: PollDecision)
    ensures
        r == poll_decision(probe_ok, elapsed_ms, timeout_ms, interval_ms),
{
    if probe_ok {
        PollDecision::Ready
    } else if elapsed_ms >= timeout_ms {
        PollDecision::TimedOut
    } else if interval_ms <= timeout_ms - elapsed_ms {
        PollDecision::RetryAfter(interval_ms)
    } else {
        PollDecision::RetryAfter(timeout_ms - elapsed_ms)
    }
}


/// What a terminating caller does next while a process is asked to stop.
#[derive(Clone, Copy, Debug, PartialEq, Eq, Structural)]
pub enum StopDecision {
    /// The process has exited.
    Done,
    /// Check again after this many milliseconds.
    WaitFor(u64),
    /// The grace period is over: kill the process.
    ForceKill,
}

/// The stop decision at `elapsed_ms` milliseconds after a graceful stop was
/// requested: wait out the grace period in steps of at most `poll_ms`, then
/// escalate to a forced kill.
pub open spec fn stop_decision(exited: bool, elapsed_ms: u64, grace_ms: u64, poll_ms: u64) -> StopDecision {
    if exited {
        StopDecision::Done
    } else if elapsed_ms >= grace_ms {
        StopDecision::ForceKill
    } else if poll_ms <= grace_ms - elapsed_ms {
        StopDecision::WaitFor(poll_ms)
    } else {
        StopDecision::WaitFor((grace_ms - elapsed_ms) as u64)
    }
}

/// Decides the next step of a termination.
pub fn next_stop(exited: bool, elapsed_ms: u64, grace_ms: u64, poll_ms: u64) -> (r: StopDecision)
    ensures
        r == stop_decision(exited, elapsed_ms, grace_ms, poll_ms),
{
    if exited {
        StopDecision::Done
    } else if elapsed_ms >= grace_ms {
        StopDecision::ForceKill
    } else if poll_ms <= grace_ms - elapsed_ms {
        StopDecision::WaitFor(poll_ms)
    } else {
        StopDecision::WaitFor(grace_ms - elapsed_ms)
    }
}

} // verus!
