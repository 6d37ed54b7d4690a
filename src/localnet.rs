//! The pairing of one validator with one indexer: launch in dependency order,
//! teardown in reverse.

use vstd::prelude::*;

use crate::lifecycle::{is_terminal, transition, ProcessEvent, ProcessState};

verus! {

/// The two roles of a local network.
#[derive(Clone, Copy, Debug, PartialEq, Eq, Structural)]
pub enum Role {
    Validator,
    Indexer,
}

/// The abstract state of a local network.
pub struct NetView {
    pub validator: ProcessState,
    pub indexer: ProcessState,
    /// Whether the validator has ever been observed ready.
    pub validator_was_ready: bool,
}

/// A process that has been spawned and not yet stopped or failed.
pub open spec fn is_live(s: ProcessState) -> bool {
    s == ProcessState::Launching || s == ProcessState::Ready
}

/// Whether the indexer has been spawned at some point: it is launching, ready,
/// or failed. (`Stopped` is also reached by terminating an unstarted indexer.)
pub open spec fn indexer_spawned(s: ProcessState) -> bool {
    is_live(s) || s == ProcessState::Failed
}

/// The ordering invariant: the indexer is spawned only after the validator was
/// ready, and the validator stays ready for as long as the indexer lives.
pub open spec fn ordered(v: NetView) -> bool {
    &&& v.validator == ProcessState::Ready ==> v.validator_was_ready
    &&& indexer_spawned(v.indexer) ==> v.validator_was_ready
    &&& is_live(v.indexer) ==> v.validator == ProcessState::Ready
}

/// The state of a network before anything is launched.
pub open spec fn initial_net() -> NetView {
    NetView {
        validator: ProcessState::Unstarted,
        indexer: ProcessState::Unstarted,
        validator_was_ready: false,
    }
}

/// The network after `event` happens to the process of `role`, or `None` where
/// the orchestrator refuses it: the indexer is launched only once the
/// validator is ready, and the validator is terminated only once the indexer
/// no longer lives.
pub open spec fn apply_event(v: NetView, role: Role, event: ProcessEvent) -> Option<NetView> {
    match role {
        Role::Validator => {
            if event == ProcessEvent::Terminate && is_live(v.indexer) {
                None
            } else {
                match transition(v.validator, event) {
                    Some(n) => Some(
                        NetView {
                            validator: n,
                            validator_was_ready: v.validator_was_ready || n == ProcessState::Ready,
                            ..v
                        },
                    ),
                    None => None,
                }
            }
        },
        Role::Indexer => {
            if event == ProcessEvent::Launch && v.validator != ProcessState::Ready {
                None
            } else {
                match transition(v.indexer, event) {
                    Some(n) => Some(NetView { indexer: n, ..v }),
                    None => None,
                }
            }
        },
    }
}

/// The network after a run of events, each refused one leaving it unchanged.
pub open spec fn run(v: NetView, steps: Seq<(Role, ProcessEvent)>) -> NetView
    decreases steps.len(),
{
    if steps.len() == 0 {
        v
    } else {
        let next = match apply_event(v, steps[0].0, steps[0].1) {
            Some(n) => n,
            None => v,
        };
        run(next, steps.drop_first())
    }
}

/// Every accepted event keeps the ordering invariant.
pub proof fn apply_keeps_order(v: NetView, role: Role, event: ProcessEvent)
    requires
        ordered(v),
    ensures
        apply_event(v, role, event) matches Some(n) ==> ordered(n),
{
}

/// The orchestrator accepts the indexer's launch only from a ready validator.
pub proof fn indexer_launch_needs_ready_validator(v: NetView)
    requires
        ordered(v),
    ensures
        apply_event(v, Role::Indexer, ProcessEvent::Launch) is Some ==> v.validator
            == ProcessState::Ready && v.validator_was_ready,
{
}

/// In every run from a fresh network, the indexer is spawned only after the
/// validator was observed ready, and while the indexer is launching or ready
/// the validator is ready.
pub proof fn launch_order_holds(steps: Seq<(Role, ProcessEvent)>)
    ensures
        ordered(run(initial_net(), steps)),
{
    run_keeps_order(initial_net(), steps);
}

proof fn run_keeps_order(v: NetView, steps: Seq<(Role, ProcessEvent)>)
    requires
        ordered(v),
    ensures
        ordered(run(v, steps)),
    decreases steps.len(),
{
    if steps.len() > 0 {
        apply_keeps_order(v, steps[0].0, steps[0].1);
        let next = match apply_event(v, steps[0].0, steps[0].1) {
            Some(n) => n,
            None => v,
        };
        run_keeps_order(next, steps.drop_first());
    }
}

/// The next step of a launch.
#[derive(Clone, Copy, Debug, PartialEq, Eq, Structural)]
pub enum LaunchAction {
    LaunchValidator,
    AwaitValidator,
    LaunchIndexer,
    AwaitIndexer,
    /// Both processes are ready.
    Running,
    /// A launch failed or a process stopped: tear the network down.
    Abort,
}

/// The next launch step in a given network state.
pub open spec fn launch_action(v: NetView) -> LaunchAction {
    if v.validator == ProcessState::Unstarted {
        LaunchAction::LaunchValidator
    } else if v.validator == ProcessState::Launching {
        LaunchAction::AwaitValidator
    } else if v.validator == ProcessState::Ready && v.indexer == ProcessState::Unstarted {
        LaunchAction::LaunchIndexer
    } else if v.validator == ProcessState::Ready && v.indexer == ProcessState::Launching {
        LaunchAction::AwaitIndexer
    } else if v.validator == ProcessState::Ready && v.indexer == ProcessState::Ready {
        LaunchAction::Running
    } else {
        LaunchAction::Abort
    }
}

/// The next teardown step.
#[derive(Clone, Copy, Debug, PartialEq, Eq, Structural)]
pub enum TeardownAction {
    StopIndexer,
    StopValidator,
    Done,
}

/// The next teardown step: the indexer is stopped first, then the validator.
pub open spec fn teardown_action(v: NetView) -> TeardownAction {
    if !is_terminal(v.indexer) {
        TeardownAction::StopIndexer
    } else if !is_terminal(v.validator) {
        TeardownAction::StopValidator
    } else {
        TeardownAction::Done
    }
}

/// The network after one teardown step has been carried out.
pub open spec fn teardown_step(v: NetView) -> NetView {
    match teardown_action(v) {
        TeardownAction::StopIndexer => NetView { indexer: ProcessState::Stopped, ..v },
        TeardownAction::StopValidator => NetView { validator: ProcessState::Stopped, ..v },
        TeardownAction::Done => v,
    }
}

/// Each teardown step is an event that the orchestrator accepts, and two
/// steps leave neither process live: the indexer stops before the validator.
pub proof fn teardown_completes(v: NetView)
    requires
        ordered(v),
    ensures
        teardown_action(v) == TeardownAction::StopIndexer ==> apply_event(v, Role::Indexer, ProcessEvent::Terminate) == Some(teardown_step(v)),
        teardown_action(v) == TeardownAction::StopValidator ==> apply_event(v, Role::Validator, ProcessEvent::Terminate) == Some(teardown_step(v)),
        teardown_action(teardown_step(v)) == TeardownAction::StopValidator ==> apply_event(teardown_step(v), Role::Validator, ProcessEvent::Terminate) == Some(teardown_step(teardown_step(v))),
        is_terminal(teardown_step(teardown_step(v)).indexer),
        is_terminal(teardown_step(teardown_step(v)).validator),
{
}

/// The lifecycle states of a validator and the indexer paired with it.
pub struct LocalNetState {
    validator: ProcessState,
    indexer: ProcessState,
    validator_was_ready: bool,
}

impl View for LocalNetState {
    type V = NetView;

    closed spec fn view(&self) -> NetView {
        NetView {
            validator: self.validator,
            indexer: self.indexer,
            validator_was_ready: self.validator_was_ready,
        }
    }
}

impl LocalNetState {
    /// A network with neither process started.
    pub fn new() -> (r: LocalNetState)
        ensures
            r@ == initial_net(),
            ordered(r@),
    {
        LocalNetState {
            validator: ProcessState::Unstarted,
            indexer: ProcessState::Unstarted,
            validator_was_ready: false,
        }
    }

    /// The validator's state.
    pub fn validator(&self) -> (r: ProcessState)
        ensures
            r == self@.validator,
    {
        self.validator
    }

    /// The indexer's state.
    pub fn indexer(&self) -> (r: ProcessState)
        ensures
            r == self@.indexer,
    {
        self.indexer
    }

    /// Records `event` for the process of `role`; returns whether the
    /// orchestrator accepted it. A refused event changes nothing.
    pub fn apply(&mut self, role: Role, event: ProcessEvent) -> (r: bool)
        ensures
            r == apply_event(old(self)@, role, event) is Some,
            match apply_event(old(self)@, role, event) {
                Some(n) => final(self)@ == n,
                None => final(self)@ == old(self)@,
            },
    {
        match role {
            Role::Validator => {
                let indexer_live = self.indexer == ProcessState::Launching
                    || self.indexer == ProcessState::Ready;
                if event == ProcessEvent::Terminate && indexer_live {
                    return false;
                }
                match self.validator.step(event) {
                    Some(n) => {
                        self.validator = n;
                        self.validator_was_ready = self.validator_was_ready || n
                            == ProcessState::Ready;
                        true
                    },
                    None => false,
                }
            },
            Role::Indexer => {
                if event == ProcessEvent::Launch && self.validator != ProcessState::Ready {
                    return false;
                }
                match self.indexer.step(event) {
                    Some(n) => {
                        self.indexer = n;
                        true
                    },
                    None => false,
                }
            },
        }
    }

    /// The next step of the launch sequence.
    pub fn next_launch_action(&self) -> (r: LaunchAction)
        ensures
            r == launch_action(self@),
    {
        if self.validator == ProcessState::Unstarted {
            LaunchAction::LaunchValidator
        } else if self.validator == ProcessState::Launching {
            LaunchAction::AwaitValidator
        } else if self.validator == ProcessState::Ready && self.indexer == ProcessState::Unstarted {
            LaunchAction::LaunchIndexer
        } else if self.validator == ProcessState::Ready && self.indexer == ProcessState::Launching {
            LaunchAction::AwaitIndexer
        } else if self.validator == ProcessState::Ready && self.indexer == ProcessState::Ready {
            LaunchAction::Running
        } else {
            LaunchAction::Abort
        }
    }

    /// The next step of the teardown sequence.
    pub fn next_teardown_action(&self) -> (r: TeardownAction)
        ensures
            r == teardown_action(self@),
    {
        if !self.indexer.is_terminal() {
            TeardownAction::StopIndexer
        } else if !self.validator.is_terminal() {
            TeardownAction::StopValidator
        } else {
            TeardownAction::Done
        }
    }
}

} // verus!
