use zcash_local_net::lifecycle::{next_poll, next_stop, PollDecision, ProcessEvent, ProcessState, StopDecision};
use zcash_local_net::localnet::{LaunchAction, LocalNetState, Role, TeardownAction};
use zcash_local_net::ports::PortAllocator;

#[test]
fn allocated_ports_are_pairwise_distinct() {
    let mut allocator = PortAllocator::new();
    let ports = allocator.allocate_many(8).unwrap();
    assert_eq!(ports.len(), 8);
    for i in 0..ports.len() {
        assert_ne!(ports[i], 0);
        for j in (i + 1)..ports.len() {
            assert_ne!(ports[i], ports[j]);
        }
    }
    assert_eq!(allocator.assigned(), ports);
}

#[test]
fn allocate_adds_one_fresh_port() {
    let mut allocator = PortAllocator::new();
    let first = allocator.allocate().unwrap();
    let second = allocator.allocate().unwrap();
    assert_ne!(first, second);
    assert_eq!(allocator.assigned(), vec![first, second]);
    assert!(allocator.is_assigned(first));
}

#[test]
fn candidate_already_assigned_is_turned_away() {
    let mut allocator = PortAllocator::new();
    assert_eq!(allocator.accept_candidate(Some(18232)), Some(18232));
    assert_eq!(allocator.accept_candidate(Some(18232)), None);
    assert_eq!(allocator.accept_candidate(None), None);
    assert_eq!(allocator.accept_candidate(Some(18233)), Some(18233));
    assert_eq!(allocator.assigned(), vec![18232, 18233]);
    assert!(!allocator.is_assigned(9067));
}

#[test]
fn allocate_many_of_zero_succeeds_with_nothing() {
    let mut allocator = PortAllocator::new();
    assert_eq!(allocator.allocate_many(0), Ok(vec![]));
    assert_eq!(allocator.assigned(), Vec::<u16>::new());
}

#[test]
fn port_zero_is_never_accepted() {
    let mut allocator = PortAllocator::new();
    assert_eq!(allocator.accept_candidate(Some(0)), None);
    assert!(!allocator.is_assigned(0));
    let p = allocator.allocate().unwrap();
    assert_ne!(p, 0);
}

#[test]
fn stop_decisions() {
    assert_eq!(next_stop(true, 0, 5000, 100), StopDecision::Done);
    assert_eq!(next_stop(true, 9000, 5000, 100), StopDecision::Done);
    assert_eq!(next_stop(false, 0, 5000, 100), StopDecision::WaitFor(100));
    assert_eq!(next_stop(false, 4950, 5000, 100), StopDecision::WaitFor(50));
    assert_eq!(next_stop(false, 5000, 5000, 100), StopDecision::ForceKill);
    assert_eq!(next_stop(false, 0, 0, 100), StopDecision::ForceKill);
}

#[test]
fn process_state_transitions() {
    let s = ProcessState::Unstarted;
    assert_eq!(s.step(ProcessEvent::Launch), Some(ProcessState::Launching));
    assert_eq!(s.step(ProcessEvent::ReadyObserved), None);
    assert_eq!(s.step(ProcessEvent::Terminate), Some(ProcessState::Stopped));
    let l = ProcessState::Launching;
    assert_eq!(l.step(ProcessEvent::ReadyObserved), Some(ProcessState::Ready));
    assert_eq!(l.step(ProcessEvent::LaunchFailed), Some(ProcessState::Failed));
    assert_eq!(l.step(ProcessEvent::Terminate), Some(ProcessState::Stopped));
    assert_eq!(ProcessState::Ready.step(ProcessEvent::Terminate), Some(ProcessState::Stopped));
    assert_eq!(ProcessState::Ready.step(ProcessEvent::Launch), None);
    assert_eq!(ProcessState::Stopped.step(ProcessEvent::Terminate), None);
    assert_eq!(ProcessState::Failed.step(ProcessEvent::Terminate), None);
    assert!(ProcessState::Stopped.is_terminal());
    assert!(!ProcessState::Ready.is_terminal());
}

#[test]
fn readiness_poll_decisions() {
    assert_eq!(next_poll(true, 0, 1000, 100), PollDecision::Ready);
    assert_eq!(next_poll(true, 5000, 1000, 100), PollDecision::Ready);
    assert_eq!(next_poll(false, 0, 1000, 100), PollDecision::RetryAfter(100));
    assert_eq!(next_poll(false, 950, 1000, 100), PollDecision::RetryAfter(50));
    assert_eq!(next_poll(false, 1000, 1000, 100), PollDecision::TimedOut);
    assert_eq!(next_poll(false, 1200, 1000, 100), PollDecision::TimedOut);
}

#[test]
fn launch_runs_validator_before_indexer() {
    let mut net = LocalNetState::new();
    assert_eq!(net.next_launch_action(), LaunchAction::LaunchValidator);
    assert!(!net.apply(Role::Indexer, ProcessEvent::Launch));
    assert!(net.apply(Role::Validator, ProcessEvent::Launch));
    assert_eq!(net.next_launch_action(), LaunchAction::AwaitValidator);
    assert!(!net.apply(Role::Indexer, ProcessEvent::Launch));
    assert_eq!(net.indexer(), ProcessState::Unstarted);
    assert!(net.apply(Role::Validator, ProcessEvent::ReadyObserved));
    assert_eq!(net.next_launch_action(), LaunchAction::LaunchIndexer);
    assert!(net.apply(Role::Indexer, ProcessEvent::Launch));
    assert_eq!(net.next_launch_action(), LaunchAction::AwaitIndexer);
    assert!(net.apply(Role::Indexer, ProcessEvent::ReadyObserved));
    assert_eq!(net.next_launch_action(), LaunchAction::Running);
}

#[test]
fn teardown_stops_indexer_then_validator() {
    let mut net = LocalNetState::new();
    net.apply(Role::Validator, ProcessEvent::Launch);
    net.apply(Role::Validator, ProcessEvent::ReadyObserved);
    net.apply(Role::Indexer, ProcessEvent::Launch);
    net.apply(Role::Indexer, ProcessEvent::ReadyObserved);
    assert_eq!(net.next_teardown_action(), TeardownAction::StopIndexer);
    assert!(!net.apply(Role::Validator, ProcessEvent::Terminate));
    assert_eq!(net.validator(), ProcessState::Ready);
    assert!(net.apply(Role::Indexer, ProcessEvent::Terminate));
    assert_eq!(net.next_teardown_action(), TeardownAction::StopValidator);
    assert!(net.apply(Role::Validator, ProcessEvent::Terminate));
    assert_eq!(net.next_teardown_action(), TeardownAction::Done);
    assert_eq!(net.validator(), ProcessState::Stopped);
    assert_eq!(net.indexer(), ProcessState::Stopped);
}

#[test]
fn failed_validator_aborts_launch() {
    let mut net = LocalNetState::new();
    net.apply(Role::Validator, ProcessEvent::Launch);
    assert!(net.apply(Role::Validator, ProcessEvent::LaunchFailed));
    assert_eq!(net.next_launch_action(), LaunchAction::Abort);
    assert!(!net.apply(Role::Indexer, ProcessEvent::Launch));
    assert_eq!(net.next_teardown_action(), TeardownAction::StopIndexer);
    assert!(net.apply(Role::Indexer, ProcessEvent::Terminate));
    assert_eq!(net.next_teardown_action(), TeardownAction::Done);
}
