//! Lifecycle scenarios: launching through the strategy chain, probing,
//! stopping, and the companion's independent lifecycle.

use dep_lifecycle::chain::{ChainAction, LaunchChain, LaunchOutcome, StrategyReport};
use dep_lifecycle::companion::CommandTailHandle;
use dep_lifecycle::endpoint::DependencyEndpoint;
use dep_lifecycle::handle::{ManagedDependencyHandle, OwnedResource, SetupCompletion};
use dep_lifecycle::probe::{ProbeStep, ReadinessProbe};
use dep_lifecycle::SetupError;

fn ready_handle(port: u16, prefix: &str, report: StrategyReport) -> ManagedDependencyHandle {
    let mut chain = LaunchChain::new(port, 1);
    let outcome = match chain.step(report) {
        ChainAction::Done { outcome } => outcome,
        ChainAction::Attempt { .. } => panic!("single strategy must finish the chain"),
    };
    match ManagedDependencyHandle::complete_setup(
        "localhost".to_string(),
        prefix.to_string(),
        outcome,
        ProbeStep::Ready,
    ) {
        SetupCompletion::Ready { handle } => handle,
        SetupCompletion::Abort { .. } => panic!("setup must succeed"),
    }
}

#[test]
fn native_strategy_success_keeps_requested_port() {
    // Request 6400 with prefix "t1-"; the native strategy binds the port
    // itself and the probe succeeds.
    let handle = ready_handle(6400, "t1-", StrategyReport::Process { resource: 1 });
    assert_eq!(handle.host().as_str(), "localhost");
    assert_eq!(handle.port(), 6400);
    assert_eq!(handle.prefix().as_str(), "t1-");
    assert!(handle.assert_valid().is_ok());
}

#[test]
fn container_fallback_uses_remapped_port() {
    // The first strategy is unavailable; the container strategy remaps
    // the requested 6400 to host port 54321, and the handle reports the
    // remapped port.
    let mut chain = LaunchChain::new(6400, 2);
    let first = chain.step(StrategyReport::Unavailable);
    assert_eq!(first, ChainAction::Attempt { index: 1 });
    let second = chain.step(StrategyReport::Container {
        resource: 2,
        mapped_port: 54321,
    });
    let outcome = match second {
        ChainAction::Done { outcome } => outcome,
        ChainAction::Attempt { .. } => panic!("a success must finish the chain"),
    };
    assert_eq!(
        outcome,
        LaunchOutcome::Container {
            resource: 2,
            port: 54321
        }
    );
    let completion = ManagedDependencyHandle::complete_setup(
        "localhost".to_string(),
        "t1-".to_string(),
        outcome,
        ProbeStep::Ready,
    );
    let handle = match completion {
        SetupCompletion::Ready { handle } => handle,
        SetupCompletion::Abort { .. } => panic!("setup must succeed"),
    };
    assert_eq!(handle.port(), 54321);
    assert_ne!(handle.port(), 6400);
}

#[test]
fn exhausted_chain_fails_without_a_resource() {
    // Every strategy reports unavailable: the chain fails as a whole and
    // setup aborts with LaunchFailed and nothing to terminate.
    let mut chain = LaunchChain::new(6400, 3);
    assert_eq!(chain.pending(), Some(0));
    assert_eq!(
        chain.step(StrategyReport::Unavailable),
        ChainAction::Attempt { index: 1 }
    );
    assert_eq!(
        chain.step(StrategyReport::Unavailable),
        ChainAction::Attempt { index: 2 }
    );
    assert_eq!(
        chain.step(StrategyReport::Unavailable),
        ChainAction::Done {
            outcome: LaunchOutcome::Failure
        }
    );
    assert_eq!(chain.pending(), None);
    let completion = ManagedDependencyHandle::complete_setup(
        "localhost".to_string(),
        String::new(),
        LaunchOutcome::Failure,
        ProbeStep::TimedOut,
    );
    match completion {
        SetupCompletion::Abort { error, terminate } => {
            assert_eq!(error, SetupError::LaunchFailed);
            assert_eq!(terminate, None);
        }
        SetupCompletion::Ready { .. } => panic!("a failed chain must abort setup"),
    }
}

#[test]
fn unreachable_endpoint_times_out_and_terminates_the_resource() {
    // A strategy starts a resource but its endpoint never accepts a
    // connection within the 10 s deadline: the probe times out and the
    // abort hands the started resource back for termination.
    let mut probe = ReadinessProbe::new(10_000, 200);
    let mut verdict = ProbeStep::Retry;
    let mut attempts = 0u32;
    while verdict == ProbeStep::Retry {
        verdict = probe.step(false);
        attempts += 1;
        assert!(attempts <= 50, "the probe must reach its deadline");
    }
    assert_eq!(verdict, ProbeStep::TimedOut);
    assert_eq!(attempts, 50);

    let completion = ManagedDependencyHandle::complete_setup(
        "localhost".to_string(),
        String::new(),
        LaunchOutcome::Process {
            resource: 7,
            port: 6400,
        },
        verdict,
    );
    match completion {
        SetupCompletion::Abort { error, terminate } => {
            assert_eq!(error, SetupError::ReadinessTimeout);
            assert_eq!(terminate, Some(OwnedResource::Process { id: 7 }));
        }
        SetupCompletion::Ready { .. } => panic!("an unreachable endpoint must abort setup"),
    }
}

#[test]
fn probe_succeeds_as_soon_as_a_connection_does() {
    let mut probe = ReadinessProbe::new(10_000, 200);
    assert_eq!(probe.step(false), ProbeStep::Retry);
    assert_eq!(probe.step(false), ProbeStep::Retry);
    assert_eq!(probe.step(true), ProbeStep::Ready);
}

#[test]
fn probe_deadline_holds_when_the_interval_does_not_divide_it() {
    // 500 ms deadline probed every 200 ms: failures at 200 and 400 ms
    // still leave time, the third failure spends the rest.
    let mut probe = ReadinessProbe::new(500, 200);
    assert_eq!(probe.step(false), ProbeStep::Retry);
    assert_eq!(probe.step(false), ProbeStep::Retry);
    assert_eq!(probe.step(false), ProbeStep::TimedOut);
}

#[test]
fn stop_is_idempotent_and_invalidates_the_handle() {
    let mut handle = ready_handle(6400, "", StrategyReport::Process { resource: 11 });
    assert!(handle.assert_valid().is_ok());
    let first = handle.stop();
    assert_eq!(first, Some(OwnedResource::Process { id: 11 }));
    assert!(handle.assert_valid().is_err());
    let second = handle.stop();
    assert_eq!(second, None);
    let third = handle.stop();
    assert_eq!(third, None);
    assert!(handle.assert_valid().is_err());
}

#[test]
fn racing_stops_issue_exactly_one_terminate_signal() {
    // Two stop invocations race; the driver's lock around the take step
    // serializes them into one order or the other, and in either order
    // exactly one invocation is handed the resource to terminate.
    let mut handle = ready_handle(6400, "", StrategyReport::Process { resource: 21 });
    let mut kills = 0u32;
    for _ in 0..2 {
        if handle.stop().is_some() {
            kills += 1;
        }
    }
    assert_eq!(kills, 1);
    assert!(handle.assert_valid().is_err());
}

#[test]
fn companion_lifecycle_is_independent_of_the_primary() {
    // A companion attached to a valid primary keeps its own kill path
    // when the primary is stopped first.
    let mut primary = ready_handle(6400, "", StrategyReport::Process { resource: 31 });
    let mut companion = CommandTailHandle::new(32);
    let primary_kill = primary.stop();
    assert_eq!(primary_kill, Some(OwnedResource::Process { id: 31 }));
    let companion_kill = companion.kill();
    assert_eq!(companion_kill, Some(32));
    let again = companion.kill();
    assert_eq!(again, None);
}

#[test]
fn accessors_stay_safe_after_teardown() {
    let mut handle = ready_handle(6400, "t9-", StrategyReport::Process { resource: 41 });
    handle.stop();
    assert_eq!(handle.host().as_str(), "localhost");
    assert_eq!(handle.port(), 6400);
    assert_eq!(handle.prefix().as_str(), "t9-");
}

#[test]
fn endpoint_is_immutable_plain_data() {
    let endpoint = DependencyEndpoint::new("localhost".to_string(), 6379, "p-".to_string());
    assert_eq!(endpoint.host().as_str(), "localhost");
    assert_eq!(endpoint.port(), 6379);
    assert_eq!(endpoint.prefix().as_str(), "p-");
}
