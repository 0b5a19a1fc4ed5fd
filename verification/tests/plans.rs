//! Command vectors, client selection, relay plans, and request defaults.

use dep_lifecycle::chain::{default_strategy_order, LaunchOutcome, StrategyKind};
use dep_lifecycle::command::{native_server_args, u16_decimal};
use dep_lifecycle::companion::{select_client, tail_command_args, ClientCandidate};
use dep_lifecycle::relay::{LogLevel, RelayPlan, RelaySource, StreamKind};
use dep_lifecycle::relay::relay_source_for;
use dep_lifecycle::{LaunchRequest, DEFAULT_PORT};

#[test]
fn ports_render_in_decimal() {
    assert_eq!(u16_decimal(0), "0");
    assert_eq!(u16_decimal(7), "7");
    assert_eq!(u16_decimal(10), "10");
    assert_eq!(u16_decimal(6379), "6379");
    assert_eq!(u16_decimal(6400), "6400");
    assert_eq!(u16_decimal(65535), "65535");
}

#[test]
fn native_command_disables_persistence_and_sets_the_port() {
    let args = native_server_args(6400);
    let expect = ["--port", "6400", "--save", "", "--appendonly", "no"];
    assert_eq!(args.len(), expect.len());
    for (arg, expect) in args.iter().zip(expect.iter()) {
        assert_eq!(arg.as_str(), *expect);
    }
}

#[test]
fn tail_command_targets_the_primary_endpoint() {
    let args = tail_command_args(&"localhost".to_string(), 54321);
    let expect = ["-h", "localhost", "-p", "54321", "monitor"];
    assert_eq!(args.len(), expect.len());
    for (arg, expect) in args.iter().zip(expect.iter()) {
        assert_eq!(arg.as_str(), *expect);
    }
}

#[test]
fn first_available_client_wins() {
    let candidates = vec![
        ClientCandidate {
            name: "redis-cli".to_string(),
            available: false,
        },
        ClientCandidate {
            name: "memurai-cli".to_string(),
            available: true,
        },
        ClientCandidate {
            name: "valkey-cli".to_string(),
            available: true,
        },
    ];
    assert_eq!(select_client(&candidates), Some(1));
}

#[test]
fn no_available_client_means_the_placeholder() {
    let candidates = vec![
        ClientCandidate {
            name: "redis-cli".to_string(),
            available: false,
        },
        ClientCandidate {
            name: "memurai-cli".to_string(),
            available: false,
        },
    ];
    assert_eq!(select_client(&candidates), None);
    assert_eq!(select_client(&Vec::new()), None);
}

#[test]
fn relay_source_follows_the_outcome() {
    let process = LaunchOutcome::Process {
        resource: 5,
        port: 6400,
    };
    assert_eq!(
        relay_source_for(&process),
        RelaySource::ProcessStreams { resource: 5 }
    );
    let container = LaunchOutcome::Container {
        resource: 6,
        port: 54321,
    };
    assert_eq!(relay_source_for(&container), RelaySource::SubstituteNotice);
}

#[test]
fn relay_plan_levels_and_tagging() {
    let plan = RelayPlan::new("[dependency]".to_string(), LogLevel::Debug, LogLevel::Error);
    assert_eq!(plan.level_for(StreamKind::Stdout), LogLevel::Debug);
    assert_eq!(plan.level_for(StreamKind::Stderr), LogLevel::Error);
    assert_eq!(plan.tag().as_str(), "[dependency]");
    assert_eq!(
        plan.tagged_line(&"Ready to accept connections".to_string()),
        "[dependency] Ready to accept connections"
    );
}

#[test]
fn default_request_uses_the_default_port() {
    let request = LaunchRequest::new_default();
    assert_eq!(request.port, DEFAULT_PORT);
    assert_eq!(request.port, 6379);
    assert_eq!(request.prefix, "");
    assert_eq!(request.out_level, LogLevel::Debug);
    assert_eq!(request.err_level, LogLevel::Error);
}

#[test]
fn strategy_order_is_data_with_a_documented_default() {
    assert_eq!(
        default_strategy_order(false),
        vec![
            StrategyKind::NativeProcess,
            StrategyKind::PlatformShim,
            StrategyKind::ManagedContainer,
        ]
    );
    assert_eq!(
        default_strategy_order(true),
        vec![
            StrategyKind::ManagedContainer,
            StrategyKind::NativeProcess,
            StrategyKind::PlatformShim,
        ]
    );
}
