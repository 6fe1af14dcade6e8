use indexer_node::address::{listen_address, IpAddress, SocketAddressV4, DEFAULT_PORT};
use indexer_node::cli::{unknown_parameters, Arguments, Mode};
use indexer_node::engine::{Engine, EngineAction, EngineEvent, EnginePhase};
use indexer_node::error::{BootstrapError, EXIT_FAILURE};
use indexer_node::logging::{default_logger_settings, LogLevel, CONSOLE_APPENDER, RUNTIME_TARGET};
use indexer_node::subscriber::{
    BlockNotice, LoggerSubscriber, Registry, Subscriber, TonSubscriber,
};

fn args(gen: Option<&str>, config: Option<&str>, global: Option<&str>) -> Arguments {
    Arguments {
        gen_config: gen.map(|s| s.to_string()),
        config: config.map(|s| s.to_string()),
        global_config: global.map(|s| s.to_string()),
    }
}

fn notice() -> BlockNotice {
    BlockNotice { workchain: -1, shard: 0x8000_0000_0000_0000, seqno: 42, gen_utime: 1_650_000_000, has_proof: true }
}

#[test]
fn gen_config_alone_selects_generation() {
    match args(Some("new.yaml"), None, None).mode() {
        Mode::GenerateConfig { path } => assert_eq!(path, "new.yaml"),
        _ => panic!("expected generation"),
    }
}

#[test]
fn gen_config_with_partial_run_flags_selects_generation() {
    match args(Some("new.yaml"), Some("config.yaml"), None).mode() {
        Mode::GenerateConfig { path } => assert_eq!(path, "new.yaml"),
        _ => panic!("expected generation"),
    }
}

#[test]
fn config_and_global_config_select_run() {
    match args(None, Some("config.yaml"), Some("global.json")).mode() {
        Mode::Run { config, global_config } => {
            assert_eq!(config, "config.yaml");
            assert_eq!(global_config, "global.json");
        }
        _ => panic!("expected run"),
    }
}

#[test]
fn config_without_global_config_is_invalid() {
    assert!(matches!(args(None, Some("config.yaml"), None).mode(), Mode::Invalid));
    assert_eq!(unknown_parameters(), "unknown parameters");
    assert_eq!(EXIT_FAILURE, 1);
}

#[test]
fn global_config_without_config_is_invalid() {
    assert!(matches!(args(None, None, Some("global.json")).mode(), Mode::Invalid));
}

#[test]
fn no_flags_is_invalid() {
    assert!(matches!(args(None, None, None).mode(), Mode::Invalid));
}

#[test]
fn all_flags_together_are_invalid() {
    let m = args(Some("new.yaml"), Some("config.yaml"), Some("global.json")).mode();
    assert!(matches!(m, Mode::Invalid));
}

#[test]
fn ipv4_consensus_listens_on_default_port() {
    let ip = u32::from_be_bytes([203, 0, 113, 7]);
    let r = listen_address(Some(IpAddress::V4(ip)));
    assert_eq!(r, Ok(SocketAddressV4 { ip, port: 30303 }));
    assert_eq!(DEFAULT_PORT, 30303);
}

#[test]
fn missing_consensus_is_address_unavailable() {
    assert_eq!(listen_address(None), Err(BootstrapError::AddressUnavailable));
}

#[test]
fn ipv6_consensus_is_unsupported() {
    let r = listen_address(Some(IpAddress::V6(1)));
    assert_eq!(r, Err(BootstrapError::UnsupportedAddressFamily));
}

#[test]
fn error_descriptions() {
    assert_eq!(BootstrapError::AddressUnavailable.description(), "External ip not found");
    assert_eq!(BootstrapError::UnsupportedAddressFamily.description(), "IPv6 not supported");
    assert_eq!(BootstrapError::IndexerConfigBuildError.description(), "Failed to build node config");
    assert_eq!(BootstrapError::EngineStartError.description(), "Failed to start TON node");
}

#[test]
fn default_logger_settings_levels_and_appender() {
    let s = default_logger_settings();
    assert_eq!(s.root_level, LogLevel::Error);
    assert_eq!(s.appenders.len(), 1);
    assert_eq!(s.appenders[0].name, "stdout");
    assert_eq!(s.appenders[0].pattern, "{d(%Y-%m-%d %H:%M:%S %Z)(utc)} - {h({l})} {M} = {m} {n}");
    assert_eq!(s.root_appenders, vec!["stdout".to_string()]);
    assert_eq!(s.loggers.len(), 1);
    assert_eq!(s.loggers[0].target, "ton_indexer");
    assert_eq!(s.loggers[0].target, RUNTIME_TARGET);
    assert_eq!(s.loggers[0].level, LogLevel::Debug);
    assert_eq!(s.loggers[0].appenders, vec![CONSOLE_APPENDER.to_string()]);
    assert!(!s.loggers[0].additive);
}

#[test]
fn each_subscriber_gets_the_block_once() {
    let registry = Registry::new(vec![
        Subscriber::Ton(TonSubscriber::new()),
        Subscriber::Logger(LoggerSubscriber::new()),
        Subscriber::Logger(LoggerSubscriber::new()),
    ]);
    assert_eq!(registry.len(), 3);
    let deliveries = registry.notify(&notice());
    assert_eq!(deliveries.len(), 3);
    for (i, d) in deliveries.iter().enumerate() {
        assert_eq!(d.subscriber, i);
        assert_eq!(d.notice, notice());
        assert_eq!(d.outcome, Ok(()));
    }
}

#[test]
fn empty_registry_calls_nobody() {
    let registry = Registry::new(Vec::new());
    assert!(registry.notify(&notice()).is_empty());
}

#[test]
fn engine_registers_its_own_subscriber_first() {
    let engine = Engine::new(vec![Subscriber::Logger(LoggerSubscriber::new())]);
    assert_eq!(engine.phase(), EnginePhase::BuildingConfig);
    assert_eq!(engine.pending(), EngineAction::BuildIndexerConfig);
    let deliveries = engine.notify(&notice());
    assert_eq!(deliveries.len(), 2);
}

#[test]
fn engine_starts_after_construction() {
    let mut engine = Engine::new(Vec::new());
    assert_eq!(engine.handle(EngineEvent::IndexerConfigBuilt), EngineAction::ConstructRuntime);
    assert_eq!(engine.handle(EngineEvent::RuntimeConstructed), EngineAction::AwaitStart);
    assert_eq!(engine.phase(), EnginePhase::Constructed);
    assert_eq!(engine.start(), EngineAction::StartRuntime);
    assert_eq!(engine.handle(EngineEvent::RuntimeStarted), EngineAction::Suspend);
    assert_eq!(engine.phase(), EnginePhase::Running);
    assert_eq!(engine.start(), EngineAction::Suspend);
    assert_eq!(engine.phase(), EnginePhase::Running);
}

#[test]
fn unresolvable_node_settings_fail_before_construction() {
    let mut engine = Engine::new(Vec::new());
    let action = engine.handle(EngineEvent::IndexerConfigFailed);
    assert_eq!(action, EngineAction::Fail(BootstrapError::IndexerConfigBuildError));
    assert_eq!(engine.handle(EngineEvent::RuntimeConstructed), action);
    assert_eq!(engine.start(), action);
    assert_eq!(engine.phase(), EnginePhase::Failed(BootstrapError::IndexerConfigBuildError));
}

#[test]
fn runtime_construction_failure_is_engine_start_error() {
    let mut engine = Engine::new(Vec::new());
    engine.handle(EngineEvent::IndexerConfigBuilt);
    let action = engine.handle(EngineEvent::RuntimeConstructionFailed);
    assert_eq!(action, EngineAction::Fail(BootstrapError::EngineStartError));
}

#[test]
fn runtime_start_failure_is_engine_runtime_error() {
    let mut engine = Engine::new(Vec::new());
    engine.handle(EngineEvent::IndexerConfigBuilt);
    engine.handle(EngineEvent::RuntimeConstructed);
    engine.start();
    let action = engine.handle(EngineEvent::RuntimeStartFailed);
    assert_eq!(action, EngineAction::Fail(BootstrapError::EngineRuntimeError));
}

#[test]
fn start_before_construction_does_nothing() {
    let mut engine = Engine::new(Vec::new());
    assert_eq!(engine.start(), EngineAction::BuildIndexerConfig);
    assert_eq!(engine.phase(), EnginePhase::BuildingConfig);
}
