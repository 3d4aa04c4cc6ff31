use backend::address::BindAddress;
use backend::config::{load_env, RequiredKey};
use backend::coordinator::{Action, Coordinator, Event, ExitStatus, Phase, StartupError};
use backend::resources::{create_db_pool, create_solana_client, Resource};

const ALL_EVENTS: [Event; 12] = [
    Event::ConfigLoaded,
    Event::ConfigMissing(RequiredKey::DatabaseUrl),
    Event::ConfigMissing(RequiredKey::SolanaRpcUrl),
    Event::PoolReady,
    Event::PoolFailed,
    Event::ClientReady,
    Event::ClientFailed,
    Event::GatewayLaunched,
    Event::HealthBound,
    Event::HealthBindFailed,
    Event::TerminationSignal,
    Event::Drained,
];

fn run(events: &[Event]) -> (Coordinator, Vec<Action>) {
    let (mut coordinator, first) = Coordinator::new();
    let mut actions = vec![first];
    for event in events {
        actions.push(coordinator.on_event(*event));
    }
    (coordinator, actions)
}

fn serving() -> Coordinator {
    let (coordinator, _) = run(&[
        Event::ConfigLoaded,
        Event::PoolReady,
        Event::ClientReady,
        Event::GatewayLaunched,
        Event::HealthBound,
    ]);
    assert!(coordinator.is_serving());
    coordinator
}

fn starts_listener(action: &Action) -> bool {
    matches!(action, Action::LaunchGateway | Action::BindHealth(_))
}

#[test]
fn new_coordinator_loads_the_configuration_first() {
    let (coordinator, first) = Coordinator::new();
    assert_eq!(coordinator.phase(), Phase::LoadingConfig);
    assert_eq!(first, Action::LoadConfig);
    assert!(!coordinator.is_serving());
}

#[test]
fn startup_runs_its_steps_in_order() {
    let (coordinator, actions) = run(&[
        Event::ConfigLoaded,
        Event::PoolReady,
        Event::ClientReady,
        Event::GatewayLaunched,
        Event::HealthBound,
    ]);
    assert_eq!(
        actions,
        vec![
            Action::LoadConfig,
            Action::InitPool,
            Action::InitClient,
            Action::LaunchGateway,
            Action::BindHealth(BindAddress { octets: [127, 0, 0, 1], port: 3030 }),
            Action::AwaitSignal,
        ]
    );
    assert_eq!(coordinator.phase(), Phase::Serving);
}

#[test]
fn each_phase_follows_the_one_before() {
    let (mut coordinator, _) = Coordinator::new();
    let steps = [
        (Event::ConfigLoaded, Phase::InitializingPool),
        (Event::PoolReady, Phase::InitializingClient),
        (Event::ClientReady, Phase::LaunchingGateway),
        (Event::GatewayLaunched, Phase::BindingHealth),
        (Event::HealthBound, Phase::Serving),
        (Event::TerminationSignal, Phase::Draining),
        (Event::Drained, Phase::Stopped),
    ];
    for (event, phase) in steps {
        coordinator.on_event(event);
        assert_eq!(coordinator.phase(), phase);
    }
}

#[test]
fn missing_configuration_aborts_before_any_listener() {
    for key in [RequiredKey::DatabaseUrl, RequiredKey::SolanaRpcUrl] {
        let mut events = vec![Event::ConfigMissing(key)];
        events.extend_from_slice(&ALL_EVENTS);
        let (coordinator, actions) = run(&events);
        let error = StartupError::ConfigurationMissing(key);
        assert_eq!(coordinator.phase(), Phase::Aborted(error));
        assert_eq!(actions[1], Action::Exit(ExitStatus::Failure(error)));
        assert!(!actions.iter().any(starts_listener));
        assert!(actions[2..].iter().all(|action| *action == Action::Idle));
    }
}

#[test]
fn startup_fails_on_every_incomplete_environment() {
    let database = Some("postgres://localhost/app".to_string());
    let rpc = Some("http://127.0.0.1:8899".to_string());
    let cases = [
        (None, None, RequiredKey::DatabaseUrl),
        (None, rpc.clone(), RequiredKey::DatabaseUrl),
        (database.clone(), None, RequiredKey::SolanaRpcUrl),
        (Some(String::new()), rpc.clone(), RequiredKey::DatabaseUrl),
        (database.clone(), Some(String::new()), RequiredKey::SolanaRpcUrl),
    ];
    for (database_url, solana_rpc_url, key) in cases {
        let (mut coordinator, first) = Coordinator::new();
        assert_eq!(first, Action::LoadConfig);
        let result = load_env(database_url, solana_rpc_url);
        let action = coordinator.on_event(Event::of_config(&result));
        let error = StartupError::ConfigurationMissing(key);
        assert_eq!(action, Action::Exit(ExitStatus::Failure(error)));
        assert_eq!(coordinator.phase(), Phase::Aborted(error));
    }
}

#[test]
fn results_are_reported_as_events() {
    let config = load_env(
        Some("postgres://localhost/app".to_string()),
        Some("no scheme".to_string()),
    );
    assert_eq!(Event::of_config(&config), Event::ConfigLoaded);
    let config = config.unwrap();
    assert_eq!(Event::of_pool(&create_db_pool(&config)), Event::PoolReady);
    assert_eq!(Event::of_client(&create_solana_client(&config)), Event::ClientFailed);
    let config = load_env(
        Some("no scheme".to_string()),
        Some("http://127.0.0.1:8899".to_string()),
    );
    let config = config.unwrap();
    assert_eq!(Event::of_pool(&create_db_pool(&config)), Event::PoolFailed);
    assert_eq!(Event::of_client(&create_solana_client(&config)), Event::ClientReady);
    assert_eq!(
        Event::of_config(&load_env(None, None)),
        Event::ConfigMissing(RequiredKey::DatabaseUrl)
    );
    assert_eq!(
        Event::of_config(&load_env(Some("x".to_string()), None)),
        Event::ConfigMissing(RequiredKey::SolanaRpcUrl)
    );
}

#[test]
fn pool_failure_aborts_before_any_listener() {
    let (coordinator, actions) = run(&[
        Event::ConfigLoaded,
        Event::PoolFailed,
        Event::ClientReady,
        Event::GatewayLaunched,
        Event::HealthBound,
    ]);
    let error = StartupError::ResourceInitFailed(Resource::DatabasePool);
    assert_eq!(coordinator.phase(), Phase::Aborted(error));
    assert_eq!(actions[2], Action::Exit(ExitStatus::Failure(error)));
    assert!(!actions.iter().any(starts_listener));
}

#[test]
fn client_failure_aborts_before_any_listener() {
    let (coordinator, actions) = run(&[
        Event::ConfigLoaded,
        Event::PoolReady,
        Event::ClientFailed,
        Event::GatewayLaunched,
        Event::HealthBound,
    ]);
    let error = StartupError::ResourceInitFailed(Resource::RpcClient);
    assert_eq!(coordinator.phase(), Phase::Aborted(error));
    assert_eq!(actions[3], Action::Exit(ExitStatus::Failure(error)));
    assert!(!actions.iter().any(starts_listener));
}

#[test]
fn health_bind_failure_aborts() {
    let (coordinator, actions) = run(&[
        Event::ConfigLoaded,
        Event::PoolReady,
        Event::ClientReady,
        Event::GatewayLaunched,
        Event::HealthBindFailed,
    ]);
    assert_eq!(coordinator.phase(), Phase::Aborted(StartupError::ListenerBindFailed));
    assert_eq!(
        actions[5],
        Action::Exit(ExitStatus::Failure(StartupError::ListenerBindFailed))
    );
    assert!(!coordinator.is_serving());
}

#[test]
fn serving_lasts_until_the_signal() {
    let mut coordinator = serving();
    for _ in 0..3 {
        for event in ALL_EVENTS {
            if event != Event::TerminationSignal {
                assert_eq!(coordinator.on_event(event), Action::Idle);
                assert!(coordinator.is_serving());
            }
        }
    }
}

#[test]
fn signal_drains_then_stops() {
    let mut coordinator = serving();
    assert_eq!(coordinator.on_event(Event::TerminationSignal), Action::Drain);
    assert_eq!(coordinator.phase(), Phase::Draining);
    assert!(!coordinator.is_serving());
    assert_eq!(coordinator.on_event(Event::TerminationSignal), Action::Idle);
    assert_eq!(coordinator.phase(), Phase::Draining);
    assert_eq!(
        coordinator.on_event(Event::Drained),
        Action::Exit(ExitStatus::Success)
    );
    assert_eq!(coordinator.phase(), Phase::Stopped);
}

#[test]
fn draining_waits_for_the_requests_in_flight() {
    let mut coordinator = serving();
    coordinator.on_event(Event::TerminationSignal);
    for event in ALL_EVENTS {
        if event != Event::Drained {
            assert_eq!(coordinator.on_event(event), Action::Idle);
            assert_eq!(coordinator.phase(), Phase::Draining);
        }
    }
}

#[test]
fn signal_before_serving_is_ignored() {
    let prefixes: [&[Event]; 5] = [
        &[],
        &[Event::ConfigLoaded],
        &[Event::ConfigLoaded, Event::PoolReady],
        &[Event::ConfigLoaded, Event::PoolReady, Event::ClientReady],
        &[Event::ConfigLoaded, Event::PoolReady, Event::ClientReady, Event::GatewayLaunched],
    ];
    for prefix in prefixes {
        let (mut coordinator, _) = run(prefix);
        let before = coordinator.phase();
        assert_eq!(coordinator.on_event(Event::TerminationSignal), Action::Idle);
        assert_eq!(coordinator.on_event(Event::Drained), Action::Idle);
        assert_eq!(coordinator.phase(), before);
    }
}

#[test]
fn stopped_process_asks_for_nothing() {
    let mut coordinator = serving();
    coordinator.on_event(Event::TerminationSignal);
    coordinator.on_event(Event::Drained);
    for event in ALL_EVENTS {
        assert_eq!(coordinator.on_event(event), Action::Idle);
        assert_eq!(coordinator.phase(), Phase::Stopped);
    }
}

#[test]
fn steps_cannot_be_skipped() {
    let (mut coordinator, _) = Coordinator::new();
    for event in [
        Event::PoolReady,
        Event::ClientReady,
        Event::GatewayLaunched,
        Event::HealthBound,
        Event::PoolFailed,
        Event::ClientFailed,
        Event::HealthBindFailed,
    ] {
        assert_eq!(coordinator.on_event(event), Action::Idle);
        assert_eq!(coordinator.phase(), Phase::LoadingConfig);
    }
}

#[test]
fn startup_error_messages() {
    assert_eq!(
        StartupError::ConfigurationMissing(RequiredKey::DatabaseUrl).message(),
        "DATABASE_URL must be set"
    );
    assert_eq!(
        StartupError::ConfigurationMissing(RequiredKey::SolanaRpcUrl).message(),
        "SOLANA_RPC_URL must be set"
    );
    assert_eq!(
        StartupError::ResourceInitFailed(Resource::DatabasePool).message(),
        "DATABASE_URL is not a well-formed endpoint"
    );
    assert_eq!(
        StartupError::ResourceInitFailed(Resource::RpcClient).message(),
        "SOLANA_RPC_URL is not a well-formed endpoint"
    );
    assert_eq!(
        StartupError::ListenerBindFailed.message(),
        "the health API could not bind its address"
    );
}

#[test]
fn resources_are_configured_by_their_keys() {
    assert_eq!(Resource::DatabasePool.key(), RequiredKey::DatabaseUrl);
    assert_eq!(Resource::RpcClient.key(), RequiredKey::SolanaRpcUrl);
}

fn start(database_url: Option<&str>, solana_rpc_url: Option<&str>) -> (Phase, Vec<Action>) {
    let (mut coordinator, mut action) = Coordinator::new();
    let mut actions = vec![action];
    let mut settings = None;
    loop {
        let event = match action {
            Action::LoadConfig => {
                let loaded = load_env(
                    database_url.map(|value| value.to_string()),
                    solana_rpc_url.map(|value| value.to_string()),
                );
                let event = Event::of_config(&loaded);
                settings = loaded.ok();
                event
            }
            Action::InitPool => Event::of_pool(&create_db_pool(settings.as_ref().unwrap())),
            Action::InitClient => {
                Event::of_client(&create_solana_client(settings.as_ref().unwrap()))
            }
            _ => return (coordinator.phase(), actions),
        };
        action = coordinator.on_event(event);
        actions.push(action);
    }
}

#[test]
fn valid_environment_launches_the_gateway() {
    let (phase, actions) = start(Some("postgres://localhost/app"), Some("http://127.0.0.1:8899"));
    assert_eq!(phase, Phase::LaunchingGateway);
    assert_eq!(
        actions,
        vec![Action::LoadConfig, Action::InitPool, Action::InitClient, Action::LaunchGateway]
    );
}

#[test]
fn invalid_environment_aborts_with_the_first_failure() {
    let good_db = Some("postgres://localhost/app");
    let good_rpc = Some("http://127.0.0.1:8899");
    let missing_db = StartupError::ConfigurationMissing(RequiredKey::DatabaseUrl);
    let missing_rpc = StartupError::ConfigurationMissing(RequiredKey::SolanaRpcUrl);
    let bad_db = StartupError::ResourceInitFailed(Resource::DatabasePool);
    let bad_rpc = StartupError::ResourceInitFailed(Resource::RpcClient);
    let cases = [
        (None, None, missing_db, 2),
        (None, good_rpc, missing_db, 2),
        (Some(""), good_rpc, missing_db, 2),
        (good_db, None, missing_rpc, 2),
        (good_db, Some(""), missing_rpc, 2),
        (Some("localhost/app"), None, missing_rpc, 2),
        (Some("localhost/app"), good_rpc, bad_db, 3),
        (Some("localhost/app"), Some("127.0.0.1:8899"), bad_db, 3),
        (good_db, Some("127.0.0.1:8899"), bad_rpc, 4),
    ];
    for (database_url, solana_rpc_url, error, steps) in cases {
        let (phase, actions) = start(database_url, solana_rpc_url);
        assert_eq!(phase, Phase::Aborted(error));
        assert_eq!(actions.len(), steps);
        assert_eq!(actions.last(), Some(&Action::Exit(ExitStatus::Failure(error))));
        assert!(!actions.iter().any(starts_listener));
    }
}
