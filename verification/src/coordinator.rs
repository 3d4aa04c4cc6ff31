//! The bootstrap coordinator: the order in which the process starts its
//! parts, and how it stops.
//!
//! Startup is strictly sequential: configuration, database pool, RPC client,
//! echo gateway, health API. A failure of any step but the launch of the
//! gateway aborts the process. Once the health API serves, the coordinator
//! waits for the termination signal, lets the health API drain, and stops.
//! The gateway is launched and then left alone: the coordinator does not
//! wait for its listener, and does not stop it.
//!
//! The caller performs what an action asks for and reports the outcome as
//! the next event. An event that does not answer what the coordinator is
//! waiting for changes nothing and is answered with `Idle`.

use vstd::prelude::*;
use vstd::string::StringExecFns;
use crate::address::{health_address, BindAddress, HEALTH_PORT};
use crate::config::{
    first_missing, load_outcome, present, Config, ConfigError, ConfigView, RequiredKey,
};
use crate::endpoint::well_formed_endpoint;
use crate::resources::{init_outcome, ClientHandle, InitError, PoolHandle, Resource};

verus! {

/// A failure that ends the process before it serves.
#[derive(Clone, Copy, Debug, PartialEq, Eq, Structural)]
pub enum StartupError {
    /// A required setting is absent or empty.
    ConfigurationMissing(RequiredKey),
    /// The endpoint configured for a resource is not well formed.
    ResourceInitFailed(Resource),
    /// The address of the health API could not be bound.
    ListenerBindFailed,
}

impl StartupError {
    /// The failure in words.
    pub open spec fn message_spec(self) -> Seq<char> {
        match self {
            StartupError::ConfigurationMissing(key) => key.name_spec() + " must be set"@,
            StartupError::ResourceInitFailed(resource) => resource.key_spec().name_spec()
                + " is not a well-formed endpoint"@,
            StartupError::ListenerBindFailed => "the health API could not bind its address"@,
        }
    }

    /// The failure in words, for the caller to end the process with.
    pub fn message(&self) -> (text: String)
        ensures
            text@ == self.message_spec(),
    {
        match self {
            StartupError::ConfigurationMissing(key) => {
                let mut text = String::from_str(key.name());
                text.append(" must be set");
                text
            },
            StartupError::ResourceInitFailed(resource) => {
                let mut text = String::from_str(resource.key().name());
                text.append(" is not a well-formed endpoint");
                text
            },
            StartupError::ListenerBindFailed => String::from_str(
                "the health API could not bind its address",
            ),
        }
    }
}

/// How the process ends.
#[derive(Clone, Copy, Debug, PartialEq, Eq, Structural)]
pub enum ExitStatus {
    /// The health API has drained after a termination signal.
    Success,
    /// Startup was aborted.
    Failure(StartupError),
}

/// Where the coordinator stands: the step whose outcome it waits for, or
/// how it ended.
#[derive(Clone, Copy, Debug, PartialEq, Eq, Structural)]
pub enum Phase {
    LoadingConfig,
    InitializingPool,
    InitializingClient,
    LaunchingGateway,
    BindingHealth,
    /// The health API accepts requests; the termination signal is awaited.
    Serving,
    /// The health API accepts nothing new and finishes what is in flight.
    Draining,
    Stopped,
    Aborted(StartupError),
}

/// The outcome of what the coordinator last asked for.
#[derive(Clone, Copy, Debug, PartialEq, Eq, Structural)]
pub enum Event {
    ConfigLoaded,
    ConfigMissing(RequiredKey),
    PoolReady,
    PoolFailed,
    ClientReady,
    ClientFailed,
    /// The gateway runs as a unit of its own. Whether its listener is bound
    /// is not known, and not waited for.
    GatewayLaunched,
    HealthBound,
    HealthBindFailed,
    TerminationSignal,
    /// Every request that was in flight has been answered.
    Drained,
}

/// What the coordinator asks its caller to do next.
#[derive(Clone, Copy, Debug, PartialEq, Eq)]
pub enum Action {
    /// Read the required settings and load the configuration.
    LoadConfig,
    /// Make the handle to the database.
    InitPool,
    /// Make the handle to the RPC endpoint.
    InitClient,
    /// Start the echo gateway beside the coordinator, and go on at once.
    LaunchGateway,
    /// Bind the health API to this address and begin to serve.
    BindHealth(BindAddress),
    /// Wait for the termination signal.
    AwaitSignal,
    /// Accept no new connection on the health API, and let the requests in
    /// flight finish.
    Drain,
    /// End the process.
    Exit(ExitStatus),
    /// The event did not concern the coordinator; nothing new is to be
    /// done.
    Idle,
}

impl Phase {
    /// The number of steps that lie behind a phase, from none while the
    /// configuration is loaded to all seven once the process has stopped.
    /// An aborted startup has no such number.
    pub open spec fn progress(self) -> Option<nat> {
        match self {
            Phase::LoadingConfig => Some(0),
            Phase::InitializingPool => Some(1),
            Phase::InitializingClient => Some(2),
            Phase::LaunchingGateway => Some(3),
            Phase::BindingHealth => Some(4),
            Phase::Serving => Some(5),
            Phase::Draining => Some(6),
            Phase::Stopped => Some(7),
            Phase::Aborted(_) => None,
        }
    }

    /// The process has ended, one way or the other.
    pub open spec fn is_final(self) -> bool {
        self is Stopped || self is Aborted
    }
}

impl Action {
    /// The action starts a listener: the gateway's or the health API's.
    pub open spec fn starts_listener(self) -> bool {
        self is LaunchGateway || self is BindHealth
    }
}

/// The event is a possible outcome of what a coordinator in `phase` waits
/// for.
pub open spec fn coordinator_admits(phase: Phase, event: Event) -> bool {
    match phase {
        Phase::LoadingConfig => event is ConfigLoaded || event is ConfigMissing,
        Phase::InitializingPool => event is PoolReady || event is PoolFailed,
        Phase::InitializingClient => event is ClientReady || event is ClientFailed,
        Phase::LaunchingGateway => event is GatewayLaunched,
        Phase::BindingHealth => event is HealthBound || event is HealthBindFailed,
        Phase::Serving => event is TerminationSignal,
        Phase::Draining => event is Drained,
        Phase::Stopped => false,
        Phase::Aborted(_) => false,
    }
}

/// The phase and the action of a startup that is aborted with `error`.
pub open spec fn abort(error: StartupError) -> (Phase, Action) {
    (Phase::Aborted(error), Action::Exit(ExitStatus::Failure(error)))
}

/// One transition of the coordinator: the phase it moves to and what it
/// asks for.
pub open spec fn coordinator_step(phase: Phase, event: Event) -> (Phase, Action) {
    match (phase, event) {
        (Phase::LoadingConfig, Event::ConfigLoaded) => (Phase::InitializingPool, Action::InitPool),
        (Phase::LoadingConfig, Event::ConfigMissing(key)) => abort(
            StartupError::ConfigurationMissing(key),
        ),
        (Phase::InitializingPool, Event::PoolReady) => (
            Phase::InitializingClient,
            Action::InitClient,
        ),
        (Phase::InitializingPool, Event::PoolFailed) => abort(
            StartupError::ResourceInitFailed(Resource::DatabasePool),
        ),
        (Phase::InitializingClient, Event::ClientReady) => (
            Phase::LaunchingGateway,
            Action::LaunchGateway,
        ),
        (Phase::InitializingClient, Event::ClientFailed) => abort(
            StartupError::ResourceInitFailed(Resource::RpcClient),
        ),
        (Phase::LaunchingGateway, Event::GatewayLaunched) => (
            Phase::BindingHealth,
            Action::BindHealth(BindAddress::localhost(HEALTH_PORT)),
        ),
        (Phase::BindingHealth, Event::HealthBound) => (Phase::Serving, Action::AwaitSignal),
        (Phase::BindingHealth, Event::HealthBindFailed) => abort(StartupError::ListenerBindFailed),
        (Phase::Serving, Event::TerminationSignal) => (Phase::Draining, Action::Drain),
        (Phase::Draining, Event::Drained) => (Phase::Stopped, Action::Exit(ExitStatus::Success)),
        _ => (phase, Action::Idle),
    }
}

/// The event that reports a result of loading the configuration.
pub open spec fn config_event(outcome: Result<ConfigView, ConfigError>) -> Event {
    match outcome {
        Ok(_) => Event::ConfigLoaded,
        Err(e) => Event::ConfigMissing(e.key_spec()),
    }
}

/// The event that reports a result of making the database handle.
pub open spec fn pool_event(outcome: Result<Seq<char>, InitError>) -> Event {
    match outcome {
        Ok(_) => Event::PoolReady,
        Err(_) => Event::PoolFailed,
    }
}

/// The event that reports a result of making the RPC handle.
pub open spec fn client_event(outcome: Result<Seq<char>, InitError>) -> Event {
    match outcome {
        Ok(_) => Event::ClientReady,
        Err(_) => Event::ClientFailed,
    }
}

impl Event {
    /// The event that reports what [`load_env`](crate::config::load_env)
    /// returned.
    pub fn of_config(result: &Result<Config, ConfigError>) -> (event: Event)
        ensures
            event == config_event(crate::config::loaded(*result)),
    {
        match result {
            Ok(_) => Event::ConfigLoaded,
            Err(e) => Event::ConfigMissing(e.key()),
        }
    }

    /// The event that reports what
    /// [`create_db_pool`](crate::resources::create_db_pool) returned.
    pub fn of_pool(result: &Result<PoolHandle, InitError>) -> (event: Event)
        ensures
            event == pool_event(crate::resources::pool_created(*result)),
    {
        match result {
            Ok(_) => Event::PoolReady,
            Err(_) => Event::PoolFailed,
        }
    }

    /// The event that reports what
    /// [`create_solana_client`](crate::resources::create_solana_client)
    /// returned.
    pub fn of_client(result: &Result<ClientHandle, InitError>) -> (event: Event)
        ensures
            event == client_event(crate::resources::client_created(*result)),
    {
        match result {
            Ok(_) => Event::ClientReady,
            Err(_) => Event::ClientFailed,
        }
    }
}

/// The coordinator of one process.
#[derive(Debug)]
pub struct Coordinator {
    phase: Phase,
}

impl View for Coordinator {
    type V = Phase;

    closed spec fn view(&self) -> Phase {
        self.phase
    }
}

impl Coordinator {
    /// The coordinator of a process that has done nothing yet, and its
    /// first request: to load the configuration.
    pub fn new() -> (r: (Coordinator, Action))
        ensures
            r.0@ == Phase::LoadingConfig,
            r.1 == Action::LoadConfig,
    {
        (Coordinator { phase: Phase::LoadingConfig }, Action::LoadConfig)
    }

    /// The phase the coordinator is in.
    pub fn phase(&self) -> (phase: Phase)
        ensures
            phase == self@,
    {
        self.phase
    }

    /// Tells whether the health API accepts requests: from the moment it is
    /// bound until the termination signal.
    pub fn is_serving(&self) -> (serving: bool)
        ensures
            serving == (self@ == Phase::Serving),
    {
        match self.phase {
            Phase::Serving => true,
            _ => false,
        }
    }

    /// Takes the outcome of the last action and answers with the next one.
    pub fn on_event(&mut self, event: Event) -> (action: Action)
        ensures
            (final(self)@, action) == coordinator_step(old(self)@, event),
    {
        match (self.phase, event) {
            (Phase::LoadingConfig, Event::ConfigLoaded) => {
                self.phase = Phase::InitializingPool;
                Action::InitPool
            },
            (Phase::LoadingConfig, Event::ConfigMissing(key)) => {
                self.abort(StartupError::ConfigurationMissing(key))
            },
            (Phase::InitializingPool, Event::PoolReady) => {
                self.phase = Phase::InitializingClient;
                Action::InitClient
            },
            (Phase::InitializingPool, Event::PoolFailed) => {
                self.abort(StartupError::ResourceInitFailed(Resource::DatabasePool))
            },
            (Phase::InitializingClient, Event::ClientReady) => {
                self.phase = Phase::LaunchingGateway;
                Action::LaunchGateway
            },
            (Phase::InitializingClient, Event::ClientFailed) => {
                self.abort(StartupError::ResourceInitFailed(Resource::RpcClient))
            },
            (Phase::LaunchingGateway, Event::GatewayLaunched) => {
                self.phase = Phase::BindingHealth;
                Action::BindHealth(health_address())
            },
            (Phase::BindingHealth, Event::HealthBound) => {
                self.phase = Phase::Serving;
                Action::AwaitSignal
            },
            (Phase::BindingHealth, Event::HealthBindFailed) => {
                self.abort(StartupError::ListenerBindFailed)
            },
            (Phase::Serving, Event::TerminationSignal) => {
                self.phase = Phase::Draining;
                Action::Drain
            },
            (Phase::Draining, Event::Drained) => {
                self.phase = Phase::Stopped;
                Action::Exit(ExitStatus::Success)
            },
            _ => Action::Idle,
        }
    }

    fn abort(&mut self, error: StartupError) -> (action: Action)
        ensures
            (final(self)@, action) == abort(error),
    {
        self.phase = Phase::Aborted(error);
        Action::Exit(ExitStatus::Failure(error))
    }
}

/// The coordinator run on a sequence of events from `phase`: the phase it
/// ends in and the action that answered each event, in order.
pub open spec fn coordinator_run(phase: Phase, events: Seq<Event>) -> (Phase, Seq<Action>)
    decreases events.len(),
{
    if events.len() == 0 {
        (phase, Seq::empty())
    } else {
        let (next, action) = coordinator_step(phase, events[0]);
        let (last, actions) = coordinator_run(next, events.drop_first());
        (last, seq![action] + actions)
    }
}

/// Startup is strictly sequential. A transition completes at most one step
/// and skips none; only the outcome that a phase waits for moves it; and a
/// listener is started only by the success of the step just before it: the
/// gateway when the RPC client is ready, the health API when the gateway
/// has been launched.
pub proof fn startup_is_sequential(phase: Phase, event: Event)
    ensures
        !coordinator_admits(phase, event) ==> coordinator_step(phase, event) == (
            phase,
            Action::Idle,
        ),
        coordinator_admits(phase, event) ==> coordinator_step(phase, event).0 != phase,
        phase.progress() matches Some(before) ==> match coordinator_step(phase, event).0.progress() {
            Some(after) => after == before || after == before + 1,
            None => before <= 4,
        },
        coordinator_step(phase, event).1 is LaunchGateway ==> phase == Phase::InitializingClient
            && event == Event::ClientReady,
        coordinator_step(phase, event).1 is BindHealth ==> phase == Phase::LaunchingGateway
            && event == Event::GatewayLaunched,
{
}

/// A process that has stopped or was aborted stays as it is, and asks for
/// nothing more.
pub proof fn final_phase_is_final(phase: Phase, events: Seq<Event>)
    requires
        phase.is_final(),
    ensures
        coordinator_run(phase, events).0 == phase,
        forall|i: int|
            0 <= i < events.len() ==> #[trigger] coordinator_run(phase, events).1[i]
                == Action::Idle,
        coordinator_run(phase, events).1.len() == events.len(),
    decreases events.len(),
{
    if events.len() > 0 {
        final_phase_is_final(phase, events.drop_first());
    }
}

/// Without its configuration the process starts nothing. Where a required
/// setting is absent or empty, reporting the result of loading aborts the
/// startup with `ConfigurationMissing` for the first setting that is
/// missing, and whatever events follow, no listener is ever started.
pub proof fn no_listener_without_config(
    database_url: Option<Seq<char>>,
    solana_rpc_url: Option<Seq<char>>,
    later: Seq<Event>,
)
    requires
        !present(database_url) || !present(solana_rpc_url),
    ensures
        first_missing(database_url, solana_rpc_url) is Some,
        ({
            let key = first_missing(database_url, solana_rpc_url)->0;
            let report = config_event(load_outcome(database_url, solana_rpc_url));
            let run = coordinator_run(Phase::LoadingConfig, seq![report] + later);
            &&& report == Event::ConfigMissing(key)
            &&& run.0 == Phase::Aborted(StartupError::ConfigurationMissing(key))
            &&& run.1.len() == later.len() + 1
            &&& run.1[0] == Action::Exit(
                ExitStatus::Failure(StartupError::ConfigurationMissing(key)),
            )
            &&& forall|i: int| 0 <= i < run.1.len() ==> !(#[trigger] run.1[i]).starts_listener()
        }),
{
    let key = first_missing(database_url, solana_rpc_url)->0;
    let report = config_event(load_outcome(database_url, solana_rpc_url));
    let events = seq![report] + later;
    let aborted = Phase::Aborted(StartupError::ConfigurationMissing(key));
    assert(events.drop_first() =~= later);
    final_phase_is_final(aborted, later);
}

/// The failure that aborts startup on an environment that is not valid:
/// a missing setting before a malformed one, the database before the RPC
/// endpoint.
pub open spec fn startup_failure(
    database_url: Option<Seq<char>>,
    solana_rpc_url: Option<Seq<char>>,
) -> StartupError {
    match first_missing(database_url, solana_rpc_url) {
        Some(key) => StartupError::ConfigurationMissing(key),
        None => if !well_formed_endpoint(database_url->0) {
            StartupError::ResourceInitFailed(Resource::DatabasePool)
        } else {
            StartupError::ResourceInitFailed(Resource::RpcClient)
        },
    }
}

/// The events that a caller reports up to the launch of the gateway, when
/// it finds the two values in the environment and performs each step that
/// it is asked for: loading first, then the pool if the configuration was
/// loaded, then the client if the pool was made.
pub open spec fn startup_reports(
    database_url: Option<Seq<char>>,
    solana_rpc_url: Option<Seq<char>>,
) -> Seq<Event> {
    match load_outcome(database_url, solana_rpc_url) {
        Err(e) => seq![config_event(Err(e))],
        Ok(config) => {
            let pool = init_outcome(Resource::DatabasePool, config);
            let client = init_outcome(Resource::RpcClient, config);
            if pool is Err {
                seq![Event::ConfigLoaded, pool_event(pool)]
            } else {
                seq![Event::ConfigLoaded, pool_event(pool), client_event(client)]
            }
        },
    }
}

/// The environment decides whether the process starts its listeners. The
/// gateway is launched exactly when both settings are present and both are
/// well-formed endpoints. Otherwise startup is aborted, with the first
/// failure in the order of the steps, before any listener is started.
pub proof fn startup_needs_a_valid_environment(
    database_url: Option<Seq<char>>,
    solana_rpc_url: Option<Seq<char>>,
)
    ensures
        ({
            let run = coordinator_run(
                Phase::LoadingConfig,
                startup_reports(database_url, solana_rpc_url),
            );
            let valid = present(database_url) && present(solana_rpc_url) && well_formed_endpoint(
                database_url->0,
            ) && well_formed_endpoint(solana_rpc_url->0);
            &&& run.1.len() == startup_reports(database_url, solana_rpc_url).len()
            &&& valid ==> run.0 == Phase::LaunchingGateway && run.1.last()
                == Action::LaunchGateway
            &&& !valid ==> run.0 == Phase::Aborted(
                startup_failure(database_url, solana_rpc_url),
            ) && run.1.last() == Action::Exit(
                ExitStatus::Failure(startup_failure(database_url, solana_rpc_url)),
            )
            &&& !valid ==> forall|i: int|
                0 <= i < run.1.len() ==> !(#[trigger] run.1[i]).starts_listener()
        }),
{
    let reports = startup_reports(database_url, solana_rpc_url);
    let run = coordinator_run(Phase::LoadingConfig, reports);
    reveal_with_fuel(coordinator_run, 4);
    if reports.len() == 1 {
        assert(reports.drop_first().len() == 0);
    } else if reports.len() == 2 {
        assert(reports.drop_first().len() == 1);
        assert(reports.drop_first()[0] == reports[1]);
        assert(reports.drop_first().drop_first().len() == 0);
    } else {
        assert(reports.drop_first().len() == 2);
        assert(reports.drop_first()[0] == reports[1]);
        assert(reports.drop_first().drop_first().len() == 1);
        assert(reports.drop_first().drop_first()[0] == reports[2]);
        assert(reports.drop_first().drop_first().drop_first().len() == 0);
    }
}

/// A startup that ends for want of configuration or of a resource has
/// started no listener: the process serves in full or not at all.
pub proof fn no_partial_service(events: Seq<Event>)
    requires
        coordinator_run(Phase::LoadingConfig, events).0 matches Phase::Aborted(error) && error
            != StartupError::ListenerBindFailed,
    ensures
        forall|i: int|
            0 <= i < coordinator_run(Phase::LoadingConfig, events).1.len() ==> !(
            #[trigger] coordinator_run(Phase::LoadingConfig, events).1[i]).starts_listener(),
{
    early_abort_starts_nothing(Phase::LoadingConfig, events);
}

/// From the launch of the gateway on, only a bind failure can abort.
proof fn late_abort_is_bind_failure(phase: Phase, events: Seq<Event>)
    requires
        (phase.progress() matches Some(done) && done >= 3) || phase == Phase::Aborted(
            StartupError::ListenerBindFailed,
        ),
    ensures
        coordinator_run(phase, events).0 matches Phase::Aborted(error) ==> error
            == StartupError::ListenerBindFailed,
    decreases events.len(),
{
    if events.len() > 0 {
        late_abort_is_bind_failure(coordinator_step(phase, events[0]).0, events.drop_first());
    }
}

/// Before the launch of the gateway, a run that ends aborted for another
/// reason than a bind failure has started no listener.
proof fn early_abort_starts_nothing(phase: Phase, events: Seq<Event>)
    requires
        (phase.progress() matches Some(done) && done <= 2) || (phase matches Phase::Aborted(error)
            && error != StartupError::ListenerBindFailed),
        coordinator_run(phase, events).0 matches Phase::Aborted(error) && error
            != StartupError::ListenerBindFailed,
    ensures
        forall|i: int|
            0 <= i < coordinator_run(phase, events).1.len() ==> !(#[trigger] coordinator_run(
                phase,
                events,
            ).1[i]).starts_listener(),
    decreases events.len(),
{
    if events.len() > 0 {
        let (next, action) = coordinator_step(phase, events[0]);
        let rest = coordinator_run(next, events.drop_first()).1;
        if next == Phase::LaunchingGateway {
            late_abort_is_bind_failure(next, events.drop_first());
        } else {
            early_abort_starts_nothing(next, events.drop_first());
            assert forall|i: int| 0 <= i < (seq![action] + rest).len() implies !(#[trigger] (
                seq![action] + rest)[i]).starts_listener() by {
                if i > 0 {
                    assert((seq![action] + rest)[i] == rest[i - 1]);
                }
            }
        }
    }
}

/// While no termination signal arrives, a serving process goes on serving.
pub proof fn serving_until_signal(events: Seq<Event>)
    requires
        forall|i: int| 0 <= i < events.len() ==> events[i] != Event::TerminationSignal,
    ensures
        coordinator_run(Phase::Serving, events).0 == Phase::Serving,
    decreases events.len(),
{
    if events.len() > 0 {
        serving_until_signal(events.drop_first());
    }
}

/// Shutdown is graceful. The termination signal moves a serving process to
/// `Draining` and asks for the drain; the process stops, with success, only
/// when the drain is reported; and no other path leads to `Stopped`.
pub proof fn graceful_drain(phase: Phase, event: Event)
    ensures
        coordinator_step(Phase::Serving, Event::TerminationSignal) == (
            Phase::Draining,
            Action::Drain,
        ),
        coordinator_step(Phase::Draining, Event::Drained) == (
            Phase::Stopped,
            Action::Exit(ExitStatus::Success),
        ),
        phase == Phase::Draining && event != Event::Drained ==> coordinator_step(phase, event) == (
            Phase::Draining,
            Action::Idle,
        ),
        coordinator_step(phase, event).0 == Phase::Stopped && phase != Phase::Stopped ==> phase
            == Phase::Draining && event == Event::Drained,
        coordinator_step(phase, event).1 == Action::Exit(ExitStatus::Success) ==> phase
            == Phase::Draining && event == Event::Drained,
        coordinator_step(phase, event).1 is Drain ==> phase == Phase::Serving && event
            == Event::TerminationSignal,
{
}


} // verus!
