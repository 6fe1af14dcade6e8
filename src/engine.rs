use vstd::prelude::*;

use crate::error::BootstrapError;
use crate::subscriber::{BlockNotice, Delivery, Registry, Subscriber, TonSubscriber, delivered_to_each};

verus! {

/// Where the engine stands in its startup. There is no way back and no
/// stopped phase: a running engine runs for the life of the process.
#[derive(Clone, Copy, Debug, PartialEq, Eq, Structural)]
pub enum EnginePhase {
    /// The runtime configuration is being built from the node settings.
    BuildingConfig,
    /// The runtime is being constructed with the subscribers.
    ConstructingRuntime,
    /// The runtime exists and waits for `start`.
    Constructed,
    /// The runtime is beginning to operate.
    StartingRuntime,
    /// The runtime operates and delivers blocks on its own.
    Running,
    /// Startup ended with this failure.
    Failed(BootstrapError),
}

/// What the runtime side reports back to the engine.
#[derive(Clone, Copy, Debug, PartialEq, Eq, Structural)]
pub enum EngineEvent {
    IndexerConfigBuilt,
    IndexerConfigFailed,
    RuntimeConstructed,
    RuntimeConstructionFailed,
    RuntimeStarted,
    RuntimeStartFailed,
}

/// The outside work that the engine asks for next.
#[derive(Clone, Copy, Debug, PartialEq, Eq, Structural)]
pub enum EngineAction {
    /// Resolve the node settings into a runtime configuration.
    BuildIndexerConfig,
    /// Construct the runtime with the configuration and the subscribers.
    ConstructRuntime,
    /// Nothing until `start` is called.
    AwaitStart,
    /// Make the constructed runtime begin operating.
    StartRuntime,
    /// Keep the process alive while the runtime delivers blocks.
    Suspend,
    /// Report the failure and end the process.
    Fail(BootstrapError),
}

/// The phase after an event: each awaited outcome moves one step on, each
/// failure ends startup with its own error, and any other event changes
/// nothing.
pub open spec fn phase_after(phase: EnginePhase, event: EngineEvent) -> EnginePhase {
    match (phase, event) {
        (EnginePhase::BuildingConfig, EngineEvent::IndexerConfigBuilt) => EnginePhase::ConstructingRuntime,
        (EnginePhase::BuildingConfig, EngineEvent::IndexerConfigFailed) => EnginePhase::Failed(
            BootstrapError::IndexerConfigBuildError,
        ),
        (EnginePhase::ConstructingRuntime, EngineEvent::RuntimeConstructed) => EnginePhase::Constructed,
        (EnginePhase::ConstructingRuntime, EngineEvent::RuntimeConstructionFailed) => EnginePhase::Failed(
            BootstrapError::EngineStartError,
        ),
        (EnginePhase::StartingRuntime, EngineEvent::RuntimeStarted) => EnginePhase::Running,
        (EnginePhase::StartingRuntime, EngineEvent::RuntimeStartFailed) => EnginePhase::Failed(
            BootstrapError::EngineRuntimeError,
        ),
        _ => phase,
    }
}

/// The phase after `start`: only a constructed engine starts.
pub open spec fn phase_after_start(phase: EnginePhase) -> EnginePhase {
    match phase {
        EnginePhase::Constructed => EnginePhase::StartingRuntime,
        _ => phase,
    }
}

/// The work that a phase waits for.
pub open spec fn action_of(phase: EnginePhase) -> EngineAction {
    match phase {
        EnginePhase::BuildingConfig => EngineAction::BuildIndexerConfig,
        EnginePhase::ConstructingRuntime => EngineAction::ConstructRuntime,
        EnginePhase::Constructed => EngineAction::AwaitStart,
        EnginePhase::StartingRuntime => EngineAction::StartRuntime,
        EnginePhase::Running => EngineAction::Suspend,
        EnginePhase::Failed(e) => EngineAction::Fail(e),
    }
}

/// Node settings that cannot be resolved into a runtime configuration end
/// startup with `IndexerConfigBuildError` before any runtime is constructed,
/// and a failed engine stays failed: whatever is reported or asked after,
/// it asks for no construction and no start.
pub proof fn lemma_config_failure_stops_startup(event: EngineEvent)
    ensures
        phase_after(EnginePhase::BuildingConfig, EngineEvent::IndexerConfigFailed)
            == EnginePhase::Failed(BootstrapError::IndexerConfigBuildError),
        action_of(phase_after(EnginePhase::BuildingConfig, EngineEvent::IndexerConfigFailed))
            == EngineAction::Fail(BootstrapError::IndexerConfigBuildError),
        phase_after(EnginePhase::Failed(BootstrapError::IndexerConfigBuildError), event)
            == EnginePhase::Failed(BootstrapError::IndexerConfigBuildError),
        phase_after_start(EnginePhase::Failed(BootstrapError::IndexerConfigBuildError))
            == EnginePhase::Failed(BootstrapError::IndexerConfigBuildError),
{
}

/// The lifecycle only moves forward: no event leads back to building the
/// configuration, a running engine stays running, and only a constructed
/// engine is started, so an engine starts at most once.
pub proof fn lemma_lifecycle_moves_forward(phase: EnginePhase, event: EngineEvent)
    ensures
        phase != EnginePhase::BuildingConfig ==> phase_after(phase, event) != EnginePhase::BuildingConfig,
        phase == EnginePhase::Running ==> phase_after(phase, event) == EnginePhase::Running,
        phase == EnginePhase::Running ==> phase_after_start(phase) == EnginePhase::Running,
        phase_after_start(phase) == EnginePhase::StartingRuntime ==> phase == EnginePhase::Constructed
            || phase == EnginePhase::StartingRuntime,
{
}

fn action_for(phase: EnginePhase) -> (r: EngineAction)
    ensures
        r == action_of(phase),
{
    match phase {
        EnginePhase::BuildingConfig => EngineAction::BuildIndexerConfig,
        EnginePhase::ConstructingRuntime => EngineAction::ConstructRuntime,
        EnginePhase::Constructed => EngineAction::AwaitStart,
        EnginePhase::StartingRuntime => EngineAction::StartRuntime,
        EnginePhase::Running => EngineAction::Suspend,
        EnginePhase::Failed(e) => EngineAction::Fail(e),
    }
}

/// The engine: the fixed set of subscribers that the runtime is built with,
/// and the startup phase.
pub struct Engine {
    registry: Registry,
    phase: EnginePhase,
}

impl Engine {
    pub closed spec fn state(&self) -> EnginePhase {
        self.phase
    }

    pub closed spec fn subscribers(&self) -> Seq<Subscriber> {
        self.registry.subscribers()
    }

    /// An engine about to build its runtime configuration. Its own
    /// subscriber comes first and cannot be removed; the given ones follow
    /// in their order.
    pub fn new(extra: Vec<Subscriber>) -> (r: Engine)
        ensures
            r.state() == EnginePhase::BuildingConfig,
            r.subscribers().len() == extra@.len() + 1,
            r.subscribers()[0] is Ton,
            r.subscribers().subrange(1, r.subscribers().len() as int) == extra@,
    {
        let ghost given = extra@;
        let mut extra = extra;
        let mut all: Vec<Subscriber> = Vec::new();
        all.push(Subscriber::Ton(TonSubscriber::new()));
        all.append(&mut extra);
        assert(all@.subrange(1, all@.len() as int) =~= given);
        Engine { registry: Registry::new(all), phase: EnginePhase::BuildingConfig }
    }

    pub fn phase(&self) -> (p: EnginePhase)
        ensures
            p == self.state(),
    {
        self.phase
    }

    /// The outside work that the current phase waits for.
    pub fn pending(&self) -> (r: EngineAction)
        ensures
            r == action_of(self.state()),
    {
        action_for(self.phase)
    }

    /// Takes in what the runtime side reports and says what to do next.
    pub fn handle(&mut self, event: EngineEvent) -> (r: EngineAction)
        ensures
            final(self).state() == phase_after(old(self).state(), event),
            final(self).subscribers() == old(self).subscribers(),
            r == action_of(final(self).state()),
    {
        let next = match (self.phase, event) {
            (EnginePhase::BuildingConfig, EngineEvent::IndexerConfigBuilt) => EnginePhase::ConstructingRuntime,
            (EnginePhase::BuildingConfig, EngineEvent::IndexerConfigFailed) => EnginePhase::Failed(
                BootstrapError::IndexerConfigBuildError,
            ),
            (EnginePhase::ConstructingRuntime, EngineEvent::RuntimeConstructed) => EnginePhase::Constructed,
            (EnginePhase::ConstructingRuntime, EngineEvent::RuntimeConstructionFailed) => EnginePhase::Failed(
                BootstrapError::EngineStartError,
            ),
            (EnginePhase::StartingRuntime, EngineEvent::RuntimeStarted) => EnginePhase::Running,
            (EnginePhase::StartingRuntime, EngineEvent::RuntimeStartFailed) => EnginePhase::Failed(
                BootstrapError::EngineRuntimeError,
            ),
            _ => self.phase,
        };
        self.phase = next;
        action_for(next)
    }

    /// Asks the constructed runtime to begin operating. An engine in any
    /// other phase, a running one included, is left as it is.
    pub fn start(&mut self) -> (r: EngineAction)
        ensures
            final(self).state() == phase_after_start(old(self).state()),
            final(self).subscribers() == old(self).subscribers(),
            r == action_of(final(self).state()),
    {
        if self.phase == EnginePhase::Constructed {
            self.phase = EnginePhase::StartingRuntime;
        }
        action_for(self.phase)
    }

    /// Hands a processed block to every subscriber.
    pub fn notify(&self, notice: &BlockNotice) -> (r: Vec<Delivery>)
        ensures
            delivered_to_each(self.subscribers(), *notice, r@),
    {
        self.registry.notify(notice)
    }
}

} // verus!
