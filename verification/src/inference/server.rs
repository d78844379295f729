//! How the inference server is put together, started and stopped.
use crate::inference::config::ChassisConfig;
use crate::text::decimal_digits;
use crate::text::decimal_string;
use vstd::prelude::*;
use vstd::string::StringExecFns;

verus! {

/// Seconds between a shutdown message and the moment a server stops
/// accepting connections.
pub const SHUTDOWN_GRACE_SECONDS: u64 = 1;

/// A version of the inference service.
#[derive(Debug, Clone, Copy, PartialEq, Eq, Structural)]
pub enum ServiceVersion {
    /// The batched service.
    V1,
    /// The typed service.
    V2,
}

/// A set of service descriptions that reflection can hand out.
#[derive(Debug, Clone, Copy, PartialEq, Eq, Structural)]
pub enum DescriptorSet {
    /// The health service.
    Health,
    /// One version of the inference service.
    Inference(ServiceVersion),
}

/// What starting the server comes to.
#[derive(Debug)]
pub struct StartupPlan {
    /// The descriptions registered with reflection, in order.
    pub descriptor_sets: Vec<DescriptorSet>,
    /// The services reported as serving by the health service, in order.
    pub services: Vec<ServiceVersion>,
    /// Where the metrics endpoint listens, if it is started.
    pub metrics_address: Option<String>,
    /// Where the inference services listen.
    pub model_address: String,
    /// Whether the reflection service is added to the server.
    pub reflection: bool,
}

/// What makes the server stop.
#[derive(Debug, Clone, Copy, PartialEq, Eq, Structural)]
pub enum ShutdownTrigger {
    /// The termination signal of the operating system.
    Terminate,
    /// The interrupt signal of the operating system.
    Interrupt,
    /// A shutdown request of a client.
    Request,
}

/// A server task that is waited for at a graceful shutdown.
#[derive(Debug, Clone, Copy, PartialEq, Eq, Structural)]
pub enum ServerTask {
    /// The server of the inference services.
    Model,
    /// The server of the metrics endpoint.
    Metrics,
}

/// Where the process stands between start and exit.
#[derive(Debug, Clone, Copy, PartialEq, Eq, Structural)]
pub enum ServerPhase {
    Initializing,
    Serving,
    /// Stopping; `graceful` where the servers are waited for.
    Draining { graceful: bool },
    Terminated,
}

/// What happens to the process.
#[derive(Debug, Clone, Copy, PartialEq, Eq, Structural)]
pub enum ServerEvent {
    /// The servers have been started.
    Started,
    /// Something asks the server to stop.
    Shutdown(ShutdownTrigger),
    /// The wait for the servers is over.
    Drained,
}

/// The address `0.0.0.0` with `port`.
pub open spec fn listen_address(port: u16) -> Seq<char> {
    "0.0.0.0:"@ + decimal_digits(port as nat)
}

/// The address on all interfaces with `port`.
pub fn listen_on(port: u16) -> (address: String)
    ensures
        address@ == listen_address(port),
{
    let mut address = String::from_str("0.0.0.0:");
    address.append(decimal_string(port as u64).as_str());
    address
}

/// The versions among `v1` and `v2` that are switched on, in that order.
pub open spec fn enabled_versions(v1: bool, v2: bool) -> Seq<ServiceVersion> {
    (if v1 {
        seq![ServiceVersion::V1]
    } else {
        seq![]
    }) + (if v2 {
        seq![ServiceVersion::V2]
    } else {
        seq![]
    })
}

/// Whether a shutdown by `trigger` waits for the servers: only a client's
/// request does.
pub open spec fn is_graceful(trigger: ShutdownTrigger) -> bool {
    trigger == ShutdownTrigger::Request
}

/// The phase that follows `phase` when `event` happens.
pub open spec fn next_phase(phase: ServerPhase, event: ServerEvent) -> ServerPhase {
    match (phase, event) {
        (ServerPhase::Initializing, ServerEvent::Started) => ServerPhase::Serving,
        (ServerPhase::Serving, ServerEvent::Shutdown(trigger)) => ServerPhase::Draining {
            graceful: is_graceful(trigger),
        },
        (ServerPhase::Draining { graceful }, ServerEvent::Drained) => ServerPhase::Terminated,
        _ => phase,
    }
}

/// How far a phase is from the start.
pub open spec fn phase_rank(phase: ServerPhase) -> nat {
    match phase {
        ServerPhase::Initializing => 0,
        ServerPhase::Serving => 1,
        ServerPhase::Draining { graceful } => 2,
        ServerPhase::Terminated => 3,
    }
}

/// The phase reached from `phase` after all of `events`, in order.
pub open spec fn phase_after(phase: ServerPhase, events: Seq<ServerEvent>) -> ServerPhase
    decreases events.len(),
{
    if events.len() == 0 {
        phase
    } else {
        next_phase(phase_after(phase, events.drop_last()), events.last())
    }
}

impl ServerPhase {
    /// The phase that follows this one when `event` happens.
    pub fn advance(self, event: ServerEvent) -> (next: ServerPhase)
        ensures
            next == next_phase(self, event),
    {
        match self {
            ServerPhase::Initializing => match event {
                ServerEvent::Started => ServerPhase::Serving,
                _ => self,
            },
            ServerPhase::Serving => match event {
                ServerEvent::Shutdown(trigger) => ServerPhase::Draining {
                    graceful: ShutdownTrigger::waits_for_servers(trigger),
                },
                _ => self,
            },
            ServerPhase::Draining { graceful } => match event {
                ServerEvent::Drained => ServerPhase::Terminated,
                _ => self,
            },
            ServerPhase::Terminated => self,
        }
    }
}

impl ShutdownTrigger {
    /// Whether a shutdown by this trigger waits for the servers to stop.
    pub fn waits_for_servers(self) -> (graceful: bool)
        ensures
            graceful == is_graceful(self),
    {
        match self {
            ShutdownTrigger::Request => true,
            _ => false,
        }
    }
}

/// The server never moves back: whatever happens, the phase stays or moves on
/// by one step, and a terminated server stays terminated.
pub proof fn lemma_phase_moves_forward(phase: ServerPhase, event: ServerEvent)
    ensures
        phase_rank(phase) <= phase_rank(next_phase(phase, event)) <= phase_rank(phase) + 1,
        phase == ServerPhase::Terminated ==> next_phase(phase, event) == ServerPhase::Terminated,
{
}

/// Over any run of events the server never moves back.
pub proof fn lemma_phases_move_forward(phase: ServerPhase, events: Seq<ServerEvent>)
    ensures
        phase_rank(phase) <= phase_rank(phase_after(phase, events)),
    decreases events.len(),
{
    if events.len() > 0 {
        lemma_phases_move_forward(phase, events.drop_last());
        lemma_phase_moves_forward(phase_after(phase, events.drop_last()), events.last());
    }
}

/// The inference server before it is started.
#[derive(Debug)]
pub struct OpenModelServer {
    /// The configuration; read from the environment at start where absent.
    pub config: Option<ChassisConfig>,
    pub metrics_enabled: bool,
    pub reflection_enabled: bool,
    pub v1_service_enabled: bool,
    pub v2_service_enabled: bool,
}

impl OpenModelServer {
    /// A server with metrics, reflection and the batched service switched on.
    pub fn build() -> (server: Self)
        ensures
            server.config is None,
            server.metrics_enabled,
            server.reflection_enabled,
            server.v1_service_enabled,
            !server.v2_service_enabled,
    {
        OpenModelServer {
            config: None,
            metrics_enabled: true,
            reflection_enabled: true,
            v1_service_enabled: true,
            v2_service_enabled: false,
        }
    }

    /// The same server with `config` as its configuration.
    pub fn with_config(self, config: ChassisConfig) -> (server: Self)
        ensures
            server == (OpenModelServer { config: Some(config), ..self }),
    {
        let mut server = self;
        server.config = Some(config);
        server
    }

    /// The same server with the metrics endpoint switched on or off.
    pub fn enable_metrics(self, enabled: bool) -> (server: Self)
        ensures
            server == (OpenModelServer { metrics_enabled: enabled, ..self }),
    {
        let mut server = self;
        server.metrics_enabled = enabled;
        server
    }

    /// The same server with the reflection service switched on or off.
    pub fn enable_reflection(self, enabled: bool) -> (server: Self)
        ensures
            server == (OpenModelServer { reflection_enabled: enabled, ..self }),
    {
        let mut server = self;
        server.reflection_enabled = enabled;
        server
    }

    /// The same server with the batched service switched on or off.
    pub fn enable_v1_service(self, enabled: bool) -> (server: Self)
        ensures
            server == (OpenModelServer { v1_service_enabled: enabled, ..self }),
    {
        let mut server = self;
        server.v1_service_enabled = enabled;
        server
    }

    /// The same server with the typed service switched on or off.
    pub fn enable_v2_service(self, enabled: bool) -> (server: Self)
        ensures
            server == (OpenModelServer { v2_service_enabled: enabled, ..self }),
    {
        let mut server = self;
        server.v2_service_enabled = enabled;
        server
    }

    /// Whether the configuration has yet to be read from the environment.
    pub fn needs_configuration(&self) -> (needed: bool)
        ensures
            needed == (self.config is None),
    {
        self.config.is_none()
    }

    /// The services that this server offers, in the order in which they are
    /// added.
    pub open spec fn services_spec(&self) -> Seq<ServiceVersion> {
        enabled_versions(self.v1_service_enabled, self.v2_service_enabled)
    }

    /// What starting this server with `config` comes to: reflection knows the
    /// health service and each service that is switched on; the metrics endpoint
    /// listens on its port where it is switched on; the inference services
    /// listen on the model's port.
    pub fn plan(&self, config: &ChassisConfig) -> (plan: StartupPlan)
        ensures
            plan.descriptor_sets@ == seq![DescriptorSet::Health] + self.services_spec().map_values(
                |v: ServiceVersion| DescriptorSet::Inference(v),
            ),
            plan.services@ == self.services_spec(),
            plan.metrics_address is Some == self.metrics_enabled,
            plan.metrics_address matches Some(address) ==> address@ == listen_address(
                config.metrics.port,
            ),
            plan.model_address@ == listen_address(config.model.port),
            plan.reflection == self.reflection_enabled,
    {
        let mut descriptor_sets: Vec<DescriptorSet> = Vec::new();
        let mut services: Vec<ServiceVersion> = Vec::new();
        descriptor_sets.push(DescriptorSet::Health);
        if self.v1_service_enabled {
            descriptor_sets.push(DescriptorSet::Inference(ServiceVersion::V1));
            services.push(ServiceVersion::V1);
        }
        if self.v2_service_enabled {
            descriptor_sets.push(DescriptorSet::Inference(ServiceVersion::V2));
            services.push(ServiceVersion::V2);
        }
        let metrics_address = if self.metrics_enabled {
            Some(listen_on(config.metrics.port))
        } else {
            None
        };
        assert(services@ =~= self.services_spec());
        assert(descriptor_sets@ =~= seq![DescriptorSet::Health] + self.services_spec().map_values(
            |v: ServiceVersion| DescriptorSet::Inference(v),
        ));
        StartupPlan {
            descriptor_sets,
            services,
            metrics_address,
            model_address: listen_on(config.model.port),
            reflection: self.reflection_enabled,
        }
    }

    /// The server tasks that a shutdown by `trigger` waits for, in order: none
    /// unless a client asked for the shutdown; then the model server and, where
    /// it was started, the metrics server.
    pub open spec fn awaited_tasks_spec(&self, trigger: ShutdownTrigger) -> Seq<ServerTask> {
        if !is_graceful(trigger) {
            seq![]
        } else if self.metrics_enabled {
            seq![ServerTask::Model, ServerTask::Metrics]
        } else {
            seq![ServerTask::Model]
        }
    }

    /// The server tasks that a shutdown by `trigger` waits for, in order.
    pub fn awaited_tasks(&self, trigger: ShutdownTrigger) -> (tasks: Vec<ServerTask>)
        ensures
            tasks@ == self.awaited_tasks_spec(trigger),
    {
        let mut tasks: Vec<ServerTask> = Vec::new();
        if trigger.waits_for_servers() {
            tasks.push(ServerTask::Model);
            if self.metrics_enabled {
                tasks.push(ServerTask::Metrics);
            }
        }
        assert(tasks@ =~= self.awaited_tasks_spec(trigger));
        tasks
    }
}

} // verus!
