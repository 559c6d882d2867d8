//! The agent's decisions: whether it can start, where it sends its data, when
//! it retries registration, and when it sends a heartbeat.
//!
//! The agent is a state machine: each answer from the server, and each
//! finished telemetry cycle, is an event; `AgentMachine::step` gives the next
//! state and the action to perform. The caller performs the actions (network,
//! sleeping, sampling the machine) and feeds the outcomes back in.
use vstd::prelude::*;

use crate::config::AppConfig;
use crate::models::RegisterNodeRequest;
use crate::text::{has_visible_char, is_not_blank, trim_trailing_slashes, without_trailing_slashes};

verus! {

/// Seconds to wait after a failed registration before trying again.
pub const REGISTRATION_RETRY_SECS: u64 = 5;

/// A failed registration is reported once every this many attempts.
pub const REGISTRATION_REPORT_EVERY: i32 = 12;

/// Host name registered when it cannot be read.
pub const UNKNOWN_HOSTNAME: &'static str = "unknown";

/// Shortest heartbeat interval in seconds.
pub const MIN_HEARTBEAT_INTERVAL_SECS: i64 = 5;

/// Why an agent cannot start.
#[derive(Clone, Copy, Debug, PartialEq, Eq, Structural)]
pub enum AgentStartError {
    /// No `CLOUDMESH_SERVER_URL` is configured.
    MissingServerUrl,
    /// `CLOUDMESH_API_KEY` is missing or blank.
    MissingApiKey,
}

/// The agent for one node.
pub struct AgentWorker {
    pub config: AppConfig,
}

/// What a started agent works with.
#[derive(Clone, Debug)]
pub struct AgentPlan {
    /// The server URL without trailing slashes.
    pub server_url: String,
    pub api_key: String,
    pub node_id: String,
    pub telemetry_interval_secs: u64,
    pub heartbeat_interval_secs: u64,
}

/// `t / 2` rounded toward zero, as Rust's integer division does.
pub open spec fn half_toward_zero(t: int) -> int {
    if t >= 0 {
        t / 2
    } else {
        -((-t) / 2)
    }
}

/// The heartbeat interval for an offline threshold: half the threshold, and
/// no less than five seconds.
pub open spec fn heartbeat_interval(offline_threshold_secs: i64) -> int {
    if half_toward_zero(offline_threshold_secs as int) >= MIN_HEARTBEAT_INTERVAL_SECS {
        half_toward_zero(offline_threshold_secs as int)
    } else {
        MIN_HEARTBEAT_INTERVAL_SECS as int
    }
}

/// Seconds between heartbeats: `max(offline_threshold_secs / 2, 5)`.
pub fn heartbeat_interval_secs(offline_threshold_secs: i64) -> (secs: u64)
    ensures
        secs == heartbeat_interval(offline_threshold_secs),
        secs >= 5,
{
    if offline_threshold_secs >= 10 {
        (offline_threshold_secs / 2) as u64
    } else {
        5
    }
}

/// The plan of an agent with this configuration, or why it cannot start.
pub open spec fn spec_plan(config: AppConfig) -> Result<
    (Seq<char>, Seq<char>, Seq<char>, u64, int),
    AgentStartError,
> {
    match config.cloudmesh_server_url {
        None => Err(AgentStartError::MissingServerUrl),
        Some(url) => match config.api_key {
            Some(key) if has_visible_char(key@) => Ok(
                (
                    trim_trailing_slashes(url@),
                    key@,
                    config.node_id@,
                    config.telemetry_interval_secs,
                    heartbeat_interval(config.offline_threshold_secs),
                ),
            ),
            _ => Err(AgentStartError::MissingApiKey),
        },
    }
}

impl AgentPlan {
    pub open spec fn parts(self) -> (Seq<char>, Seq<char>, Seq<char>, u64, int) {
        (
            self.server_url@,
            self.api_key@,
            self.node_id@,
            self.telemetry_interval_secs,
            self.heartbeat_interval_secs as int,
        )
    }

    /// Where the node registers: `{server}/api/nodes`.
    pub fn register_url(&self) -> (url: String)
        ensures
            url@ == self.server_url@ + "/api/nodes"@,
    {
        self.server_url.clone().concat("/api/nodes")
    }

    /// Where telemetry goes: `{server}/api/nodes/{node_id}/telemetry`.
    pub fn telemetry_url(&self) -> (url: String)
        ensures
            url@ == self.server_url@ + "/api/nodes/"@ + self.node_id@ + "/telemetry"@,
    {
        self.server_url.clone().concat("/api/nodes/").concat(self.node_id.as_str()).concat(
            "/telemetry",
        )
    }

    /// Where heartbeats go: `{server}/api/nodes/{node_id}/heartbeat`.
    pub fn heartbeat_url(&self) -> (url: String)
        ensures
            url@ == self.server_url@ + "/api/nodes/"@ + self.node_id@ + "/heartbeat"@,
    {
        self.server_url.clone().concat("/api/nodes/").concat(self.node_id.as_str()).concat(
            "/heartbeat",
        )
    }

    /// The registration request of this node, from the machine's host name
    /// (`None` where it cannot be read), operating system, architecture and
    /// agent version.
    pub fn registration_request(
        &self,
        hostname: Option<String>,
        os: String,
        architecture: String,
        agent_version: String,
    ) -> (req: RegisterNodeRequest)
        ensures
            req.node_id@ == self.node_id@,
            req.hostname@ == (match hostname {
                Some(h) => h@,
                None => UNKNOWN_HOSTNAME@,
            }),
            req.os == os,
            req.architecture == architecture,
            req.agent_version == agent_version,
    {
        let hostname = match hostname {
            Some(h) => h,
            None => String::from_str(UNKNOWN_HOSTNAME),
        };
        RegisterNodeRequest {
            node_id: self.node_id.clone(),
            hostname,
            os,
            architecture,
            agent_version,
        }
    }
}

impl AgentWorker {
    pub fn new(config: AppConfig) -> (w: Self)
        ensures
            w.config == config,
    {
        AgentWorker { config }
    }

    /// The plan that the agent runs with: it needs a server URL and an API key
    /// that is not blank.
    pub fn plan(&self) -> (r: Result<AgentPlan, AgentStartError>)
        ensures
            match r {
                Ok(p) => spec_plan(self.config) == Ok::<_, AgentStartError>(p.parts()),
                Err(e) => spec_plan(self.config) == Err::<
                    (Seq<char>, Seq<char>, Seq<char>, u64, int),
                    AgentStartError,
                >(e),
            },
    {
        let server_url = match &self.config.cloudmesh_server_url {
            Some(url) => without_trailing_slashes(url.as_str()),
            None => {
                return Err(AgentStartError::MissingServerUrl);
            },
        };
        let api_key = match &self.config.api_key {
            Some(key) => {
                if is_not_blank(key.as_str()) {
                    key.clone()
                } else {
                    return Err(AgentStartError::MissingApiKey);
                }
            },
            None => {
                return Err(AgentStartError::MissingApiKey);
            },
        };
        Ok(
            AgentPlan {
                server_url,
                api_key,
                node_id: self.config.node_id.clone(),
                telemetry_interval_secs: self.config.telemetry_interval_secs,
                heartbeat_interval_secs: heartbeat_interval_secs(
                    self.config.offline_threshold_secs,
                ),
            },
        )
    }
}

/// Where the agent stands.
#[derive(Clone, Copy, Debug, PartialEq, Eq, Structural)]
pub enum AgentPhase {
    /// The node is not registered yet.
    Registering,
    /// The node is registered; the agent sends telemetry and heartbeats.
    Reporting,
}

/// What happened since the last step.
#[derive(Clone, Copy, Debug, PartialEq, Eq, Structural)]
pub enum AgentEvent {
    /// The server answered a registration request (or could not be reached,
    /// which counts as not accepted).
    RegistrationAnswered { accepted: bool },
    /// A telemetry cycle ended; `secs_since_heartbeat` whole seconds have passed
    /// since the heartbeat clock last started.
    CycleFinished { secs_since_heartbeat: u64 },
    /// The server answered a heartbeat.
    HeartbeatAnswered { accepted: bool },
}

/// What to do next.
#[derive(Clone, Copy, Debug, PartialEq, Eq, Structural)]
pub enum AgentAction {
    /// Send the registration request.
    Register,
    /// Wait `delay_secs`, report the number of attempts where it is `Some`,
    /// then send the registration request again.
    RetryRegistration { delay_secs: u64, report_attempts: Option<i32> },
    /// Registration succeeded: take and discard a first sample, start the
    /// heartbeat clock, then run a telemetry cycle.
    BeginReporting,
    /// Wait the telemetry interval, take a sample and send it.
    NextCycle,
    /// Send a heartbeat.
    SendHeartbeat,
    /// The heartbeat was accepted: restart the heartbeat clock, then run a
    /// telemetry cycle.
    RestartHeartbeatClock,
}

/// The agent's state: its phase, the failed registration attempts, and the
/// heartbeat interval that it keeps.
#[derive(Clone, Copy, Debug, PartialEq, Eq, Structural)]
pub struct AgentMachine {
    pub phase: AgentPhase,
    pub attempts: i32,
    pub heartbeat_interval_secs: u64,
}

/// The state after `event`, and the action to perform.
pub open spec fn agent_next(m: AgentMachine, event: AgentEvent) -> (AgentMachine, AgentAction) {
    match (m.phase, event) {
        (AgentPhase::Registering, AgentEvent::RegistrationAnswered { accepted }) => if accepted {
            (AgentMachine { phase: AgentPhase::Reporting, ..m }, AgentAction::BeginReporting)
        } else {
            let attempts = next_attempt(m.attempts);
            (
                AgentMachine { attempts, ..m },
                AgentAction::RetryRegistration {
                    delay_secs: REGISTRATION_RETRY_SECS,
                    report_attempts: if attempts % REGISTRATION_REPORT_EVERY == 0 {
                        Some(attempts)
                    } else {
                        None
                    },
                },
            )
        },
        (AgentPhase::Registering, _) => (m, AgentAction::Register),
        (AgentPhase::Reporting, AgentEvent::CycleFinished { secs_since_heartbeat }) => {
            if secs_since_heartbeat >= m.heartbeat_interval_secs {
                (m, AgentAction::SendHeartbeat)
            } else {
                (m, AgentAction::NextCycle)
            }
        },
        (AgentPhase::Reporting, AgentEvent::HeartbeatAnswered { accepted }) => if accepted {
            (m, AgentAction::RestartHeartbeatClock)
        } else {
            (m, AgentAction::NextCycle)
        },
        (AgentPhase::Reporting, AgentEvent::RegistrationAnswered { .. }) => (
            m,
            AgentAction::NextCycle,
        ),
    }
}

/// The failed-attempt counter after one more failure; it wraps around at
/// `i32::MAX`, as the counter of a release build does.
pub open spec fn next_attempt(attempts: i32) -> i32 {
    if attempts == i32::MAX {
        i32::MIN
    } else {
        (attempts + 1) as i32
    }
}

/// The event would count one more failed registration.
pub open spec fn counts_failure(m: AgentMachine, event: AgentEvent) -> bool {
    m.phase == AgentPhase::Registering && event == (AgentEvent::RegistrationAnswered {
        accepted: false,
    })
}

impl AgentMachine {
    /// A machine that has not registered yet, with the plan's heartbeat
    /// interval, and its first action: register.
    pub fn start(plan: &AgentPlan) -> (r: (AgentMachine, AgentAction))
        ensures
            r.0.phase == AgentPhase::Registering,
            r.0.attempts == 0,
            r.0.heartbeat_interval_secs == plan.heartbeat_interval_secs,
            r.1 == AgentAction::Register,
    {
        (
            AgentMachine {
                phase: AgentPhase::Registering,
                attempts: 0,
                heartbeat_interval_secs: plan.heartbeat_interval_secs,
            },
            AgentAction::Register,
        )
    }

    /// Moves to the next state and gives the action to perform.
    pub fn step(&mut self, event: AgentEvent) -> (action: AgentAction)
        ensures
            (*final(self), action) == agent_next(*old(self), event),
    {
        match (self.phase, event) {
            (AgentPhase::Registering, AgentEvent::RegistrationAnswered { accepted }) => {
                if accepted {
                    self.phase = AgentPhase::Reporting;
                    AgentAction::BeginReporting
                } else {
                    self.attempts = if self.attempts == i32::MAX {
                        i32::MIN
                    } else {
                        self.attempts + 1
                    };
                    let report = if self.attempts % REGISTRATION_REPORT_EVERY == 0 {
                        Some(self.attempts)
                    } else {
                        None
                    };
                    AgentAction::RetryRegistration {
                        delay_secs: REGISTRATION_RETRY_SECS,
                        report_attempts: report,
                    }
                }
            },
            (AgentPhase::Registering, _) => AgentAction::Register,
            (AgentPhase::Reporting, AgentEvent::CycleFinished { secs_since_heartbeat }) => {
                if secs_since_heartbeat >= self.heartbeat_interval_secs {
                    AgentAction::SendHeartbeat
                } else {
                    AgentAction::NextCycle
                }
            },
            (AgentPhase::Reporting, AgentEvent::HeartbeatAnswered { accepted }) => {
                if accepted {
                    AgentAction::RestartHeartbeatClock
                } else {
                    AgentAction::NextCycle
                }
            },
            (AgentPhase::Reporting, AgentEvent::RegistrationAnswered { .. }) => {
                AgentAction::NextCycle
            },
        }
    }
}

/// The agent starts reporting only after the server accepted its
/// registration, and once reporting it never goes back to registering.
pub proof fn lemma_reporting_needs_accepted_registration(m: AgentMachine, event: AgentEvent)
    ensures
        m.phase == AgentPhase::Registering && agent_next(m, event).0.phase
            == AgentPhase::Reporting ==> event == (AgentEvent::RegistrationAnswered {
            accepted: true,
        }),
        m.phase == AgentPhase::Reporting ==> agent_next(m, event).0.phase == AgentPhase::Reporting,
{
}

/// No telemetry or heartbeat is sent while the node is not registered.
pub proof fn lemma_registering_sends_only_registrations(m: AgentMachine, event: AgentEvent)
    ensures
        m.phase == AgentPhase::Registering ==> match agent_next(m, event).1 {
            AgentAction::Register => true,
            AgentAction::RetryRegistration { .. } => true,
            AgentAction::BeginReporting => true,
            _ => false,
        },
{
}

/// A heartbeat is sent only at the end of a telemetry cycle, and exactly when
/// at least the heartbeat interval has passed since the heartbeat clock
/// started.
pub proof fn lemma_heartbeat_only_when_due(m: AgentMachine, secs: u64)
    requires
        m.phase == AgentPhase::Reporting,
    ensures
        (agent_next(m, AgentEvent::CycleFinished { secs_since_heartbeat: secs }).1
            == AgentAction::SendHeartbeat) <==> secs >= m.heartbeat_interval_secs,
        forall|e: AgentEvent|
            #![trigger agent_next(m, e)]
            agent_next(m, e).1 == AgentAction::SendHeartbeat ==> e is CycleFinished,
{
}

/// A failed registration is retried after five seconds, and every twelfth
/// failure in a row is reported with the number of attempts.
pub proof fn lemma_failed_registration_retries(m: AgentMachine)
    requires
        m.phase == AgentPhase::Registering,
    ensures
        ({
            let (next, action) = agent_next(m, AgentEvent::RegistrationAnswered { accepted: false });
            &&& next.phase == AgentPhase::Registering
            &&& next.attempts == next_attempt(m.attempts)
            &&& action == (AgentAction::RetryRegistration {
                delay_secs: 5,
                report_attempts: if next_attempt(m.attempts) % 12 == 0 {
                    Some(next_attempt(m.attempts))
                } else {
                    None
                },
            })
        }),
{
}

/// Registration never gives up: from any registering state, however many
/// attempts failed before, every answer other than an acceptance leaves the
/// agent registering and leads to another registration request (at once, or
/// after the five-second pause).
pub proof fn lemma_registration_never_gives_up(m: AgentMachine, event: AgentEvent)
    requires
        m.phase == AgentPhase::Registering,
        event != (AgentEvent::RegistrationAnswered { accepted: true }),
    ensures
        agent_next(m, event).0.phase == AgentPhase::Registering,
        agent_next(m, event).1 == AgentAction::Register || (agent_next(m, event).1 matches AgentAction::RetryRegistration { delay_secs, .. } && delay_secs == 5),
{
}


/// The heartbeat interval is fixed for the agent's whole life: no event
/// changes it. Once reporting, the failed-attempt count is not touched
/// either.
pub proof fn lemma_interval_never_changes(m: AgentMachine, event: AgentEvent)
    ensures
        agent_next(m, event).0.heartbeat_interval_secs == m.heartbeat_interval_secs,
        m.phase == AgentPhase::Reporting ==> agent_next(m, event).0 == m,
{
}

/// The heartbeat interval is half the threshold, rounded down, for
/// thresholds of ten seconds or more, and five seconds below that.
pub proof fn lemma_heartbeat_interval_is_half_the_threshold(t: i64)
    ensures
        t >= 10 ==> 2 * heartbeat_interval(t) <= t < 2 * heartbeat_interval(t) + 2,
        t < 10 ==> heartbeat_interval(t) == 5,
        heartbeat_interval(t) >= 5,
{
}

/// An agent starts exactly when a server URL is configured and the API key
/// has a character that is not whitespace; its server URL is then the
/// configured one up to trailing slashes: a prefix of it that does not end in
/// `'/'`, followed in it only by `'/'`.
pub proof fn lemma_plan_needs_url_and_key(config: AppConfig)
    ensures
        spec_plan(config) is Ok <==> (config.cloudmesh_server_url is Some && (config.api_key matches Some(
            k,
        ) && exists|i: int| 0 <= i < k@.len() && !crate::text::is_white_space(#[trigger] k@[i]))),
        config.cloudmesh_server_url is None ==> spec_plan(config) == Err::<
            (Seq<char>, Seq<char>, Seq<char>, u64, int),
            AgentStartError,
        >(AgentStartError::MissingServerUrl),
        spec_plan(config) matches Ok(p) ==> ({
            let url = config.cloudmesh_server_url.unwrap()@;
            &&& p.0 == url.take(p.0.len() as int)
            &&& p.0.len() <= url.len()
            &&& (p.0.len() > 0 ==> p.0.last() != '/')
            &&& forall|i: int| p.0.len() <= i < url.len() ==> url[i] == '/'
            &&& p.1 == config.api_key.unwrap()@
            &&& p.2 == config.node_id@
        }),
{
    if let Some(url) = config.cloudmesh_server_url {
        crate::text::lemma_trim_trailing_slashes_shape(url@);
    }
}


/// While reporting, an accepted heartbeat restarts the heartbeat clock, a
/// rejected one leaves it running and goes on with the next cycle; while
/// registering, an accepted registration begins reporting.
pub proof fn lemma_answers_lead_on(m: AgentMachine)
    ensures
        m.phase == AgentPhase::Reporting ==> agent_next(
            m,
            AgentEvent::HeartbeatAnswered { accepted: true },
        ).1 == AgentAction::RestartHeartbeatClock,
        m.phase == AgentPhase::Reporting ==> agent_next(
            m,
            AgentEvent::HeartbeatAnswered { accepted: false },
        ).1 == AgentAction::NextCycle,
        m.phase == AgentPhase::Registering ==> agent_next(
            m,
            AgentEvent::RegistrationAnswered { accepted: true },
        ) == (AgentMachine { phase: AgentPhase::Reporting, ..m }, AgentAction::BeginReporting),
{
}

} // verus!
