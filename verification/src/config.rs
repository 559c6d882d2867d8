//! Service configuration, assembled from the values of the environment.
use vstd::prelude::*;

use crate::numbers::{parse_i64, parse_u64, spec_parse_i64, spec_parse_u64};

verus! {

/// Where the local agent reports when the process runs as a server and no
/// server URL is configured.
pub const DEFAULT_SERVER_URL: &'static str = "http://127.0.0.1:3000";

/// Node id when neither `NODE_ID` nor the host name is known.
pub const UNKNOWN_NODE_ID: &'static str = "unknown-node";

/// Seconds between telemetry samples when `TELEMETRY_INTERVAL` is absent or
/// not a number.
pub const DEFAULT_TELEMETRY_INTERVAL_SECS: u64 = 5;

/// Seconds of silence after which a node counts as offline when
/// `OFFLINE_THRESHOLD` is absent or not a number.
pub const DEFAULT_OFFLINE_THRESHOLD_SECS: i64 = 30;

#[derive(Clone, Debug)]
pub struct AppConfig {
    pub database_url: Option<String>,
    pub cloudmesh_server_url: Option<String>,
    pub api_key: Option<String>,
    pub node_id: String,
    pub telemetry_interval_secs: u64,
    pub offline_threshold_secs: i64,
}

/// How the process runs.
#[derive(Clone, Copy, Debug, PartialEq, Eq, Structural)]
pub enum LaunchMode {
    /// Serve the API; also run an agent for this machine where a server URL
    /// is known.
    Server { local_agent: bool },
    /// Run only the agent.
    AgentOnly,
    /// Neither a database nor a server URL is configured: the process cannot
    /// run.
    MissingServerUrl,
}

pub open spec fn spec_launch_mode(c: AppConfig) -> LaunchMode {
    if c.database_url is Some {
        LaunchMode::Server { local_agent: c.cloudmesh_server_url is Some }
    } else if c.cloudmesh_server_url is Some {
        LaunchMode::AgentOnly
    } else {
        LaunchMode::MissingServerUrl
    }
}

/// Whether the `.env` file is read before the configuration: not where the
/// shell sets a server URL and no database URL, which makes the process an
/// agent that the file's database URL must not turn into a server.
pub fn reads_env_file(shell_has_server_url: bool, shell_has_database_url: bool) -> (r: bool)
    ensures
        r == !(shell_has_server_url && !shell_has_database_url),
{
    !(shell_has_server_url && !shell_has_database_url)
}

/// The raw values that configuration is read from: the environment variables
/// `DATABASE_URL`, `CLOUDMESH_SERVER_URL`, `CLOUDMESH_API_KEY`, `NODE_ID`,
/// `TELEMETRY_INTERVAL` and `OFFLINE_THRESHOLD` (each `None` where unset or not
/// Unicode), and the machine's host name (`None` where it cannot be read).
#[derive(Clone, Debug)]
pub struct ConfigSource {
    pub database_url: Option<String>,
    pub cloudmesh_server_url: Option<String>,
    pub api_key: Option<String>,
    pub node_id: Option<String>,
    pub hostname: Option<String>,
    pub telemetry_interval: Option<String>,
    pub offline_threshold: Option<String>,
}

/// An optional text setting read as a `u64`, with a default where it is absent
/// or does not parse.
pub open spec fn u64_setting(raw: Option<String>, default: u64) -> u64 {
    match raw {
        Some(s) => match spec_parse_u64(s@) {
            Some(v) => v,
            None => default,
        },
        None => default,
    }
}

/// An optional text setting read as an `i64`, with a default where it is absent
/// or does not parse.
pub open spec fn i64_setting(raw: Option<String>, default: i64) -> i64 {
    match raw {
        Some(s) => match spec_parse_i64(s@) {
            Some(v) => v,
            None => default,
        },
        None => default,
    }
}

/// The server URL: the configured one, else the local default on a server,
/// else none.
pub open spec fn server_url_setting(source: ConfigSource) -> Option<Seq<char>> {
    match source.cloudmesh_server_url {
        Some(u) => Some(u@),
        None => if source.database_url is Some {
            Some(DEFAULT_SERVER_URL@)
        } else {
            None
        },
    }
}

/// The node id: `NODE_ID`, else the host name, else `unknown-node`.
pub open spec fn node_id_setting(source: ConfigSource) -> Seq<char> {
    match source.node_id {
        Some(n) => n@,
        None => match source.hostname {
            Some(h) => h@,
            None => UNKNOWN_NODE_ID@,
        },
    }
}

/// `c` is the configuration that the environment's values `source` give.
pub open spec fn config_from(source: ConfigSource, c: AppConfig) -> bool {
    &&& c.database_url == source.database_url
    &&& c.cloudmesh_server_url.deep_view() == server_url_setting(source)
    &&& c.api_key == source.api_key
    &&& c.node_id@ == node_id_setting(source)
    &&& c.telemetry_interval_secs == u64_setting(
        source.telemetry_interval,
        DEFAULT_TELEMETRY_INTERVAL_SECS,
    )
    &&& c.offline_threshold_secs == i64_setting(
        source.offline_threshold,
        DEFAULT_OFFLINE_THRESHOLD_SECS,
    )
}

fn u64_or(raw: Option<String>, default: u64) -> (v: u64)
    ensures
        v == u64_setting(raw, default),
{
    match raw {
        Some(s) => match parse_u64(s.as_str()) {
            Some(v) => v,
            None => default,
        },
        None => default,
    }
}

fn i64_or(raw: Option<String>, default: i64) -> (v: i64)
    ensures
        v == i64_setting(raw, default),
{
    match raw {
        Some(s) => match parse_i64(s.as_str()) {
            Some(v) => v,
            None => default,
        },
        None => default,
    }
}

impl AppConfig {
    /// Assembles the configuration from the environment's values.
    pub fn from_source(source: ConfigSource) -> (c: AppConfig)
        ensures
            config_from(source, c),
    {
        let ghost original = source;
        let server_url = match source.cloudmesh_server_url {
            Some(u) => Some(u),
            None => if source.database_url.is_some() {
                Some(String::from_str(DEFAULT_SERVER_URL))
            } else {
                None
            },
        };
        let node_id = match source.node_id {
            Some(n) => n,
            None => match source.hostname {
                Some(h) => h,
                None => String::from_str(UNKNOWN_NODE_ID),
            },
        };
        let telemetry_interval_secs = u64_or(
            source.telemetry_interval,
            DEFAULT_TELEMETRY_INTERVAL_SECS,
        );
        let offline_threshold_secs = i64_or(
            source.offline_threshold,
            DEFAULT_OFFLINE_THRESHOLD_SECS,
        );
        AppConfig {
            database_url: source.database_url,
            cloudmesh_server_url: server_url,
            api_key: source.api_key,
            node_id,
            telemetry_interval_secs,
            offline_threshold_secs,
        }
    }

    /// How the process runs with this configuration.
    pub fn launch_mode(&self) -> (m: LaunchMode)
        ensures
            m == spec_launch_mode(*self),
    {
        if self.is_server() {
            LaunchMode::Server { local_agent: self.cloudmesh_server_url.is_some() }
        } else if self.cloudmesh_server_url.is_some() {
            LaunchMode::AgentOnly
        } else {
            LaunchMode::MissingServerUrl
        }
    }

    /// Whether the process runs as a server, which it does where a database is
    /// configured.
    pub fn is_server(&self) -> (r: bool)
        ensures
            r == self.database_url is Some,
    {
        self.database_url.is_some()
    }
}

/// A server always has a server URL for its local agent, the configured one
/// or the local default; a process without a database URL is an agent.
pub proof fn lemma_server_has_local_agent(source: ConfigSource, c: AppConfig)
    requires
        config_from(source, c),
    ensures
        c.database_url is Some ==> spec_launch_mode(c) == (LaunchMode::Server { local_agent: true }),
        c.database_url is None ==> (spec_launch_mode(c) == LaunchMode::AgentOnly
            <==> source.cloudmesh_server_url is Some),
{
}


/// A configured server URL is used as it is, whether or not a database is
/// configured; only where none is configured does a server fall back to the
/// local default, and an agent without one has none. The node id is `NODE_ID`
/// where set, and absent numeric settings default to 5 and 30 seconds.
pub proof fn lemma_configured_values_win(source: ConfigSource, c: AppConfig)
    requires
        config_from(source, c),
    ensures
        source.cloudmesh_server_url matches Some(u) ==> (c.cloudmesh_server_url matches Some(v)
            && v@ == u@),
        source.cloudmesh_server_url is None && source.database_url is Some ==> (
        c.cloudmesh_server_url matches Some(v) && v@ == "http://127.0.0.1:3000"@),
        source.cloudmesh_server_url is None && source.database_url is None
            ==> c.cloudmesh_server_url is None,
        source.node_id matches Some(n) ==> c.node_id@ == n@,
        source.node_id is None ==> (source.hostname matches Some(h) ==> c.node_id@ == h@),
        source.telemetry_interval is None ==> c.telemetry_interval_secs == 5,
        source.offline_threshold is None ==> c.offline_threshold_secs == 30,
        source.telemetry_interval matches Some(s) ==> c.telemetry_interval_secs == (match spec_parse_u64(
            s@,
        ) {
            Some(v) => v,
            None => 5,
        }),
        source.offline_threshold matches Some(s) ==> c.offline_threshold_secs == (match spec_parse_i64(
            s@,
        ) {
            Some(v) => v,
            None => 30,
        }),
        c.database_url == source.database_url,
        c.api_key == source.api_key,
{
}

} // verus!
