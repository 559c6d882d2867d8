//! The HTTP API's decisions: what each request is answered, given what the
//! database returned. A database failure arrives as its error text.
use vstd::prelude::*;

use crate::db::{MAX_HISTORICAL_METRICS_LIMIT, heartbeat_recorded};
use crate::models::{
    ErrorResponse, HistoricalMetricsResponse, MetricsRange, Node, SystemMetrics, TelemetryPayload,
};
use crate::text::{contains_seq, contains_str, occurs_at, str_equal};
use crate::time::{MIN_TIMESTAMP_SECS, Timestamp, seconds_between, seconds_since};

verus! {

pub const STATUS_OK: u16 = 200;
pub const STATUS_CREATED: u16 = 201;
pub const STATUS_BAD_REQUEST: u16 = 400;
pub const STATUS_NOT_FOUND: u16 = 404;
pub const STATUS_INTERNAL_SERVER_ERROR: u16 = 500;

pub const NODE_ONLINE: &'static str = "online";
pub const NODE_OFFLINE: &'static str = "offline";

pub const NODE_NOT_FOUND: &'static str = "Node not found";
pub const NODE_ID_MISMATCH: &'static str = "Node ID mismatch";
pub const UNABLE_TO_REGISTER_NODE: &'static str = "Unable to register node";
pub const UNABLE_TO_RETRIEVE_NODES: &'static str = "Unable to retrieve nodes";
pub const UNABLE_TO_RETRIEVE_NODE: &'static str = "Unable to retrieve node";
pub const UNABLE_TO_PROCESS_HEARTBEAT: &'static str = "Unable to process heartbeat";
pub const UNABLE_TO_INSERT_TELEMETRY: &'static str = "Unable to insert telemetry";
pub const UNABLE_TO_RETRIEVE_HISTORY: &'static str = "Unable to retrieve historical metrics";
pub const NO_METRICS_YET: &'static str = "No metrics collected yet";

/// Texts in a failed insert's error that show that the node does not exist.
pub const FOREIGN_KEY_CONSTRAINT: &'static str = "fk_node";
pub const FOREIGN_KEY_WORDS: &'static str = "foreign key";

/// Body of GET /api/health.
#[derive(Clone, Debug)]
pub struct HealthResponse {
    pub service: String,
    pub status: String,
    pub version: String,
}

/// A request that the API refuses, with the message sent to the client.
#[derive(Clone, Debug)]
pub enum ApiError {
    InvalidRange(String),
    DatabaseError(String),
    NotFound(String),
    BadRequest(String),
}

impl ApiError {
    /// The HTTP status of the error.
    pub open spec fn spec_status(self) -> u16 {
        match self {
            ApiError::InvalidRange(_) => STATUS_BAD_REQUEST,
            ApiError::DatabaseError(_) => STATUS_INTERNAL_SERVER_ERROR,
            ApiError::NotFound(_) => STATUS_NOT_FOUND,
            ApiError::BadRequest(_) => STATUS_BAD_REQUEST,
        }
    }

    /// The machine-readable error code of the error.
    pub open spec fn spec_code(self) -> Seq<char> {
        match self {
            ApiError::InvalidRange(_) => "invalid_range"@,
            ApiError::DatabaseError(_) => "database_error"@,
            ApiError::NotFound(_) => "not_found"@,
            ApiError::BadRequest(_) => "bad_request"@,
        }
    }

    /// The message of the error.
    pub open spec fn spec_message(self) -> String {
        match self {
            ApiError::InvalidRange(m) => m,
            ApiError::DatabaseError(m) => m,
            ApiError::NotFound(m) => m,
            ApiError::BadRequest(m) => m,
        }
    }

    pub fn status_code(&self) -> (s: u16)
        ensures
            s == self.spec_status(),
    {
        match self {
            ApiError::InvalidRange(_) => STATUS_BAD_REQUEST,
            ApiError::DatabaseError(_) => STATUS_INTERNAL_SERVER_ERROR,
            ApiError::NotFound(_) => STATUS_NOT_FOUND,
            ApiError::BadRequest(_) => STATUS_BAD_REQUEST,
        }
    }

    pub fn error_code(&self) -> (c: &'static str)
        ensures
            c@ == self.spec_code(),
    {
        match self {
            ApiError::InvalidRange(_) => "invalid_range",
            ApiError::DatabaseError(_) => "database_error",
            ApiError::NotFound(_) => "not_found",
            ApiError::BadRequest(_) => "bad_request",
        }
    }

    /// The status and the JSON body that answer the error.
    pub fn into_error_response(self) -> (r: (u16, ErrorResponse))
        ensures
            r.0 == self.spec_status(),
            r.1.error@ == self.spec_code(),
            r.1.message == self.spec_message(),
    {
        let status = self.status_code();
        let error = String::from_str(self.error_code());
        let message = match self {
            ApiError::InvalidRange(m) => m,
            ApiError::DatabaseError(m) => m,
            ApiError::NotFound(m) => m,
            ApiError::BadRequest(m) => m,
        };
        (status, ErrorResponse { error, message })
    }
}

/// How refusals are answered: a missing or unknown range with 400 and
/// `invalid_range`, a database failure with 500 and `database_error`, a
/// missing node with 404 and `not_found`, a malformed request with 400 and
/// `bad_request`.
pub proof fn lemma_refusal_answers(m: String)
    ensures
        ApiError::InvalidRange(m).spec_status() == 400 && ApiError::InvalidRange(m).spec_code()
            == "invalid_range"@,
        ApiError::DatabaseError(m).spec_status() == 500 && ApiError::DatabaseError(m).spec_code()
            == "database_error"@,
        ApiError::NotFound(m).spec_status() == 404 && ApiError::NotFound(m).spec_code()
            == "not_found"@,
        ApiError::BadRequest(m).spec_status() == 400 && ApiError::BadRequest(m).spec_code()
            == "bad_request"@,
{
}

fn database_error(message: &str) -> (e: ApiError)
    ensures
        e matches ApiError::DatabaseError(m) && m@ == message@,
{
    ApiError::DatabaseError(String::from_str(message))
}

fn not_found() -> (e: ApiError)
    ensures
        e matches ApiError::NotFound(m) && m@ == NODE_NOT_FOUND@,
{
    ApiError::NotFound(String::from_str(NODE_NOT_FOUND))
}

/// GET /api/health: the service's name, health and version.
pub fn health_check() -> (r: HealthResponse)
    ensures
        r.service@ == "cloudmesh"@,
        r.status@ == "healthy"@,
        r.version@ == "0.1.0"@,
{
    HealthResponse {
        service: String::from_str("cloudmesh"),
        status: String::from_str("healthy"),
        version: String::from_str("0.1.0"),
    }
}

/// The status of a node last seen at `last_seen`: offline where more than
/// `offline_threshold_secs` whole seconds have passed since, else online.
pub open spec fn status_at(now: Timestamp, last_seen: Timestamp, offline_threshold_secs: i64) -> Seq<char> {
    if seconds_between(now, last_seen) > offline_threshold_secs {
        NODE_OFFLINE@
    } else {
        NODE_ONLINE@
    }
}

/// `node` as it reads at `now`: the same node, with its status computed.
pub open spec fn node_as_of(node: Node, now: Timestamp, offline_threshold_secs: i64, updated: Node) -> bool {
    &&& updated.node_id == node.node_id
    &&& updated.hostname == node.hostname
    &&& updated.os == node.os
    &&& updated.architecture == node.architecture
    &&& updated.agent_version == node.agent_version
    &&& updated.last_seen == node.last_seen
    &&& updated.created_at == node.created_at
    &&& updated.updated_at == node.updated_at
    &&& updated.status@ == status_at(now, node.last_seen, offline_threshold_secs)
}

/// Sets the status of `node` as it reads at `now`.
pub fn refresh_status(node: &Node, now: Timestamp, offline_threshold_secs: i64) -> (r: Node)
    requires
        now.wf(),
        node.last_seen.wf(),
    ensures
        node_as_of(*node, now, offline_threshold_secs, r),
{
    let elapsed = seconds_since(now, node.last_seen);
    let status = if elapsed > offline_threshold_secs {
        String::from_str(NODE_OFFLINE)
    } else {
        String::from_str(NODE_ONLINE)
    };
    Node {
        node_id: node.node_id.clone(),
        hostname: node.hostname.clone(),
        os: node.os.clone(),
        architecture: node.architecture.clone(),
        agent_version: node.agent_version.clone(),
        status,
        last_seen: node.last_seen,
        created_at: node.created_at,
        updated_at: node.updated_at,
    }
}

/// Every node's timestamp of last contact is well formed.
pub open spec fn nodes_wf(nodes: Seq<Node>) -> bool {
    forall|i: int| 0 <= i < nodes.len() ==> (#[trigger] nodes[i]).last_seen.wf()
}

/// GET /api/nodes: the nodes that the database listed, each with its status
/// at `now`, in the same order; a database failure is a database error.
pub fn list_nodes(listed: Result<Vec<Node>, String>, now: Timestamp, offline_threshold_secs: i64) -> (r:
    Result<Vec<Node>, ApiError>)
    requires
        now.wf(),
        listed matches Ok(nodes) ==> nodes_wf(nodes@),
    ensures
        match listed {
            Err(_) => r matches Err(ApiError::DatabaseError(m)) && m@ == UNABLE_TO_RETRIEVE_NODES@,
            Ok(nodes) => r matches Ok(out) && out.len() == nodes.len() && forall|i: int|
                0 <= i < nodes.len() ==> node_as_of(
                    #[trigger] nodes[i],
                    now,
                    offline_threshold_secs,
                    out[i],
                ),
        },
{
    let nodes = match listed {
        Ok(nodes) => nodes,
        Err(_) => {
            return Err(database_error(UNABLE_TO_RETRIEVE_NODES));
        },
    };
    let ghost input = nodes@;
    let mut out: Vec<Node> = Vec::new();
    let mut i: usize = 0;
    while i < nodes.len()
        invariant
            input == nodes@,
            nodes_wf(input),
            now.wf(),
            i <= nodes.len(),
            out.len() == i,
            forall|j: int|
                0 <= j < i ==> node_as_of(#[trigger] input[j], now, offline_threshold_secs, out[j]),
        decreases nodes.len() - i,
    {
        assert(input[i as int].last_seen.wf());
        out.push(refresh_status(&nodes[i], now, offline_threshold_secs));
        i += 1;
    }
    Ok(out)
}

/// GET /api/nodes/{id}: the node that the database found, with its status at
/// `now`; not found where there is none; a database failure is a database
/// error.
pub fn get_node(found: Result<Option<Node>, String>, now: Timestamp, offline_threshold_secs: i64) -> (r:
    Result<Node, ApiError>)
    requires
        now.wf(),
        found matches Ok(Some(node)) ==> node.last_seen.wf(),
    ensures
        match found {
            Err(_) => r matches Err(ApiError::DatabaseError(m)) && m@ == UNABLE_TO_RETRIEVE_NODE@,
            Ok(None) => r matches Err(ApiError::NotFound(m)) && m@ == NODE_NOT_FOUND@,
            Ok(Some(node)) => r matches Ok(out) && node_as_of(node, now, offline_threshold_secs, out),
        },
{
    match found {
        Err(_) => Err(database_error(UNABLE_TO_RETRIEVE_NODE)),
        Ok(None) => Err(not_found()),
        Ok(Some(node)) => Ok(refresh_status(&node, now, offline_threshold_secs)),
    }
}

/// POST /api/nodes: the node that the database stored; a database failure is
/// a database error.
pub fn register_node(stored: Result<Node, String>) -> (r: Result<Node, ApiError>)
    ensures
        match stored {
            Err(_) => r matches Err(ApiError::DatabaseError(m)) && m@ == UNABLE_TO_REGISTER_NODE@,
            Ok(node) => r == Ok::<Node, ApiError>(node),
        },
{
    match stored {
        Ok(node) => Ok(node),
        Err(_) => Err(database_error(UNABLE_TO_REGISTER_NODE)),
    }
}

/// POST /api/nodes/{id}/heartbeat, given the rows that the update touched:
/// 200 where it found the node, not found where it touched none; a database
/// failure is a database error.
pub fn heartbeat(updated: Result<u64, String>) -> (r: Result<u16, ApiError>)
    ensures
        match updated {
            Err(_) => r matches Err(ApiError::DatabaseError(m)) && m@ == UNABLE_TO_PROCESS_HEARTBEAT@,
            Ok(rows) => if rows > 0 {
                r == Ok::<u16, ApiError>(STATUS_OK)
            } else {
                r matches Err(ApiError::NotFound(m)) && m@ == NODE_NOT_FOUND@
            },
        },
{
    match updated {
        Err(_) => Err(database_error(UNABLE_TO_PROCESS_HEARTBEAT)),
        Ok(rows) => if heartbeat_recorded(rows) {
            Ok(STATUS_OK)
        } else {
            Err(not_found())
        },
    }
}

/// POST /api/nodes/{id}/telemetry, before storing: the payload must name the
/// node of the path.
pub fn check_telemetry_target(node_id: &str, payload: &TelemetryPayload) -> (r: Result<(), ApiError>)
    ensures
        node_id@ == payload.node_id@ <==> r is Ok,
        r matches Err(e) ==> e matches ApiError::BadRequest(m) && m@ == NODE_ID_MISMATCH@,
{
    if str_equal(node_id, payload.node_id.as_str()) {
        Ok(())
    } else {
        Err(ApiError::BadRequest(String::from_str(NODE_ID_MISMATCH)))
    }
}

/// A failed insert whose error text names the node's foreign key means that
/// the node does not exist.
pub open spec fn names_missing_node(error_text: Seq<char>) -> bool {
    contains_seq(error_text, FOREIGN_KEY_CONSTRAINT@) || contains_seq(error_text, FOREIGN_KEY_WORDS@)
}

/// POST /api/nodes/{id}/telemetry, the answer after the insert: 201 where the sample was
/// stored; not found where the database refused it for a missing node; any
/// other failure is a database error.
pub fn insert_outcome(inserted: Result<(), String>) -> (r: Result<u16, ApiError>)
    ensures
        match inserted {
            Ok(()) => r == Ok::<u16, ApiError>(STATUS_CREATED),
            Err(text) => if names_missing_node(text@) {
                r matches Err(ApiError::NotFound(m)) && m@ == NODE_NOT_FOUND@
            } else {
                r matches Err(ApiError::DatabaseError(m)) && m@ == UNABLE_TO_INSERT_TELEMETRY@
            },
        },
{
    match inserted {
        Ok(()) => Ok(STATUS_CREATED),
        Err(text) => {
            if contains_str(text.as_str(), FOREIGN_KEY_CONSTRAINT) || contains_str(
                text.as_str(),
                FOREIGN_KEY_WORDS,
            ) {
                Err(not_found())
            } else {
                Err(database_error(UNABLE_TO_INSERT_TELEMETRY))
            }
        },
    }
}

/// GET /api/nodes/{id}/metrics/history, first step: the requested range; a
/// missing or unknown one is refused as an invalid range.
pub fn history_range(query_range: &Option<String>) -> (r: Result<MetricsRange, ApiError>)
    ensures
        match query_range {
            Some(s) => match MetricsRange::from_text(s@) {
                Some(range) => r == Ok::<MetricsRange, ApiError>(range),
                None => r matches Err(ApiError::InvalidRange(m)) && m@
                    == MetricsRange::INVALID_RANGE_MESSAGE@,
            },
            None => r matches Err(ApiError::InvalidRange(m)) && m@
                == MetricsRange::INVALID_RANGE_MESSAGE@,
        },
{
    let raw: &str = match query_range {
        Some(s) => s.as_str(),
        None => "",
    };
    proof {
        reveal_strlit("");
        assert(""@.len() == 0);
        assert(MetricsRange::from_text(""@) is None);
    }
    match MetricsRange::parse(raw) {
        Ok(range) => Ok(range),
        Err(_) => Err(ApiError::InvalidRange(String::from_str(MetricsRange::INVALID_RANGE_MESSAGE))),
    }
}

/// The start of the window that a range covers up to `end`: `end` less the
/// range's length.
pub fn history_window_start(range: MetricsRange, end: Timestamp) -> (start: Timestamp)
    requires
        end.wf(),
        end.secs - range.seconds() >= MIN_TIMESTAMP_SECS,
    ensures
        start.wf(),
        start.total_nanos() == end.total_nanos() - range.seconds() * 1_000_000_000,
        start == (Timestamp { secs: (end.secs - range.seconds()) as i64, nanos: end.nanos }),
{
    end.minus_seconds(range.duration_secs())
}

/// GET /api/nodes/{id}/metrics/history, second step: the node must exist; a
/// database failure is answered as any failure of this endpoint is.
pub fn history_node(found: Result<Option<Node>, String>) -> (r: Result<(), ApiError>)
    ensures
        match found {
            Err(_) => r matches Err(ApiError::DatabaseError(m)) && m@ == UNABLE_TO_RETRIEVE_HISTORY@,
            Ok(None) => r matches Err(ApiError::NotFound(m)) && m@ == NODE_NOT_FOUND@,
            Ok(Some(_)) => r is Ok,
        },
{
    match found {
        Err(_) => Err(database_error(UNABLE_TO_RETRIEVE_HISTORY)),
        Ok(None) => Err(not_found()),
        Ok(Some(_)) => Ok(()),
    }
}

/// GET /api/nodes/{id}/metrics/history, last step: the samples that the
/// database returned, in its order, with the range, the window and their
/// count; a database failure is a database error.
pub fn history_response(
    range: MetricsRange,
    start_time: Timestamp,
    end_time: Timestamp,
    fetched: Result<Vec<SystemMetrics>, String>,
) -> (r: Result<HistoricalMetricsResponse, ApiError>)
    ensures
        match fetched {
            Err(_) => r matches Err(ApiError::DatabaseError(m)) && m@ == UNABLE_TO_RETRIEVE_HISTORY@,
            Ok(metrics) => r matches Ok(resp) && resp.range@ == range.text() && resp.start_time
                == start_time && resp.end_time == end_time && resp.metrics == metrics
                && resp.count == metrics.len(),
        },
{
    match fetched {
        Err(_) => Err(database_error(UNABLE_TO_RETRIEVE_HISTORY)),
        Ok(metrics) => {
            let count = metrics.len();
            Ok(
                HistoricalMetricsResponse {
                    range: range.to_string(),
                    start_time,
                    end_time,
                    count,
                    metrics,
                },
            )
        },
    }
}

/// Where a history request stands.
#[derive(Clone, Copy, Debug, PartialEq, Eq, Structural)]
pub enum HistoryState {
    /// The request arrived; nothing was read yet.
    Received,
    /// The range is valid and the window fixed; the node is being looked up.
    LookingUpNode { range: MetricsRange, start: Timestamp, end: Timestamp },
    /// The node exists; its samples in the window are being read.
    FetchingHistory { range: MetricsRange, start: Timestamp, end: Timestamp },
    /// The request is answered.
    Answered,
}

/// What happened in a history request.
pub enum HistoryEvent {
    /// The request came with this `range` parameter at the instant `now`.
    Arrived { range: Option<String>, now: Timestamp },
    /// The node lookup returned.
    NodeLookedUp(Result<Option<Node>, String>),
    /// The history query returned.
    HistoryFetched(Result<Vec<SystemMetrics>, String>),
}

/// What a history request does next.
pub enum HistoryAction {
    /// Look up the node of the path.
    LookUpNode,
    /// Read the node's samples from `since` on, at most `limit` of them,
    /// oldest first.
    FetchHistory { since: Timestamp, limit: i64 },
    /// Answer the request, with no further database access.
    Answer(Result<HistoricalMetricsResponse, ApiError>),
}

/// The event is the one that the state waits for, and an arrival's instant
/// is well formed and leaves room for the window that the range asks for.
pub open spec fn history_event_fits(state: HistoryState, event: HistoryEvent) -> bool {
    match (state, event) {
        (HistoryState::Received, HistoryEvent::Arrived { range, now }) => {
            &&& now.wf()
            &&& match range {
                Some(s) => (MetricsRange::from_text(s@) matches Some(r) ==> now.secs - r.seconds()
                    >= MIN_TIMESTAMP_SECS),
                None => true,
            }
        },
        (HistoryState::LookingUpNode { .. }, HistoryEvent::NodeLookedUp(_)) => true,
        (HistoryState::FetchingHistory { .. }, HistoryEvent::HistoryFetched(_)) => true,
        _ => false,
    }
}

/// GET /api/nodes/{id}/metrics/history, one step at a time: a missing or
/// unknown range is answered before any database read; a node lookup that
/// fails or finds nothing is answered without reading the history; the
/// history query covers the range's window up to the arrival and is capped at
/// `MAX_HISTORICAL_METRICS_LIMIT` samples.
pub fn history_next(state: HistoryState, event: HistoryEvent) -> (r: (HistoryState, HistoryAction))
    requires
        history_event_fits(state, event),
    ensures
        match (state, event) {
            (HistoryState::Received, HistoryEvent::Arrived { range, now }) => {
                match (match range {
                    Some(s) => MetricsRange::from_text(s@),
                    None => None,
                }) {
                    None => r.0 == HistoryState::Answered && (r.1 matches HistoryAction::Answer(
                        Err(ApiError::InvalidRange(m)),
                    ) && m@ == MetricsRange::INVALID_RANGE_MESSAGE@),
                    Some(rg) => r.0 == (HistoryState::LookingUpNode {
                        range: rg,
                        start: Timestamp { secs: (now.secs - rg.seconds()) as i64, nanos: now.nanos },
                        end: now,
                    }) && r.1 is LookUpNode,
                }
            },
            (HistoryState::LookingUpNode { range, start, end }, HistoryEvent::NodeLookedUp(found)) => {
                match found {
                    Err(_) => r.0 == HistoryState::Answered && (r.1 matches HistoryAction::Answer(
                        Err(ApiError::DatabaseError(m)),
                    ) && m@ == UNABLE_TO_RETRIEVE_HISTORY@),
                    Ok(None) => r.0 == HistoryState::Answered && (r.1 matches HistoryAction::Answer(
                        Err(ApiError::NotFound(m)),
                    ) && m@ == NODE_NOT_FOUND@),
                    Ok(Some(_)) => r.0 == (HistoryState::FetchingHistory { range, start, end })
                        && (r.1 matches HistoryAction::FetchHistory { since, limit } && since == start
                        && limit == MAX_HISTORICAL_METRICS_LIMIT),
                }
            },
            (
                HistoryState::FetchingHistory { range, start, end },
                HistoryEvent::HistoryFetched(fetched),
            ) => r.0 == HistoryState::Answered && match fetched {
                Err(_) => r.1 matches HistoryAction::Answer(Err(ApiError::DatabaseError(m))) && m@
                    == UNABLE_TO_RETRIEVE_HISTORY@,
                Ok(metrics) => r.1 matches HistoryAction::Answer(Ok(resp)) && resp.range@
                    == range.text() && resp.start_time == start && resp.end_time == end
                    && resp.metrics == metrics && resp.count == metrics.len(),
            },
            _ => false,
        },
{
    match (state, event) {
        (HistoryState::Received, HistoryEvent::Arrived { range, now }) => {
            match history_range(&range) {
                Err(e) => (HistoryState::Answered, HistoryAction::Answer(Err(e))),
                Ok(rg) => {
                    let start = history_window_start(rg, now);
                    (
                        HistoryState::LookingUpNode { range: rg, start, end: now },
                        HistoryAction::LookUpNode,
                    )
                },
            }
        },
        (HistoryState::LookingUpNode { range, start, end }, HistoryEvent::NodeLookedUp(found)) => {
            match history_node(found) {
                Err(e) => (HistoryState::Answered, HistoryAction::Answer(Err(e))),
                Ok(()) => (
                    HistoryState::FetchingHistory { range, start, end },
                    HistoryAction::FetchHistory { since: start, limit: MAX_HISTORICAL_METRICS_LIMIT },
                ),
            }
        },
        (
            HistoryState::FetchingHistory { range, start, end },
            HistoryEvent::HistoryFetched(fetched),
        ) => (HistoryState::Answered, HistoryAction::Answer(history_response(range, start, end, fetched))),
        _ => {
            proof {
                assert(false);
            }
            (HistoryState::Answered, HistoryAction::Answer(Err(not_found())))
        },
    }
}

/// Where a telemetry upload stands.
#[derive(Clone, Copy, Debug, PartialEq, Eq, Structural)]
pub enum IngestState {
    /// The upload arrived; nothing was written yet.
    Received,
    /// The sample is being stored.
    Inserting { metrics: SystemMetrics },
    /// The upload is answered.
    Answered,
}

/// What happened in a telemetry upload.
pub enum IngestEvent {
    /// The upload came for the node `node_id` of the path.
    Arrived { node_id: String, payload: TelemetryPayload },
    /// The insert returned.
    Inserted(Result<(), String>),
}

/// What a telemetry upload does next.
pub enum IngestAction {
    /// Store `metrics` as a sample of node `node_id`.
    Insert { node_id: String, metrics: SystemMetrics },
    /// Answer the upload, with no further database access; `latest` is the
    /// sample to keep as the most recent snapshot, where one was stored.
    Answer { result: Result<u16, ApiError>, latest: Option<SystemMetrics> },
}

pub open spec fn ingest_event_fits(state: IngestState, event: IngestEvent) -> bool {
    match (state, event) {
        (IngestState::Received, IngestEvent::Arrived { .. }) => true,
        (IngestState::Inserting { .. }, IngestEvent::Inserted(_)) => true,
        _ => false,
    }
}

/// POST /api/nodes/{id}/telemetry, one step at a time: a payload for another
/// node is refused without writing anything; otherwise its sample is stored
/// under the path's node, and the answer follows from the insert.
pub fn ingest_next(state: IngestState, event: IngestEvent) -> (r: (IngestState, IngestAction))
    requires
        ingest_event_fits(state, event),
    ensures
        match (state, event) {
            (IngestState::Received, IngestEvent::Arrived { node_id, payload }) => {
                if node_id@ == payload.node_id@ {
                    r.0 == (IngestState::Inserting { metrics: payload.metrics })
                        && (r.1 matches IngestAction::Insert { node_id: id, metrics } && id == node_id
                        && metrics == payload.metrics)
                } else {
                    r.0 == IngestState::Answered && (r.1 matches IngestAction::Answer {
                        result: Err(ApiError::BadRequest(m)),
                        latest: None,
                    } && m@ == NODE_ID_MISMATCH@)
                }
            },
            (IngestState::Inserting { metrics }, IngestEvent::Inserted(inserted)) => r.0
                == IngestState::Answered && match inserted {
                Ok(()) => r.1 matches IngestAction::Answer { result: Ok(status), latest }
                    && status == STATUS_CREATED && latest == Some(metrics),
                Err(text) => if names_missing_node(text@) {
                    r.1 matches IngestAction::Answer {
                        result: Err(ApiError::NotFound(m)),
                        latest: None,
                    } && m@ == NODE_NOT_FOUND@
                } else {
                    r.1 matches IngestAction::Answer {
                        result: Err(ApiError::DatabaseError(m)),
                        latest: None,
                    } && m@ == UNABLE_TO_INSERT_TELEMETRY@
                },
            },
            _ => false,
        },
{
    match (state, event) {
        (IngestState::Received, IngestEvent::Arrived { node_id, payload }) => {
            match check_telemetry_target(node_id.as_str(), &payload) {
                Err(e) => (IngestState::Answered, IngestAction::Answer { result: Err(e), latest: None }),
                Ok(()) => (
                    IngestState::Inserting { metrics: payload.metrics },
                    IngestAction::Insert { node_id, metrics: payload.metrics },
                ),
            }
        },
        (IngestState::Inserting { metrics }, IngestEvent::Inserted(inserted)) => {
            let result = insert_outcome(inserted);
            let latest = if result.is_ok() {
                Some(metrics)
            } else {
                None
            };
            (IngestState::Answered, IngestAction::Answer { result, latest })
        },
        _ => {
            proof {
                assert(false);
            }
            (IngestState::Answered, IngestAction::Answer { result: Err(not_found()), latest: None })
        },
    }
}

/// The most recent telemetry snapshot that the server stored, kept in memory
/// for GET /api/metrics.
#[derive(Clone, Copy, Debug)]
pub struct LatestMetrics {
    pub latest: Option<SystemMetrics>,
}

impl LatestMetrics {
    /// A store that holds no snapshot yet.
    pub fn new() -> (s: LatestMetrics)
        ensures
            s.latest is None,
    {
        LatestMetrics { latest: None }
    }

    /// Keeps `metrics` as the most recent snapshot, in place of any earlier one.
    pub fn record(&mut self, metrics: SystemMetrics)
        ensures
            final(self).latest == Some(metrics),
    {
        self.latest = Some(metrics);
    }

    /// GET /api/metrics: the most recent snapshot; not found where none was
    /// stored yet.
    pub fn current(&self) -> (r: Result<SystemMetrics, ApiError>)
        ensures
            match self.latest {
                Some(m) => r == Ok::<SystemMetrics, ApiError>(m),
                None => r matches Err(ApiError::NotFound(msg)) && msg@ == NO_METRICS_YET@,
            },
    {
        match self.latest {
            Some(m) => Ok(m),
            None => Err(ApiError::NotFound(String::from_str(NO_METRICS_YET))),
        }
    }
}


/// The status follows the configured threshold, whatever it is: a node whose
/// last contact is at most `offline_threshold_secs` whole seconds ago is
/// online, and one whose last contact is longer ago is offline.
pub proof fn lemma_status_follows_threshold(now: Timestamp, last_seen: Timestamp, offline_threshold_secs: i64)
    ensures
        seconds_between(now, last_seen) <= offline_threshold_secs ==> status_at(
            now,
            last_seen,
            offline_threshold_secs,
        ) == "online"@,
        seconds_between(now, last_seen) > offline_threshold_secs ==> status_at(
            now,
            last_seen,
            offline_threshold_secs,
        ) == "offline"@,
{
}

/// A node as it reads is the stored node, every field kept but the status,
/// which is `online` or `offline` by the configured threshold.
pub proof fn lemma_node_keeps_its_fields(node: Node, now: Timestamp, offline_threshold_secs: i64, updated: Node)
    requires
        node_as_of(node, now, offline_threshold_secs, updated),
    ensures
        updated.node_id == node.node_id && updated.hostname == node.hostname && updated.os == node.os
            && updated.architecture == node.architecture && updated.agent_version
            == node.agent_version,
        updated.last_seen == node.last_seen && updated.created_at == node.created_at
            && updated.updated_at == node.updated_at,
        updated.status@ == (if seconds_between(now, node.last_seen) > offline_threshold_secs {
            "offline"@
        } else {
            "online"@
        }),
{
}

/// A failed insert counts as a missing node exactly when its error text
/// contains `fk_node` or `foreign key`; every other failure is not one.
pub proof fn lemma_missing_node_only_on_foreign_key(error_text: Seq<char>)
    ensures
        names_missing_node(error_text) <==> (exists|at: int|
            0 <= at && at + 7 <= error_text.len() && #[trigger] error_text.subrange(at, at + 7)
                == "fk_node"@) || (exists|at: int|
            0 <= at && at + 11 <= error_text.len() && #[trigger] error_text.subrange(at, at + 11)
                == "foreign key"@),
{
    reveal_strlit("fk_node");
    reveal_strlit("foreign key");
    let fk = FOREIGN_KEY_CONSTRAINT@;
    let words = FOREIGN_KEY_WORDS@;
    assert(fk == "fk_node"@);
    assert(words == "foreign key"@);
    assert(fk.len() == 7);
    assert(words.len() == 11);
    if contains_seq(error_text, fk) {
        let at = choose|at: int| occurs_at(error_text, fk, at);
        assert(error_text.subrange(at, at + 7) == "fk_node"@);
    }
    if contains_seq(error_text, words) {
        let at = choose|at: int| occurs_at(error_text, words, at);
        assert(error_text.subrange(at, at + 11) == "foreign key"@);
    }
    if exists|at: int|
        0 <= at && at + 7 <= error_text.len() && #[trigger] error_text.subrange(at, at + 7)
            == "fk_node"@ {
        let at = choose|at: int|
            0 <= at && at + 7 <= error_text.len() && #[trigger] error_text.subrange(at, at + 7)
                == "fk_node"@;
        assert(occurs_at(error_text, fk, at));
    }
    if exists|at: int|
        0 <= at && at + 11 <= error_text.len() && #[trigger] error_text.subrange(at, at + 11)
            == "foreign key"@ {
        let at = choose|at: int|
            0 <= at && at + 11 <= error_text.len() && #[trigger] error_text.subrange(at, at + 11)
                == "foreign key"@;
        assert(occurs_at(error_text, words, at));
    }
}

} // verus!
