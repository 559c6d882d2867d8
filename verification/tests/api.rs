use cloudmesh::api::{
    history_next, ingest_next, HistoryAction, HistoryEvent, HistoryState, IngestAction, IngestEvent,
    IngestState, LatestMetrics, check_telemetry_target, get_node, health_check, heartbeat, history_node, history_range,
    history_response, history_window_start, insert_outcome, list_nodes, register_node, ApiError,
};
use cloudmesh::models::{MetricsRange, Node, SystemMetrics, TelemetryPayload};
use cloudmesh::time::Timestamp;

fn ts(secs: i64, nanos: u32) -> Timestamp {
    Timestamp::from_parts(secs, nanos).unwrap()
}

fn node(id: &str, last_seen: Timestamp) -> Node {
    Node {
        node_id: id.to_string(),
        hostname: "box".to_string(),
        os: "linux".to_string(),
        architecture: "x86_64".to_string(),
        agent_version: "0.1.0".to_string(),
        status: "online".to_string(),
        last_seen,
        created_at: ts(1_000, 0),
        updated_at: ts(1_000, 0),
    }
}

fn sample(secs: i64) -> SystemMetrics {
    SystemMetrics {
        timestamp: ts(secs, 0),
        cpu_usage_bits: 12.4f32.to_bits(),
        memory_used: 7340032000,
        memory_total: 16831893504,
        disk_used: 182000000000,
        disk_total: 510747734016,
        network_received: 1520,
        network_transmitted: 830,
    }
}

fn message(e: &ApiError) -> String {
    match e {
        ApiError::InvalidRange(m) | ApiError::DatabaseError(m) | ApiError::NotFound(m) | ApiError::BadRequest(m) => m.clone(),
    }
}

#[test]
fn health_reports_service_status_and_version() {
    let h = health_check();
    assert_eq!(h.service, "cloudmesh");
    assert_eq!(h.status, "healthy");
    assert_eq!(h.version, "0.1.0");
}

#[test]
fn each_error_has_its_status_and_code() {
    let cases = [
        (ApiError::InvalidRange("a".to_string()), 400, "invalid_range"),
        (ApiError::DatabaseError("b".to_string()), 500, "database_error"),
        (ApiError::NotFound("c".to_string()), 404, "not_found"),
        (ApiError::BadRequest("d".to_string()), 400, "bad_request"),
    ];
    for (e, status, code) in cases {
        let m = message(&e);
        assert_eq!(e.status_code(), status);
        assert_eq!(e.error_code(), code);
        let (s, body) = e.into_error_response();
        assert_eq!(s, status);
        assert_eq!(body.error, code);
        assert_eq!(body.message, m);
    }
}

#[test]
fn node_status_goes_offline_after_the_threshold() {
    let now = ts(2_000, 500_000_000);
    let nodes = vec![
        node("a", ts(1_970, 500_000_000)),
        node("b", ts(1_969, 600_000_000)),
        node("c", ts(1_969, 500_000_000)),
        node("d", ts(2_010, 0)),
    ];
    let out = list_nodes(Ok(nodes), now, 30).unwrap();
    let statuses: Vec<&str> = out.iter().map(|n| n.status.as_str()).collect();
    assert_eq!(statuses, ["online", "online", "offline", "online"]);
    assert_eq!(out[2].node_id, "c");
    let err = list_nodes(Err("connection refused".to_string()), now, 30).unwrap_err();
    assert!(matches!(&err, ApiError::DatabaseError(m) if m == "Unable to retrieve nodes"));
}

#[test]
fn single_node_lookup() {
    let now = ts(2_000, 0);
    let n = get_node(Ok(Some(node("a", ts(1_000, 0)))), now, 30).unwrap();
    assert_eq!(n.status, "offline");
    let e = get_node(Ok(None), now, 30).unwrap_err();
    assert!(matches!(&e, ApiError::NotFound(m) if m == "Node not found"));
    let e = get_node(Err("x".to_string()), now, 30).unwrap_err();
    assert!(matches!(&e, ApiError::DatabaseError(m) if m == "Unable to retrieve node"));
}

#[test]
fn registration_and_heartbeat_outcomes() {
    let n = register_node(Ok(node("a", ts(1, 0)))).unwrap();
    assert_eq!(n.node_id, "a");
    let e = register_node(Err("x".to_string())).unwrap_err();
    assert!(matches!(&e, ApiError::DatabaseError(m) if m == "Unable to register node"));
    assert_eq!(heartbeat(Ok(1)).unwrap(), 200);
    let e = heartbeat(Ok(0)).unwrap_err();
    assert!(matches!(&e, ApiError::NotFound(m) if m == "Node not found"));
    let e = heartbeat(Err("x".to_string())).unwrap_err();
    assert!(matches!(&e, ApiError::DatabaseError(m) if m == "Unable to process heartbeat"));
}

#[test]
fn telemetry_ingestion_outcomes() {
    let payload = TelemetryPayload { node_id: "a".to_string(), metrics: sample(5) };
    assert!(check_telemetry_target("a", &payload).is_ok());
    let e = check_telemetry_target("b", &payload).unwrap_err();
    assert!(matches!(&e, ApiError::BadRequest(m) if m == "Node ID mismatch"));
    assert_eq!(insert_outcome(Ok(())).unwrap(), 201);
    let fk = "error returned from database: insert or update on table \"telemetry\" violates foreign key constraint \"fk_node\"";
    let e = insert_outcome(Err(fk.to_string())).unwrap_err();
    assert!(matches!(&e, ApiError::NotFound(m) if m == "Node not found"));
    let e = insert_outcome(Err("pool timed out".to_string())).unwrap_err();
    assert!(matches!(&e, ApiError::DatabaseError(m) if m == "Unable to insert telemetry"));
}

#[test]
fn history_request_flow() {
    let e = history_range(&None).unwrap_err();
    assert!(matches!(&e, ApiError::InvalidRange(m) if m == "Supported ranges are 5m, 15m, 30m, 1h, 6h, 12h, 24h, and 7d"));
    assert_eq!(e.status_code(), 400);
    assert!(history_range(&Some("2h".to_string())).is_err());
    let range = history_range(&Some("1h".to_string())).unwrap();
    assert_eq!(range, MetricsRange::OneHour);

    let end = ts(1_789_524_000, 0);
    let start = history_window_start(range, end);
    assert_eq!(start, ts(1_789_520_400, 0));

    assert!(history_node(Ok(Some(node("a", end)))).is_ok());
    let e = history_node(Ok(None)).unwrap_err();
    assert_eq!(e.status_code(), 404);

    let resp = history_response(range, start, end, Ok(vec![sample(1_789_520_405), sample(1_789_520_410)])).unwrap();
    assert_eq!(resp.range, "1h");
    assert_eq!(resp.start_time, start);
    assert_eq!(resp.end_time, end);
    assert_eq!(resp.count, 2);
    assert_eq!(resp.metrics[1], sample(1_789_520_410));

    let empty = history_response(range, start, end, Ok(vec![])).unwrap();
    assert_eq!(empty.count, 0);
    assert!(empty.metrics.is_empty());

    let e = history_response(range, start, end, Err("x".to_string())).unwrap_err();
    assert!(matches!(&e, ApiError::DatabaseError(m) if m == "Unable to retrieve historical metrics"));
    assert_eq!(e.status_code(), 500);
}

#[test]
fn history_steps_refuse_before_reading() {
    let now = ts(1_789_524_000, 0);

    let (s, a) = history_next(HistoryState::Received, HistoryEvent::Arrived { range: Some("10m".to_string()), now });
    assert_eq!(s, HistoryState::Answered);
    assert!(matches!(a, HistoryAction::Answer(Err(ApiError::InvalidRange(_)))));
    let (s, _) = history_next(HistoryState::Received, HistoryEvent::Arrived { range: None, now });
    assert_eq!(s, HistoryState::Answered);

    let (s, a) = history_next(HistoryState::Received, HistoryEvent::Arrived { range: Some("1h".to_string()), now });
    let start = ts(1_789_520_400, 0);
    assert_eq!(s, HistoryState::LookingUpNode { range: MetricsRange::OneHour, start, end: now });
    assert!(matches!(a, HistoryAction::LookUpNode));

    let (done, a) = history_next(s, HistoryEvent::NodeLookedUp(Ok(None)));
    assert_eq!(done, HistoryState::Answered);
    assert!(matches!(&a, HistoryAction::Answer(Err(ApiError::NotFound(m))) if m == "Node not found"));

    let (failed, a) = history_next(s, HistoryEvent::NodeLookedUp(Err("connection refused".to_string())));
    assert_eq!(failed, HistoryState::Answered);
    assert!(matches!(&a, HistoryAction::Answer(Err(ApiError::DatabaseError(m))) if m == "Unable to retrieve historical metrics"));

    let (fetching, a) = history_next(s, HistoryEvent::NodeLookedUp(Ok(Some(node("a", now)))));
    assert_eq!(fetching, HistoryState::FetchingHistory { range: MetricsRange::OneHour, start, end: now });
    assert!(matches!(a, HistoryAction::FetchHistory { since, limit: 10_000 } if since == start));

    let (done, a) = history_next(fetching, HistoryEvent::HistoryFetched(Ok(vec![sample(1_789_520_405)])));
    assert_eq!(done, HistoryState::Answered);
    match a {
        HistoryAction::Answer(Ok(resp)) => {
            assert_eq!(resp.range, "1h");
            assert_eq!(resp.count, 1);
        }
        _ => panic!("expected an answer"),
    }
}

#[test]
fn ingest_steps_skip_the_insert_on_mismatch() {
    let payload = TelemetryPayload { node_id: "a".to_string(), metrics: sample(5) };

    let (s, a) = ingest_next(IngestState::Received, IngestEvent::Arrived { node_id: "b".to_string(), payload: payload.clone() });
    assert_eq!(s, IngestState::Answered);
    assert!(matches!(&a, IngestAction::Answer { result: Err(ApiError::BadRequest(m)), latest: None } if m == "Node ID mismatch"));

    let (s, a) = ingest_next(IngestState::Received, IngestEvent::Arrived { node_id: "a".to_string(), payload });
    assert_eq!(s, IngestState::Inserting { metrics: sample(5) });
    assert!(matches!(&a, IngestAction::Insert { node_id, metrics } if node_id == "a" && *metrics == sample(5)));

    let (_, a) = ingest_next(s, IngestEvent::Inserted(Err("violates foreign key constraint \"fk_node\"".to_string())));
    assert!(matches!(&a, IngestAction::Answer { result: Err(ApiError::NotFound(_)), latest: None }));

    let (done, a) = ingest_next(s, IngestEvent::Inserted(Ok(())));
    assert_eq!(done, IngestState::Answered);
    let mut store = LatestMetrics::new();
    assert!(matches!(&store.current(), Err(ApiError::NotFound(m)) if m == "No metrics collected yet"));
    match a {
        IngestAction::Answer { result: Ok(201), latest: Some(m) } => store.record(m),
        _ => panic!("expected a stored upload"),
    }
    assert_eq!(store.current().unwrap(), sample(5));
    store.record(sample(10));
    assert_eq!(store.current().unwrap(), sample(10));
}
