use cloudmesh::agent::{
    heartbeat_interval_secs, AgentAction, AgentEvent, AgentMachine, AgentPhase, AgentStartError,
    AgentWorker,
};
use cloudmesh::config::{AppConfig, ConfigSource};

fn config(server: Option<&str>, key: Option<&str>, threshold: &str) -> AppConfig {
    AppConfig::from_source(ConfigSource {
        database_url: None,
        cloudmesh_server_url: server.map(|s| s.to_string()),
        api_key: key.map(|s| s.to_string()),
        node_id: Some("node-1".to_string()),
        hostname: None,
        telemetry_interval: Some("10".to_string()),
        offline_threshold: Some(threshold.to_string()),
    })
}

#[test]
fn agent_needs_a_server_and_a_key() {
    let w = AgentWorker::new(config(None, Some("k"), "30"));
    assert_eq!(w.plan().unwrap_err(), AgentStartError::MissingServerUrl);
    let w = AgentWorker::new(config(Some("http://s"), None, "30"));
    assert_eq!(w.plan().unwrap_err(), AgentStartError::MissingApiKey);
    let w = AgentWorker::new(config(Some("http://s"), Some("  \t"), "30"));
    assert_eq!(w.plan().unwrap_err(), AgentStartError::MissingApiKey);
}

#[test]
fn plan_urls_and_intervals() {
    let w = AgentWorker::new(config(Some("http://central:3000//"), Some("key"), "30"));
    let plan = w.plan().unwrap();
    assert_eq!(plan.server_url, "http://central:3000");
    assert_eq!(plan.api_key, "key");
    assert_eq!(plan.telemetry_interval_secs, 10);
    assert_eq!(plan.heartbeat_interval_secs, 15);
    assert_eq!(plan.register_url(), "http://central:3000/api/nodes");
    assert_eq!(plan.telemetry_url(), "http://central:3000/api/nodes/node-1/telemetry");
    assert_eq!(plan.heartbeat_url(), "http://central:3000/api/nodes/node-1/heartbeat");
    let req = plan.registration_request(None, "linux".to_string(), "x86_64".to_string(), "0.1.0".to_string());
    assert_eq!(req.node_id, "node-1");
    assert_eq!(req.hostname, "unknown");
    assert_eq!(req.os, "linux");
    let req = plan.registration_request(Some("box".to_string()), "linux".to_string(), "x86_64".to_string(), "0.1.0".to_string());
    assert_eq!(req.hostname, "box");
}

#[test]
fn heartbeat_interval_is_half_the_threshold_and_at_least_five() {
    for t in [-100i64, -11, -1, 0, 1, 9, 10, 11, 30, 31, i64::MAX, i64::MIN] {
        let expected = (t / 2).max(5) as u64;
        assert_eq!(heartbeat_interval_secs(t), expected, "threshold {t}");
    }
}

#[test]
fn registration_retries_and_reports_every_twelfth_failure() {
    let plan = AgentWorker::new(config(Some("http://s"), Some("k"), "30")).plan().unwrap();
    let (mut m, first) = AgentMachine::start(&plan);
    assert_eq!(first, AgentAction::Register);
    assert_eq!(m.phase, AgentPhase::Registering);
    for attempt in 1..=24 {
        let a = m.step(AgentEvent::RegistrationAnswered { accepted: false });
        let report = if attempt % 12 == 0 { Some(attempt) } else { None };
        assert_eq!(a, AgentAction::RetryRegistration { delay_secs: 5, report_attempts: report });
        assert_eq!(m.attempts, attempt);
    }
    m.attempts = i32::MAX;
    let a = m.step(AgentEvent::RegistrationAnswered { accepted: false });
    assert_eq!(m.attempts, i32::MIN);
    assert_eq!(a, AgentAction::RetryRegistration { delay_secs: 5, report_attempts: None });
    assert_eq!(m.phase, AgentPhase::Registering);
    assert_eq!(m.step(AgentEvent::CycleFinished { secs_since_heartbeat: 100 }), AgentAction::Register);
    assert_eq!(m.step(AgentEvent::RegistrationAnswered { accepted: true }), AgentAction::BeginReporting);
    assert_eq!(m.phase, AgentPhase::Reporting);
}

#[test]
fn heartbeat_goes_out_when_due() {
    let plan = AgentWorker::new(config(Some("http://s"), Some("k"), "30")).plan().unwrap();
    let (mut m, _) = AgentMachine::start(&plan);
    m.step(AgentEvent::RegistrationAnswered { accepted: true });
    assert_eq!(m.step(AgentEvent::CycleFinished { secs_since_heartbeat: 14 }), AgentAction::NextCycle);
    assert_eq!(m.step(AgentEvent::CycleFinished { secs_since_heartbeat: 15 }), AgentAction::SendHeartbeat);
    assert_eq!(m.step(AgentEvent::HeartbeatAnswered { accepted: false }), AgentAction::NextCycle);
    assert_eq!(m.step(AgentEvent::HeartbeatAnswered { accepted: true }), AgentAction::RestartHeartbeatClock);
    assert_eq!(m.step(AgentEvent::RegistrationAnswered { accepted: false }), AgentAction::NextCycle);
    assert_eq!(m.phase, AgentPhase::Reporting);
}
