use cloudmesh::db::{heartbeat_recorded, StoredMetrics, MAX_HISTORICAL_METRICS_LIMIT};
use cloudmesh::models::SystemMetrics;
use cloudmesh::time::Timestamp;

fn sample(value: u64) -> SystemMetrics {
    SystemMetrics {
        timestamp: Timestamp::from_parts(1_700_000_000, 5).unwrap(),
        cpu_usage_bits: 55.5f32.to_bits(),
        memory_used: value,
        memory_total: value / 2,
        disk_used: 0,
        disk_total: u64::MAX,
        network_received: 1 << 63,
        network_transmitted: 830,
    }
}

#[test]
fn stored_samples_read_back_unchanged() {
    for v in [0u64, 1, i64::MAX as u64, (i64::MAX as u64) + 1, u64::MAX] {
        let m = sample(v);
        let row = m.to_stored();
        assert_eq!(row.memory_used, v as i64);
        assert_eq!(row.disk_total, -1);
        assert_eq!(row.network_rx, i64::MIN);
        assert_eq!(SystemMetrics::from_stored(&row), m);
    }
}

#[test]
fn rows_map_to_samples_bit_for_bit() {
    let row = StoredMetrics {
        timestamp: Timestamp::from_parts(0, 0).unwrap(),
        cpu_usage_bits: 0,
        memory_used: -2,
        memory_total: 7,
        disk_used: i64::MIN,
        disk_total: i64::MAX,
        network_rx: 0,
        network_tx: -1,
    };
    let m = SystemMetrics::from_stored(&row);
    assert_eq!(m.memory_used, u64::MAX - 1);
    assert_eq!(m.disk_used, 1 << 63);
    assert_eq!(m.network_transmitted, u64::MAX);
    assert_eq!(m.to_stored(), row);
}

#[test]
fn heartbeat_needs_an_affected_row() {
    assert!(!heartbeat_recorded(0));
    assert!(heartbeat_recorded(1));
    assert_eq!(MAX_HISTORICAL_METRICS_LIMIT, 10_000);
}
