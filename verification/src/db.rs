//! How telemetry samples are laid out in the database, whose integer columns
//! are signed 64-bit (`BIGINT`).
use vstd::prelude::*;

use crate::models::SystemMetrics;
use crate::time::Timestamp;

verus! {

/// Maximum number of records returned by a single historical telemetry query
/// to prevent unbounded memory usage and maintain database/API responsiveness.
/// At 5-second collection intervals, 10,000 records covers ~13.8 hours of continuous telemetry.
pub const MAX_HISTORICAL_METRICS_LIMIT: i64 = 10_000;

/// One row of the `telemetry` table (without its node id): the counters are
/// stored as `i64`, bit for bit.
#[derive(Clone, Copy, Debug, PartialEq, Eq, Structural)]
pub struct StoredMetrics {
    pub timestamp: Timestamp,
    pub cpu_usage_bits: u32,
    pub memory_used: i64,
    pub memory_total: i64,
    pub disk_used: i64,
    pub disk_total: i64,
    pub network_rx: i64,
    pub network_tx: i64,
}

/// A `u64` stored in an `i64` column, bit for bit (`x as i64`).
pub open spec fn to_column(x: u64) -> i64 {
    if x <= i64::MAX {
        x as i64
    } else {
        (x - 0x1_0000_0000_0000_0000) as i64
    }
}

/// An `i64` column read back as a `u64`, bit for bit (`x as u64`).
pub open spec fn from_column(x: i64) -> u64 {
    if x >= 0 {
        x as u64
    } else {
        (x + 0x1_0000_0000_0000_0000) as u64
    }
}

fn column_of(x: u64) -> (r: i64)
    ensures
        r == to_column(x),
{
    if x <= 9_223_372_036_854_775_807u64 {
        x as i64
    } else {
        let below: u64 = x - 9_223_372_036_854_775_808u64;
        let r: i64 = below as i64;
        r - 9_223_372_036_854_775_807i64 - 1
    }
}

fn value_of(x: i64) -> (r: u64)
    ensures
        r == from_column(x),
{
    if x >= 0 {
        x as u64
    } else {
        let above: i64 = x + 9_223_372_036_854_775_807i64 + 1;
        (above as u64) + 9_223_372_036_854_775_808u64
    }
}

impl SystemMetrics {
    /// The row that stores this sample.
    pub fn to_stored(&self) -> (row: StoredMetrics)
        ensures
            row == (StoredMetrics {
                timestamp: self.timestamp,
                cpu_usage_bits: self.cpu_usage_bits,
                memory_used: to_column(self.memory_used),
                memory_total: to_column(self.memory_total),
                disk_used: to_column(self.disk_used),
                disk_total: to_column(self.disk_total),
                network_rx: to_column(self.network_received),
                network_tx: to_column(self.network_transmitted),
            }),
    {
        StoredMetrics {
            timestamp: self.timestamp,
            cpu_usage_bits: self.cpu_usage_bits,
            memory_used: column_of(self.memory_used),
            memory_total: column_of(self.memory_total),
            disk_used: column_of(self.disk_used),
            disk_total: column_of(self.disk_total),
            network_rx: column_of(self.network_received),
            network_tx: column_of(self.network_transmitted),
        }
    }

    /// The sample that a row stores.
    pub fn from_stored(row: &StoredMetrics) -> (m: SystemMetrics)
        ensures
            m == (SystemMetrics {
                timestamp: row.timestamp,
                cpu_usage_bits: row.cpu_usage_bits,
                memory_used: from_column(row.memory_used),
                memory_total: from_column(row.memory_total),
                disk_used: from_column(row.disk_used),
                disk_total: from_column(row.disk_total),
                network_received: from_column(row.network_rx),
                network_transmitted: from_column(row.network_tx),
            }),
    {
        SystemMetrics {
            timestamp: row.timestamp,
            cpu_usage_bits: row.cpu_usage_bits,
            memory_used: value_of(row.memory_used),
            memory_total: value_of(row.memory_total),
            disk_used: value_of(row.disk_used),
            disk_total: value_of(row.disk_total),
            network_received: value_of(row.network_rx),
            network_transmitted: value_of(row.network_tx),
        }
    }
}

/// Spec of `SystemMetrics::to_stored`.
pub open spec fn stored(m: SystemMetrics) -> StoredMetrics {
    StoredMetrics {
        timestamp: m.timestamp,
        cpu_usage_bits: m.cpu_usage_bits,
        memory_used: to_column(m.memory_used),
        memory_total: to_column(m.memory_total),
        disk_used: to_column(m.disk_used),
        disk_total: to_column(m.disk_total),
        network_rx: to_column(m.network_received),
        network_tx: to_column(m.network_transmitted),
    }
}

/// Spec of `SystemMetrics::from_stored`.
pub open spec fn loaded(row: StoredMetrics) -> SystemMetrics {
    SystemMetrics {
        timestamp: row.timestamp,
        cpu_usage_bits: row.cpu_usage_bits,
        memory_used: from_column(row.memory_used),
        memory_total: from_column(row.memory_total),
        disk_used: from_column(row.disk_used),
        disk_total: from_column(row.disk_total),
        network_received: from_column(row.network_rx),
        network_transmitted: from_column(row.network_tx),
    }
}

/// Reading a stored sample gives back the sample that was written, every
/// counter included, however large.
pub proof fn lemma_stored_sample_reads_back(m: SystemMetrics)
    ensures
        loaded(stored(m)) == m,
{
}

/// Every row is the storage of exactly one sample.
pub proof fn lemma_row_stores_its_sample(row: StoredMetrics)
    ensures
        stored(loaded(row)) == row,
{
}

/// Whether a heartbeat update found its node: some row was affected.
pub fn heartbeat_recorded(rows_affected: u64) -> (r: bool)
    ensures
        r == (rows_affected > 0),
{
    rows_affected > 0
}


/// A stored counter is the same number modulo 2^64, inside the range of a
/// signed column: unchanged up to `i64::MAX`, less 2^64 above it.
pub proof fn lemma_column_is_same_bits(x: u64)
    ensures
        i64::MIN <= to_column(x) <= i64::MAX,
        x <= i64::MAX ==> to_column(x) == x,
        x > i64::MAX ==> to_column(x) == x - 0x1_0000_0000_0000_0000,
        from_column(to_column(x)) == x,
{
}

} // verus!
