use cloudmesh::telemetry::{counter_growth, disk_usage, total_of, DiskUsage};

#[test]
fn totals_and_overflow() {
    assert_eq!(total_of(&vec![]), Some(0));
    assert_eq!(total_of(&vec![1, 2, 3]), Some(6));
    assert_eq!(total_of(&vec![u64::MAX, 0]), Some(u64::MAX));
    assert_eq!(total_of(&vec![u64::MAX, 1]), None);
}

#[test]
fn disk_space_over_all_disks() {
    assert_eq!(
        disk_usage(&vec![500, 300], &vec![100, 50]),
        Some(DiskUsage { used: 650, total: 800 })
    );
    assert_eq!(disk_usage(&vec![100], &vec![150]), Some(DiskUsage { used: 0, total: 100 }));
    assert_eq!(disk_usage(&vec![], &vec![]), Some(DiskUsage { used: 0, total: 0 }));
    assert_eq!(disk_usage(&vec![u64::MAX, 1], &vec![0]), None);
}

#[test]
fn network_counter_growth() {
    assert_eq!(counter_growth(&vec![100, 200], &vec![150, 260]), Some(110));
    assert_eq!(counter_growth(&vec![500], &vec![100]), Some(0));
    assert_eq!(counter_growth(&vec![u64::MAX, 1], &vec![0]), None);
}
