//! The values in a snapshot, on their own.

use cache_snapshot::policy::{EvictionPolicy, EvictionStrategy, Policy};
use cache_snapshot::snapshot::{
    CacheSnapshot, MaintenanceStatus, SnapshotAccuracy, SnapshotValue,
};

use std::time::Duration;

fn snapshot(entry_count: SnapshotAccuracy, weighted_size: SnapshotAccuracy) -> CacheSnapshot {
    CacheSnapshot::new(
        Policy::new(
            Some(100),
            Some(Duration::from_secs(30)),
            Some(Duration::from_millis(5)),
        ),
        EvictionPolicy::lru(),
        SnapshotValue::new(3, entry_count),
        SnapshotValue::new(17, weighted_size),
        MaintenanceStatus::new(9, 4, 2, true),
    )
}

#[test]
fn snapshot_returns_what_it_was_made_of() {
    let snap = snapshot(SnapshotAccuracy::Exact, SnapshotAccuracy::Exact);
    assert_eq!(snap.policy().max_capacity(), Some(100));
    assert_eq!(snap.policy().time_to_live(), Some(Duration::from_secs(30)));
    assert_eq!(snap.policy().time_to_idle(), Some(Duration::from_millis(5)));
    assert_eq!(snap.max_capacity(), Some(100));
    assert_eq!(snap.time_to_live(), Some(Duration::from_secs(30)));
    assert_eq!(snap.time_to_idle(), Some(Duration::from_millis(5)));
    assert_eq!(snap.eviction_policy().strategy(), EvictionStrategy::Lru);
    assert_eq!(snap.eviction_strategy(), EvictionStrategy::Lru);
    assert_eq!(snap.entry_count(), SnapshotValue::new(3, SnapshotAccuracy::Exact));
    assert_eq!(snap.weighted_size(), SnapshotValue::new(17, SnapshotAccuracy::Exact));
    assert_eq!(snap.maintenance(), MaintenanceStatus::new(9, 4, 2, true));
    assert_eq!(snap.maintenance_generation(), 9);
    assert_eq!(snap.generation(), 9);
    assert_eq!(snap.pending_write_ops(), 2);
}

#[test]
fn clone_of_a_snapshot_holds_the_same() {
    let snap = snapshot(SnapshotAccuracy::Approximate, SnapshotAccuracy::Approximate);
    let clone = snap.clone();
    assert_eq!(format!("{:?}", clone), format!("{:?}", snap));
    assert_eq!(clone.entry_count(), snap.entry_count());
    assert_eq!(clone.max_capacity(), Some(100));
}

#[test]
fn snapshot_is_exact_where_both_counters_are() {
    assert!(snapshot(SnapshotAccuracy::Exact, SnapshotAccuracy::Exact).is_exact());
    assert!(!snapshot(SnapshotAccuracy::Exact, SnapshotAccuracy::Approximate).is_exact());
    assert!(!snapshot(SnapshotAccuracy::Approximate, SnapshotAccuracy::Exact).is_exact());
    assert!(!snapshot(SnapshotAccuracy::Unmaintained, SnapshotAccuracy::Unmaintained).is_exact());
}

#[test]
fn value_keeps_its_accuracy() {
    let exact = SnapshotValue::new(5u64, SnapshotAccuracy::Exact);
    assert_eq!(exact.value(), 5);
    assert_eq!(exact.accuracy(), SnapshotAccuracy::Exact);
    assert!(exact.is_exact());
    let approximate = SnapshotValue::new('x', SnapshotAccuracy::Approximate);
    assert_eq!(approximate.value(), 'x');
    assert_eq!(approximate.accuracy(), SnapshotAccuracy::Approximate);
    assert!(!approximate.is_exact());
    assert!(!SnapshotValue::new(5u64, SnapshotAccuracy::Unmaintained).is_exact());
    assert_ne!(exact, SnapshotValue::new(5u64, SnapshotAccuracy::Unmaintained));
}

#[test]
fn status_tells_whether_operations_wait() {
    assert!(!MaintenanceStatus::new(1, 0, 0, true).has_pending_ops());
    assert!(MaintenanceStatus::new(1, 1, 0, false).has_pending_ops());
    assert!(MaintenanceStatus::new(1, 0, 1, false).has_pending_ops());
    assert!(MaintenanceStatus::new(1, usize::MAX, usize::MAX, false).has_pending_ops());
}

#[test]
fn status_returns_what_it_was_made_of() {
    let status = MaintenanceStatus::new(u64::MAX, 12, 34, false);
    assert_eq!(status.generation(), u64::MAX);
    assert_eq!(status.pending_read_ops(), 12);
    assert_eq!(status.pending_write_ops(), 34);
    assert!(!status.is_running());
    assert!(MaintenanceStatus::new(0, 0, 0, true).is_running());
}

#[test]
fn eviction_policy_defaults_to_tiny_lfu() {
    assert_eq!(EvictionPolicy::default().strategy(), EvictionStrategy::TinyLfu);
    assert_eq!(EvictionPolicy::tiny_lfu().strategy(), EvictionStrategy::TinyLfu);
    assert_eq!(EvictionPolicy::lru().clone().strategy(), EvictionStrategy::Lru);
}

#[test]
fn values_and_statuses_are_equal_where_all_fields_are() {
    let value = SnapshotValue::new(5u64, SnapshotAccuracy::Exact);
    assert_eq!(value, SnapshotValue::new(5u64, SnapshotAccuracy::Exact));
    assert_ne!(value, SnapshotValue::new(6u64, SnapshotAccuracy::Exact));
    assert_ne!(value, SnapshotValue::new(5u64, SnapshotAccuracy::Approximate));
    let status = MaintenanceStatus::new(1, 2, 3, false);
    assert_eq!(status, MaintenanceStatus::new(1, 2, 3, false));
    assert_ne!(status, MaintenanceStatus::new(2, 2, 3, false));
    assert_ne!(status, MaintenanceStatus::new(1, 3, 3, false));
    assert_ne!(status, MaintenanceStatus::new(1, 2, 2, false));
    assert_ne!(status, MaintenanceStatus::new(1, 2, 3, true));
}
