//! The steps of a maintenance run, and the snapshots between them.

use cache_snapshot::ledger::MaintenanceLedger;
use cache_snapshot::policy::{EvictionPolicy, EvictionStrategy, Policy};
use cache_snapshot::snapshot::{CacheSnapshot, SnapshotAccuracy};

fn ledger(max_capacity: Option<u64>) -> MaintenanceLedger {
    MaintenanceLedger::new(Policy::new(max_capacity, None, None), EvictionPolicy::lru())
}

fn counters(snap: &CacheSnapshot) -> (u64, u64) {
    (snap.entry_count().value(), snap.weighted_size().value())
}

fn accuracy(snap: &CacheSnapshot) -> SnapshotAccuracy {
    assert_eq!(snap.entry_count().accuracy(), snap.weighted_size().accuracy());
    snap.entry_count().accuracy()
}

#[test]
fn first_run_is_unmaintained_until_it_is_finished() {
    let mut ledger = ledger(None);
    ledger.record_upsert(1, 3);
    assert!(ledger.begin_run());
    assert!(ledger.snapshot().maintenance().is_running());
    assert_eq!(ledger.apply_pending(&vec![], &vec![]), 0);
    assert_eq!(accuracy(&ledger.snapshot()), SnapshotAccuracy::Unmaintained);
    ledger.publish_first();
    assert_eq!(accuracy(&ledger.snapshot()), SnapshotAccuracy::Unmaintained);
    assert_eq!(counters(&ledger.snapshot()), (0, 0));
    assert_eq!(ledger.snapshot().generation(), 0);
    ledger.finish_run();
    let snap = ledger.snapshot();
    assert!(snap.is_exact());
    assert_eq!(counters(&snap), (1, 3));
    assert_eq!(snap.generation(), 1);
    assert!(!snap.maintenance().is_running());
    assert!(!snap.maintenance().has_pending_ops());
}

#[test]
fn counters_grow_weight_first() {
    let mut ledger = ledger(None);
    ledger.record_upsert(1, 1);
    ledger.run_pending_tasks(&vec![], &vec![]);
    ledger.record_upsert(2, 1);
    ledger.record_upsert(3, 1);
    ledger.begin_run();
    ledger.apply_pending(&vec![], &vec![]);
    assert!(ledger.snapshot().is_exact());
    assert_eq!(counters(&ledger.snapshot()), (1, 1));
    ledger.publish_first();
    let snap = ledger.snapshot();
    assert_eq!(accuracy(&snap), SnapshotAccuracy::Approximate);
    assert_eq!(counters(&snap), (1, 3));
    assert_eq!(snap.generation(), 1);
    assert_eq!(snap.pending_write_ops(), 2);
    ledger.finish_run();
    assert!(ledger.snapshot().is_exact());
    assert_eq!(counters(&ledger.snapshot()), (3, 3));
    assert_eq!(ledger.snapshot().pending_write_ops(), 0);
}

#[test]
fn counters_shrink_count_first() {
    let mut ledger = ledger(None);
    for key in 0..5u64 {
        ledger.record_upsert(key, 1);
    }
    ledger.run_pending_tasks(&vec![], &vec![]);
    ledger.record_removal(0);
    ledger.record_removal(1);
    ledger.begin_run();
    ledger.apply_pending(&vec![], &vec![]);
    ledger.publish_first();
    let snap = ledger.snapshot();
    assert_eq!(accuracy(&snap), SnapshotAccuracy::Approximate);
    assert_eq!(counters(&snap), (3, 5));
    assert_eq!(snap.pending_write_ops(), 2);
    ledger.finish_run();
    assert_eq!(counters(&ledger.snapshot()), (3, 3));
}

#[test]
fn run_without_writes_stays_exact() {
    let mut ledger = ledger(None);
    ledger.record_upsert(1, 2);
    ledger.run_pending_tasks(&vec![], &vec![]);
    ledger.begin_run();
    ledger.apply_pending(&vec![], &vec![]);
    ledger.publish_first();
    ledger.record_upsert(2, 2);
    let snap = ledger.snapshot();
    assert!(snap.is_exact());
    assert_eq!(counters(&snap), (1, 2));
    assert_eq!(snap.pending_write_ops(), 1);
    ledger.finish_run();
    assert_eq!(ledger.snapshot().generation(), 2);
    assert_eq!(counters(&ledger.snapshot()), (1, 2));
}

#[test]
fn operations_during_a_run_wait_for_the_next_one() {
    let mut ledger = ledger(None);
    ledger.record_read();
    ledger.record_upsert(1, 1);
    ledger.begin_run();
    ledger.apply_pending(&vec![], &vec![]);
    ledger.record_read();
    ledger.record_read();
    ledger.record_upsert(2, 1);
    ledger.publish_first();
    ledger.finish_run();
    let snap = ledger.snapshot();
    assert!(snap.is_exact());
    assert_eq!(counters(&snap), (1, 1));
    assert_eq!(snap.maintenance().pending_read_ops(), 2);
    assert_eq!(snap.maintenance().pending_write_ops(), 1);
    assert!(snap.maintenance().has_pending_ops());
    ledger.run_pending_tasks(&vec![], &vec![]);
    assert_eq!(counters(&ledger.snapshot()), (2, 2));
    assert!(!ledger.snapshot().maintenance().has_pending_ops());
}

#[test]
fn write_changes_nothing_but_the_queue() {
    let mut ledger = ledger(Some(10));
    ledger.record_upsert(1, 4);
    ledger.run_pending_tasks(&vec![], &vec![1]);
    let before = ledger.snapshot();
    ledger.record_removal(1);
    ledger.record_read();
    let after = ledger.snapshot();
    assert_eq!(after.entry_count(), before.entry_count());
    assert_eq!(after.weighted_size(), before.weighted_size());
    assert_eq!(after.generation(), before.generation());
    assert_eq!(after.pending_write_ops(), before.pending_write_ops() + 1);
    assert_eq!(after.maintenance().pending_read_ops(), 1);
    assert_eq!(after.max_capacity(), Some(10));
    assert_eq!(after.eviction_strategy(), EvictionStrategy::Lru);
}

#[test]
fn only_one_run_at_a_time() {
    let mut ledger = ledger(None);
    assert!(ledger.begin_run());
    assert!(!ledger.begin_run());
    ledger.apply_pending(&vec![], &vec![]);
    assert!(!ledger.begin_run());
    ledger.publish_first();
    assert!(!ledger.begin_run());
    ledger.finish_run();
    assert!(ledger.begin_run());
}

#[test]
fn eviction_follows_the_ranking_as_far_as_it_must() {
    let mut ledger = ledger(Some(10));
    ledger.record_upsert(1, 4);
    ledger.record_upsert(2, 5);
    ledger.record_upsert(3, 6);
    assert_eq!(ledger.run_pending_tasks(&vec![], &vec![2, 3, 1]), 1);
    assert_eq!(counters(&ledger.snapshot()), (2, 10));
    ledger.record_upsert(4, 11);
    assert_eq!(ledger.run_pending_tasks(&vec![], &vec![1, 3, 4]), 3);
    assert_eq!(counters(&ledger.snapshot()), (0, 0));
}

#[test]
fn last_write_of_a_key_counts() {
    let mut ledger = ledger(None);
    ledger.record_upsert(1, 4);
    ledger.record_upsert(1, 9);
    ledger.record_upsert(2, 1);
    ledger.record_removal(2);
    ledger.record_removal(3);
    ledger.run_pending_tasks(&vec![], &vec![]);
    assert_eq!(counters(&ledger.snapshot()), (1, 9));
    ledger.record_upsert(1, 2);
    ledger.run_pending_tasks(&vec![], &vec![]);
    assert_eq!(counters(&ledger.snapshot()), (1, 2));
}

#[test]
fn weightless_entries_count() {
    let mut ledger = ledger(Some(0));
    ledger.record_upsert(1, 0);
    ledger.record_upsert(2, 0);
    assert_eq!(ledger.run_pending_tasks(&vec![], &vec![1, 2]), 0);
    assert_eq!(counters(&ledger.snapshot()), (2, 0));
}

#[test]
fn generation_counts_the_runs() {
    let mut ledger = ledger(None);
    for runs in 0..20u64 {
        assert_eq!(ledger.snapshot().generation(), runs);
        ledger.run_pending_tasks(&vec![], &vec![]);
    }
}

#[test]
fn snapshots_stay_consistent_at_every_step() {
    let mut ledger = ledger(Some(20));
    let mut ranking: Vec<u64> = Vec::new();
    let mut last_generation = 0;
    let mut check = |ledger: &MaintenanceLedger| {
        let snap = ledger.snapshot();
        match accuracy(&snap) {
            SnapshotAccuracy::Unmaintained => {
                assert_eq!(snap.generation(), 0);
                assert_eq!(counters(&snap), (0, 0));
            }
            SnapshotAccuracy::Exact => assert!(snap.generation() >= 1),
            SnapshotAccuracy::Approximate => {
                assert!(snap.generation() >= 1);
                assert!(snap.pending_write_ops() > 0);
                assert!(snap.maintenance().is_running());
            }
        }
        assert!(snap.weighted_size().value() >= snap.entry_count().value());
        assert!(snap.weighted_size().value() <= 20);
        assert!(snap.generation() >= last_generation);
        last_generation = snap.generation();
    };
    for round in 0..50u64 {
        for i in 0..4u64 {
            let key = (round * 7 + i * 3) % 23;
            ledger.record_upsert(key, (key % 5 + 1) as u32);
            ranking.retain(|k| *k != key);
            ranking.push(key);
            check(&ledger);
        }
        ledger.begin_run();
        check(&ledger);
        let expired = vec![round % 23];
        ranking.retain(|k| *k != round % 23);
        let evicted = ledger.apply_pending(&expired, &ranking);
        ranking.drain(..evicted);
        check(&ledger);
        ledger.publish_first();
        check(&ledger);
        ledger.finish_run();
        check(&ledger);
        assert_eq!(ledger.snapshot().entry_count().value(), ranking.len() as u64);
    }
}

#[test]
fn sweep_of_expired_entries_leaves_the_queue_alone() {
    let mut ledger = ledger(None);
    ledger.record_upsert(1, 1);
    ledger.record_upsert(2, 1);
    ledger.run_pending_tasks(&vec![], &vec![]);
    ledger.begin_run();
    ledger.apply_pending(&vec![1], &vec![]);
    assert!(!ledger.snapshot().maintenance().has_pending_ops());
    assert!(ledger.snapshot().is_exact());
    assert_eq!(counters(&ledger.snapshot()), (2, 2));
    ledger.publish_first();
    assert!(!ledger.snapshot().maintenance().has_pending_ops());
    assert!(ledger.snapshot().is_exact());
    assert_eq!(counters(&ledger.snapshot()), (2, 2));
    ledger.finish_run();
    assert!(!ledger.snapshot().maintenance().has_pending_ops());
    assert!(ledger.snapshot().is_exact());
    assert_eq!(counters(&ledger.snapshot()), (1, 1));
}

#[test]
fn eviction_leaves_the_queue_alone() {
    let mut ledger = ledger(Some(3));
    ledger.record_upsert(1, 2);
    ledger.record_upsert(2, 2);
    ledger.begin_run();
    assert_eq!(ledger.apply_pending(&vec![], &vec![1, 2]), 1);
    assert_eq!(ledger.snapshot().pending_write_ops(), 2);
    ledger.publish_first();
    ledger.finish_run();
    assert_eq!(ledger.snapshot().pending_write_ops(), 0);
    assert_eq!(counters(&ledger.snapshot()), (1, 2));
}
