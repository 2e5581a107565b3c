//! Provides a read-only, point-in-time snapshot of a cache's policy and
//! maintenance state.
//!
//! A snapshot is a best-effort, non-linearizable view of a live cache: taking
//! one does not pause writers, does not wait for the maintenance queue to
//! drain, and never invokes user code. To make the snapshot explainable, every
//! observed counter is paired with a [`SnapshotAccuracy`], and the two counters
//! of an exact snapshot come from one maintenance generation.

pub use crate::policy::EvictionStrategy;

use crate::policy::{EvictionPolicy, Policy, PolicyView};
use std::time::Duration;
use vstd::prelude::*;

verus! {

/// Indicates how accurate a value in a [`CacheSnapshot`] is.
#[derive(Clone, Copy, Debug, PartialEq, Eq, Hash, Structural)]
pub enum SnapshotAccuracy {
    /// The value was read consistently from a completed maintenance
    /// generation. It exactly reflects the cache state observed by that
    /// maintenance run (newer writes may still be waiting in the maintenance
    /// queue).
    Exact,
    /// The value could not be read consistently without blocking because a
    /// maintenance run was concurrently publishing new counters. It is a
    /// best-effort estimate that may mix values from adjacent maintenance
    /// generations.
    Approximate,
    /// No maintenance run has completed yet, so the value is the initial
    /// estimate maintained by the cache and likely lags behind the actual
    /// cache contents.
    Unmaintained,
}

/// The accuracy of a metric in a snapshot.
pub type MetricAccuracy = SnapshotAccuracy;

/// What a [`SnapshotValue`] holds.
pub struct SnapshotValueView<T> {
    pub value: T,
    pub accuracy: SnapshotAccuracy,
}

/// A value observed in a [`CacheSnapshot`], paired with its accuracy.
#[derive(Clone, Copy, Debug, PartialEq, Eq, Hash, Structural)]
pub struct SnapshotValue<T> {
    value: T,
    accuracy: SnapshotAccuracy,
}

impl<T> View for SnapshotValue<T> {
    type V = SnapshotValueView<T>;

    closed spec fn view(&self) -> SnapshotValueView<T> {
        SnapshotValueView { value: self.value, accuracy: self.accuracy }
    }
}

impl<T> SnapshotValue<T> {
    /// Two observed values are equal exactly where their values and their
    /// accuracies are.
    pub proof fn lemma_view_determines(self, other: Self)
        ensures
            (self@ == other@) == (self == other),
    {
    }
}

impl<T: Copy> SnapshotValue<T> {
    /// Pairs a value with its accuracy.
    pub fn new(value: T, accuracy: SnapshotAccuracy) -> (observed: Self)
        ensures
            observed@ == (SnapshotValueView { value, accuracy }),
    {
        Self { value, accuracy }
    }

    /// Returns the observed value.
    pub fn value(&self) -> (value: T)
        ensures
            value == self@.value,
    {
        self.value
    }

    /// Returns the accuracy of the observed value.
    pub fn accuracy(&self) -> (accuracy: SnapshotAccuracy)
        ensures
            accuracy == self@.accuracy,
    {
        self.accuracy
    }

    /// Returns `true` if the value is exact.
    pub fn is_exact(&self) -> (exact: bool)
        ensures
            exact == (self@.accuracy == SnapshotAccuracy::Exact),
    {
        self.accuracy == SnapshotAccuracy::Exact
    }
}

/// What a [`MaintenanceStatus`] holds.
pub struct MaintenanceStatusView {
    pub generation: nat,
    pub pending_read_ops: nat,
    pub pending_write_ops: nat,
    pub is_running: bool,
}

impl MaintenanceStatusView {
    /// Some operation waits in the maintenance queue.
    pub open spec fn lags(self) -> bool {
        self.pending_read_ops + self.pending_write_ops > 0
    }
}

/// The status of a cache's maintenance at the time of a [`CacheSnapshot`].
///
/// All values in this status are instantaneous observations; they may already
/// be outdated by the time they are inspected.
#[derive(Clone, Copy, Debug, PartialEq, Eq, Hash, Structural)]
pub struct MaintenanceStatus {
    generation: u64,
    pending_read_ops: usize,
    pending_write_ops: usize,
    is_running: bool,
}

impl View for MaintenanceStatus {
    type V = MaintenanceStatusView;

    closed spec fn view(&self) -> MaintenanceStatusView {
        MaintenanceStatusView {
            generation: self.generation as nat,
            pending_read_ops: self.pending_read_ops as nat,
            pending_write_ops: self.pending_write_ops as nat,
            is_running: self.is_running,
        }
    }
}

impl MaintenanceStatus {
    /// Two statuses are equal exactly where all that was observed is.
    pub proof fn lemma_view_determines(self, other: Self)
        ensures
            (self@ == other@) == (self == other),
    {
    }

    /// Puts a status together from what was observed.
    pub fn new(
        generation: u64,
        pending_read_ops: usize,
        pending_write_ops: usize,
        is_running: bool,
    ) -> (status: Self)
        ensures
            status@ == (MaintenanceStatusView {
                generation: generation as nat,
                pending_read_ops: pending_read_ops as nat,
                pending_write_ops: pending_write_ops as nat,
                is_running,
            }),
    {
        Self { generation, pending_read_ops, pending_write_ops, is_running }
    }

    /// Returns the logical maintenance generation: the number of maintenance
    /// runs completed by the cache so far.
    pub fn generation(&self) -> (generation: u64)
        ensures
            generation == self@.generation,
    {
        self.generation
    }

    /// Returns the number of read operations waiting in the maintenance
    /// queue.
    pub fn pending_read_ops(&self) -> (pending: usize)
        ensures
            pending == self@.pending_read_ops,
    {
        self.pending_read_ops
    }

    /// Returns the number of write operations waiting in the maintenance
    /// queue.
    pub fn pending_write_ops(&self) -> (pending: usize)
        ensures
            pending == self@.pending_write_ops,
    {
        self.pending_write_ops
    }

    /// Returns `true` if there are any operations waiting in the maintenance
    /// queue, meaning the maintenance is lagging behind the cache writes.
    pub fn has_pending_ops(&self) -> (pending: bool)
        ensures
            pending == self@.lags(),
            pending == (self@.pending_read_ops > 0 || self@.pending_write_ops > 0),
    {
        self.pending_read_ops > 0 || self.pending_write_ops > 0
    }

    /// Returns `true` if a maintenance run was in progress when the snapshot
    /// was taken.
    pub fn is_running(&self) -> (running: bool)
        ensures
            running == self@.is_running,
    {
        self.is_running
    }
}

/// What a [`CacheSnapshot`] holds.
pub struct CacheSnapshotView {
    pub policy: PolicyView,
    pub eviction_strategy: EvictionStrategy,
    pub entry_count: SnapshotValueView<u64>,
    pub weighted_size: SnapshotValueView<u64>,
    pub maintenance: MaintenanceStatusView,
}

impl CacheSnapshotView {
    /// What every snapshot of a cache satisfies on its own, whether its
    /// counters are exact or not: both counters carry one accuracy, and that
    /// accuracy agrees with the generation and with the maintenance queue.
    pub open spec fn internally_consistent(self) -> bool {
        &&& self.entry_count.accuracy == self.weighted_size.accuracy
        &&& match self.entry_count.accuracy {
            SnapshotAccuracy::Unmaintained => {
                &&& self.maintenance.generation == 0
                &&& self.entry_count.value == 0
                &&& self.weighted_size.value == 0
            },
            SnapshotAccuracy::Exact => self.maintenance.generation >= 1,
            SnapshotAccuracy::Approximate => {
                &&& self.maintenance.generation >= 1
                &&& self.maintenance.pending_write_ops > 0
            },
        }
    }

    /// Both counters are exact.
    pub open spec fn exact(self) -> bool {
        &&& self.entry_count.accuracy == SnapshotAccuracy::Exact
        &&& self.weighted_size.accuracy == SnapshotAccuracy::Exact
    }
}

/// A read-only, point-in-time view of a cache's capacity/eviction policy and
/// its maintenance state.
///
/// A snapshot answers the following questions without pausing cache writes:
///
/// - Which capacity and eviction policy is the cache configured with?
///   ([`policy`](#method.policy) and [`eviction_policy`](#method.eviction_policy))
/// - How many entries and how much weight have been observed by the cache's
///   maintenance so far? ([`entry_count`](#method.entry_count) and
///   [`weighted_size`](#method.weighted_size))
/// - Is the maintenance queue lagging behind?
///   ([`maintenance`](#method.maintenance))
/// - Which logical maintenance generation does this snapshot come from?
///   ([`maintenance_generation`](#method.maintenance_generation))
///
/// # Consistency
///
/// The snapshot is not linearizable against all concurrent writes, but
/// `entry_count` and `weighted_size` values that are exact are always read from
/// the same maintenance generation: they never combine a pre-maintenance entry
/// count with a post-maintenance weighted size. When a consistent read is not
/// possible without blocking (e.g. a maintenance run is concurrently
/// publishing new counters), the values are reported with
/// [`SnapshotAccuracy::Approximate`] instead.
#[derive(Debug)]
pub struct CacheSnapshot {
    policy: Policy,
    eviction_policy: EvictionPolicy,
    entry_count: SnapshotValue<u64>,
    weighted_size: SnapshotValue<u64>,
    maintenance: MaintenanceStatus,
}

impl View for CacheSnapshot {
    type V = CacheSnapshotView;

    closed spec fn view(&self) -> CacheSnapshotView {
        CacheSnapshotView {
            policy: self.policy@,
            eviction_strategy: self.eviction_policy@,
            entry_count: self.entry_count@,
            weighted_size: self.weighted_size@,
            maintenance: self.maintenance@,
        }
    }
}

impl CacheSnapshot {
    /// Two snapshots are equal exactly where all that they hold is.
    pub proof fn lemma_view_determines(self, other: Self)
        ensures
            (self@ == other@) == (self == other),
    {
        self.policy.lemma_view_determines(other.policy);
        self.eviction_policy.lemma_view_determines(other.eviction_policy);
    }

    /// Puts a snapshot together from what was observed.
    pub fn new(
        policy: Policy,
        eviction_policy: EvictionPolicy,
        entry_count: SnapshotValue<u64>,
        weighted_size: SnapshotValue<u64>,
        maintenance: MaintenanceStatus,
    ) -> (snapshot: Self)
        ensures
            snapshot@ == (CacheSnapshotView {
                policy: policy@,
                eviction_strategy: eviction_policy@,
                entry_count: entry_count@,
                weighted_size: weighted_size@,
                maintenance: maintenance@,
            }),
    {
        Self { policy, eviction_policy, entry_count, weighted_size, maintenance }
    }

    /// Returns the capacity and expiration policy of the cache.
    pub fn policy(&self) -> (policy: &Policy)
        ensures
            policy@ == self@.policy,
    {
        &self.policy
    }

    /// Returns the eviction (and admission) policy of the cache.
    pub fn eviction_policy(&self) -> (policy: &EvictionPolicy)
        ensures
            policy@ == self@.eviction_strategy,
    {
        &self.eviction_policy
    }

    /// Returns the entry count observed by the cache's maintenance, paired
    /// with its accuracy.
    pub fn entry_count(&self) -> (entry_count: SnapshotValue<u64>)
        ensures
            entry_count@ == self@.entry_count,
    {
        self.entry_count
    }

    /// Returns the total weight of the entries observed by the cache's
    /// maintenance, paired with its accuracy.
    pub fn weighted_size(&self) -> (weighted_size: SnapshotValue<u64>)
        ensures
            weighted_size@ == self@.weighted_size,
    {
        self.weighted_size
    }

    /// Returns the status of the cache's maintenance at the time of the
    /// snapshot.
    pub fn maintenance(&self) -> (maintenance: MaintenanceStatus)
        ensures
            maintenance@ == self@.maintenance,
    {
        self.maintenance
    }

    /// Returns the logical maintenance generation this snapshot was taken
    /// from.
    ///
    /// The generation is the number of maintenance runs completed by the
    /// cache so far. It is shared by all clones of the same cache, but is
    /// never shared between independently created caches. A generation of
    /// `0` means no maintenance run has completed yet.
    pub fn maintenance_generation(&self) -> (generation: u64)
        ensures
            generation == self@.maintenance.generation,
    {
        self.maintenance.generation()
    }

    /// Returns the logical maintenance generation, as
    /// [`maintenance_generation`](#method.maintenance_generation) does.
    pub fn generation(&self) -> (generation: u64)
        ensures
            generation == self@.maintenance.generation,
    {
        self.maintenance.generation()
    }

    /// Returns the number of write operations waiting in the maintenance
    /// queue.
    pub fn pending_write_ops(&self) -> (pending: usize)
        ensures
            pending == self@.maintenance.pending_write_ops,
    {
        self.maintenance.pending_write_ops()
    }

    /// Returns the largest total weight of the entries that the cache keeps.
    pub fn max_capacity(&self) -> (max_capacity: Option<u64>)
        ensures
            max_capacity == self@.policy.max_capacity,
    {
        self.policy.max_capacity()
    }

    /// Returns how long an entry of the cache lives after it was written.
    pub fn time_to_live(&self) -> (time_to_live: Option<Duration>)
        ensures
            time_to_live == self@.policy.time_to_live,
    {
        self.policy.time_to_live()
    }

    /// Returns how long an entry of the cache lives after it was last used.
    pub fn time_to_idle(&self) -> (time_to_idle: Option<Duration>)
        ensures
            time_to_idle == self@.policy.time_to_idle,
    {
        self.policy.time_to_idle()
    }

    /// Returns the strategy by which the cache evicts and admits entries.
    pub fn eviction_strategy(&self) -> (strategy: EvictionStrategy)
        ensures
            strategy == self@.eviction_strategy,
    {
        self.eviction_policy.strategy()
    }

    /// Returns `true` if both counters of the snapshot are exact.
    pub fn is_exact(&self) -> (exact: bool)
        ensures
            exact == self@.exact(),
            exact == (self@.entry_count.accuracy == SnapshotAccuracy::Exact
                && self@.weighted_size.accuracy == SnapshotAccuracy::Exact),
    {
        self.entry_count.is_exact() && self.weighted_size.is_exact()
    }
}

impl Clone for CacheSnapshot {
    fn clone(&self) -> (snapshot: Self)
        ensures
            snapshot == *self,
    {
        Self {
            policy: self.policy.clone(),
            eviction_policy: self.eviction_policy.clone(),
            entry_count: self.entry_count,
            weighted_size: self.weighted_size,
            maintenance: self.maintenance,
        }
    }
}

} // verus!
