//! The ledger of a cache's maintenance: the operations that wait for it, the
//! entries that it has observed, and the counters that it has published.
//!
//! Writes to the cache go into a queue. A maintenance run takes the queue,
//! applies it to the entries observed so far, drops the entries that have
//! expired and those that exceed the capacity, and publishes the new counters.
//! A run goes through steps, so that the cache can serve writes and snapshots
//! between them:
//!
//! 1. [`begin_run`](MaintenanceLedger::begin_run);
//! 2. [`apply_pending`](MaintenanceLedger::apply_pending);
//! 3. [`publish_first`](MaintenanceLedger::publish_first), which replaces one of
//!    the two counters;
//! 4. [`finish_run`](MaintenanceLedger::finish_run), which replaces the other one
//!    and completes the generation.
//!
//! The queue holds operations of the cache and no others: the entries that a run
//! drops by itself never wait in it. A run that found no write in the queue
//! replaces both counters in its last step, so that counters are in between two
//! generations only while writes wait.
//!
//! Which entries have expired is for the cache's clock to say, and in which
//! order entries leave is for its eviction policy. The ledger takes both
//! answers as arguments, and what is stated of it holds for every answer.

use crate::entries::{
    apply_all, apply_op, counters_of, eviction_len, lemma_apply_all_concat, lemma_apply_all_finite,
    lemma_total_weight_bound, lemma_total_weight_insert, lemma_total_weight_remove, removals,
    total_weight, within_capacity, Counters, WriteOp,
};
use crate::policy::{EvictionPolicy, EvictionStrategy, Policy, PolicyView};
use crate::snapshot::{
    CacheSnapshot, CacheSnapshotView, MaintenanceStatus, MaintenanceStatusView, SnapshotAccuracy,
    SnapshotValue, SnapshotValueView,
};
use std::collections::HashMap;
use vstd::prelude::*;

verus! {

/// How far a maintenance run has come.
pub enum RunPhaseView {
    /// No run is in progress.
    Idle,
    /// A run has begun and has not looked at the queue yet.
    Running,
    /// The run has applied this many reads and writes from the front of the
    /// queue. They leave the queue when the run is finished.
    Applied { reads: nat, writes: nat },
    /// The run has published one of the two counters, unless it took no write.
    Publishing { reads: nat, writes: nat },
}

/// How far a maintenance run has come, in machine numbers.
#[derive(Clone, Copy, PartialEq, Eq, Structural)]
enum RunPhase {
    Idle,
    Running,
    Applied { reads: usize, writes: usize },
    Publishing { reads: usize, writes: usize },
}

impl View for RunPhase {
    type V = RunPhaseView;

    closed spec fn view(&self) -> RunPhaseView {
        match *self {
            RunPhase::Idle => RunPhaseView::Idle,
            RunPhase::Running => RunPhaseView::Running,
            RunPhase::Applied { reads, writes } => RunPhaseView::Applied {
                reads: reads as nat,
                writes: writes as nat,
            },
            RunPhase::Publishing { reads, writes } => RunPhaseView::Publishing {
                reads: reads as nat,
                writes: writes as nat,
            },
        }
    }
}

/// What a [`MaintenanceLedger`] holds.
pub struct LedgerState {
    pub policy: PolicyView,
    pub eviction_strategy: EvictionStrategy,
    /// The entries observed by maintenance, with their weights.
    pub observed: Map<u64, u32>,
    /// The reads that wait in the maintenance queue.
    pub pending_reads: nat,
    /// The writes that wait in the maintenance queue. They are writes of the
    /// cache: what a run drops by itself does not join them.
    pub pending_writes: Seq<WriteOp>,
    /// The counters as they can be read now.
    pub published: Counters,
    /// The counters of each generation: those of generation `g` at index `g`,
    /// the initial estimate first.
    pub history: Seq<Counters>,
    pub phase: RunPhaseView,
}

/// The counters while they are replaced, after the first of two steps. The
/// weighted size comes first where it does not shrink, else the entry count:
/// in this order the weighted size stays at or above the entry count wherever
/// it is so before and after.
pub open spec fn halfway(old: Counters, new: Counters) -> Counters {
    if new.weighted_size >= old.weighted_size {
        Counters { entry_count: old.entry_count, weighted_size: new.weighted_size }
    } else {
        Counters { entry_count: new.entry_count, weighted_size: old.weighted_size }
    }
}

impl LedgerState {
    /// A ledger for a new cache.
    pub open spec fn initial(policy: PolicyView, eviction_strategy: EvictionStrategy) -> Self {
        LedgerState {
            policy,
            eviction_strategy,
            observed: Map::empty(),
            pending_reads: 0,
            pending_writes: Seq::empty(),
            published: Counters::zero(),
            history: seq![Counters::zero()],
            phase: RunPhaseView::Idle,
        }
    }

    /// The number of runs completed so far.
    pub open spec fn generation(self) -> nat {
        (self.history.len() - 1) as nat
    }

    /// The counters that the last completed run left.
    pub open spec fn settled(self) -> Counters {
        self.history.last()
    }

    /// What holds of a ledger between any two steps.
    pub open spec fn wf(self) -> bool {
        &&& self.observed.dom().finite()
        &&& self.history.len() >= 1
        &&& self.history[0] == Counters::zero()
        &&& forall|g: int|
            0 <= g < self.history.len() ==> (#[trigger] self.history[g]).representable()
        &&& match self.phase {
            RunPhaseView::Idle | RunPhaseView::Running => {
                &&& self.published == self.settled()
                &&& self.settled() == counters_of(self.observed)
            },
            RunPhaseView::Applied { reads, writes } => {
                &&& self.published == self.settled()
                &&& self.holds_taken(reads, writes)
            },
            RunPhaseView::Publishing { reads, writes } => {
                &&& self.published == if writes == 0 {
                    self.settled()
                } else {
                    halfway(self.settled(), counters_of(self.observed))
                }
                &&& self.holds_taken(reads, writes)
            },
        }
    }

    /// The operations that a run took are still at the front of the queue.
    pub open spec fn holds_taken(self, reads: nat, writes: nat) -> bool {
        &&& reads <= self.pending_reads
        &&& writes <= self.pending_writes.len()
    }

    /// After a read of the cache.
    pub open spec fn with_read(self) -> Self {
        LedgerState { pending_reads: self.pending_reads + 1, ..self }
    }

    /// After a write to the cache.
    pub open spec fn with_write(self, op: WriteOp) -> Self {
        LedgerState { pending_writes: self.pending_writes.push(op), ..self }
    }

    /// After a run has begun.
    pub open spec fn begun(self) -> Self {
        LedgerState { phase: RunPhaseView::Running, ..self }
    }

    /// The waiting writes, then the removal of what has expired.
    pub open spec fn swept(self, expired: Seq<u64>) -> Seq<WriteOp> {
        self.pending_writes + removals(expired)
    }

    /// How many entries of the ranking a run evicts.
    pub open spec fn evictions(self, expired: Seq<u64>, ranking: Seq<u64>) -> nat {
        eviction_len(
            apply_all(self.observed, self.swept(expired)),
            ranking,
            self.policy.max_capacity,
        )
    }

    /// What a run applies to the entries: the waiting writes, then the removal of
    /// what has expired, then that of what exceeds the capacity.
    pub open spec fn applied_writes(self, expired: Seq<u64>, ranking: Seq<u64>) -> Seq<WriteOp> {
        self.swept(expired) + removals(ranking.take(self.evictions(expired, ranking) as int))
    }

    /// After the run has applied the queue.
    pub open spec fn applied(self, expired: Seq<u64>, ranking: Seq<u64>) -> Self {
        LedgerState {
            observed: apply_all(self.observed, self.applied_writes(expired, ranking)),
            phase: RunPhaseView::Applied {
                reads: self.pending_reads,
                writes: self.pending_writes.len(),
            },
            ..self
        }
    }

    /// How many operations the run in progress has taken.
    pub open spec fn taken(self) -> (nat, nat) {
        match self.phase {
            RunPhaseView::Applied { reads, writes } => (reads, writes),
            RunPhaseView::Publishing { reads, writes } => (reads, writes),
            _ => (0, 0),
        }
    }

    /// After the run has published one of the counters, or none where it took no
    /// write.
    pub open spec fn half_published(self) -> Self {
        LedgerState {
            published: if self.taken().1 == 0 {
                self.published
            } else {
                halfway(self.published, counters_of(self.observed))
            },
            phase: RunPhaseView::Publishing {
                reads: self.taken().0,
                writes: self.taken().1,
            },
            ..self
        }
    }

    /// After the run has completed.
    pub open spec fn finished(self) -> Self {
        LedgerState {
            pending_reads: (self.pending_reads - self.taken().0) as nat,
            pending_writes: self.pending_writes.skip(self.taken().1 as int),
            published: counters_of(self.observed),
            history: self.history.push(counters_of(self.observed)),
            phase: RunPhaseView::Idle,
            ..self
        }
    }

    /// After a whole run.
    pub open spec fn maintained(self, expired: Seq<u64>, ranking: Seq<u64>) -> Self {
        self.begun().applied(expired, ranking).half_published().finished()
    }

    /// How accurate the published counters are.
    pub open spec fn accuracy(self) -> SnapshotAccuracy {
        if self.generation() == 0 {
            SnapshotAccuracy::Unmaintained
        } else if self.phase is Publishing && self.taken().1 > 0 {
            SnapshotAccuracy::Approximate
        } else {
            SnapshotAccuracy::Exact
        }
    }

    /// The counters that a snapshot shows: the published ones, or the initial
    /// estimate while no run has completed.
    pub open spec fn shown(self) -> Counters {
        if self.generation() == 0 {
            Counters::zero()
        } else {
            self.published
        }
    }

    /// What a snapshot of the ledger shows.
    pub open spec fn snapshot(self) -> CacheSnapshotView {
        CacheSnapshotView {
            policy: self.policy,
            eviction_strategy: self.eviction_strategy,
            entry_count: SnapshotValueView {
                value: self.shown().entry_count as u64,
                accuracy: self.accuracy(),
            },
            weighted_size: SnapshotValueView {
                value: self.shown().weighted_size as u64,
                accuracy: self.accuracy(),
            },
            maintenance: MaintenanceStatusView {
                generation: self.generation(),
                pending_read_ops: self.pending_reads,
                pending_write_ops: self.pending_writes.len(),
                is_running: !(self.phase is Idle),
            },
        }
    }
}

/// The maintenance state of a cache, which its snapshots are taken from.
pub struct MaintenanceLedger {
    policy: Policy,
    eviction_policy: EvictionPolicy,
    observed: HashMap<u64, u32>,
    observed_weight: u128,
    pending_reads: usize,
    pending_writes: Vec<WriteOp>,
    published_count: u64,
    published_weight: u64,
    generation: u64,
    phase: RunPhase,
    history: Ghost<Seq<Counters>>,
}

impl View for MaintenanceLedger {
    type V = LedgerState;

    closed spec fn view(&self) -> LedgerState {
        LedgerState {
            policy: self.policy@,
            eviction_strategy: self.eviction_policy@,
            observed: self.observed@,
            pending_reads: self.pending_reads as nat,
            pending_writes: self.pending_writes@,
            published: Counters {
                entry_count: self.published_count as nat,
                weighted_size: self.published_weight as nat,
            },
            history: self.history@,
            phase: self.phase@,
        }
    }
}

impl MaintenanceLedger {
    /// What holds of a ledger between any two steps.
    pub closed spec fn wf(&self) -> bool {
        &&& self@.wf()
        &&& self.observed_weight == total_weight(self.observed@)
        &&& self.generation == self@.generation()
    }

    /// What the state of a well-formed ledger satisfies.
    pub proof fn lemma_wf(&self)
        requires
            self.wf(),
        ensures
            self@.wf(),
            self@.generation() <= u64::MAX,
    {
    }

    /// Returns a ledger for a new cache.
    pub fn new(policy: Policy, eviction_policy: EvictionPolicy) -> (ledger: Self)
        ensures
            ledger.wf(),
            ledger@ == LedgerState::initial(policy@, eviction_policy@),
    {
        let ghost history = seq![Counters::zero()];
        MaintenanceLedger {
            policy,
            eviction_policy,
            observed: HashMap::new(),
            observed_weight: 0,
            pending_reads: 0,
            pending_writes: Vec::new(),
            published_count: 0,
            published_weight: 0,
            generation: 0,
            phase: RunPhase::Idle,
            history: Ghost(history),
        }
    }

    /// Takes a snapshot. It reads the ledger and nothing else.
    pub fn snapshot(&self) -> (snapshot: CacheSnapshot)
        requires
            self.wf(),
        ensures
            snapshot@ == self@.snapshot(),
            snapshot@.internally_consistent(),
    {
        let accuracy = if self.generation == 0 {
            SnapshotAccuracy::Unmaintained
        } else {
            match self.phase {
                RunPhase::Publishing { writes, .. } if writes > 0 => SnapshotAccuracy::Approximate,
                _ => SnapshotAccuracy::Exact,
            }
        };
        let (count, weight) = if self.generation == 0 {
            (0u64, 0u64)
        } else {
            (self.published_count, self.published_weight)
        };
        CacheSnapshot::new(
            self.policy.clone(),
            self.eviction_policy.clone(),
            SnapshotValue::new(count, accuracy),
            SnapshotValue::new(weight, accuracy),
            MaintenanceStatus::new(
                self.generation,
                self.pending_reads,
                self.pending_writes.len(),
                self.phase != RunPhase::Idle,
            ),
        )
    }

    /// Records a read of the cache, which waits for maintenance.
    pub fn record_read(&mut self)
        requires
            old(self).wf(),
            old(self)@.pending_reads < usize::MAX,
        ensures
            final(self).wf(),
            final(self)@ == old(self)@.with_read(),
    {
        self.pending_reads += 1;
    }

    /// Records that an entry was inserted, or its value replaced, and has this
    /// weight now. The write waits for maintenance.
    pub fn record_upsert(&mut self, key: u64, weight: u32)
        requires
            old(self).wf(),
        ensures
            final(self).wf(),
            final(self)@ == old(self)@.with_write(WriteOp::Upsert { key, weight }),
    {
        self.pending_writes.push(WriteOp::Upsert { key, weight });
    }

    /// Records that an entry was removed. The write waits for maintenance.
    pub fn record_removal(&mut self, key: u64)
        requires
            old(self).wf(),
        ensures
            final(self).wf(),
            final(self)@ == old(self)@.with_write(WriteOp::Remove { key }),
    {
        self.pending_writes.push(WriteOp::Remove { key });
    }

    /// Begins a run, unless one is in progress. Returns whether it did.
    pub fn begin_run(&mut self) -> (begun: bool)
        requires
            old(self).wf(),
        ensures
            final(self).wf(),
            begun == (old(self)@.phase is Idle),
            begun ==> final(self)@ == old(self)@.begun(),
            !begun ==> final(self)@ == old(self)@,
    {
        if self.phase == RunPhase::Idle {
            self.phase = RunPhase::Running;
            true
        } else {
            false
        }
    }

    /// Whether the observed entries are within the capacity.
    fn fits(&self) -> (fits: bool)
        requires
            self.observed_weight == total_weight(self.observed@),
        ensures
            fits == within_capacity(self@.observed, self@.policy.max_capacity),
    {
        match self.policy.max_capacity() {
            Some(capacity) => self.observed_weight <= capacity as u128,
            None => true,
        }
    }

    /// Applies one write to the observed entries.
    fn observe(&mut self, op: WriteOp)
        requires
            old(self).observed_weight == total_weight(old(self).observed@),
        ensures
            final(self).observed_weight == total_weight(final(self).observed@),
            final(self).generation == old(self).generation,
            final(self)@ == (LedgerState {
                observed: apply_op(old(self)@.observed, op),
                ..old(self)@
            }),
    {
        broadcast use vstd::std_specs::hash::group_hash_axioms;

        let ghost before = self.observed@;
        let previous = match op {
            WriteOp::Upsert { key, weight } => self.observed.insert(key, weight),
            WriteOp::Remove { key } => self.observed.remove(&key),
        };
        let ghost key = match op {
            WriteOp::Upsert { key, .. } => key,
            WriteOp::Remove { key } => key,
        };
        proof {
            if before.dom().contains(key) {
                lemma_total_weight_remove(before, key);
            } else {
                assert(before.remove(key) =~= before);
            }
            assert(previous == if before.dom().contains(key) { Some(before[key]) } else { None });
        }
        if let Some(weight) = previous {
            self.observed_weight -= weight as u128;
        }
        assert(self.observed_weight == total_weight(before.remove(key)));
        if let WriteOp::Upsert { key, weight } = op {
            proof {
                lemma_total_weight_insert(before, key, weight);
                lemma_total_weight_bound(self.observed@);
                let count = self.observed@.dom().len();
                assert(count == self.observed.len());
                assert(count * u32::MAX <= 0x1_0000_0000_0000_0000 * u32::MAX) by (nonlinear_arith)
                    requires
                        count <= 0x1_0000_0000_0000_0000,
                ;
            }
            self.observed_weight += weight as u128;
        }
    }

    /// Applies the queue, drops the entries that have expired, and drops the
    /// entries of the ranking, first one first, until the others are within
    /// the capacity. Returns how many entries of the ranking had to leave.
    ///
    /// What waits in the queue stays there until the run is finished. What the
    /// run drops by itself does not join it.
    pub fn apply_pending(&mut self, expired: &Vec<u64>, ranking: &Vec<u64>) -> (evicted: usize)
        requires
            old(self).wf(),
            old(self)@.phase is Running,
        ensures
            final(self).wf(),
            final(self)@ == old(self)@.applied(expired@, ranking@),
            evicted == old(self)@.evictions(expired@, ranking@),
    {
        let ghost start = self@;
        let ghost queue = start.pending_writes;
        let mut i: usize = 0;
        while i < self.pending_writes.len()
            invariant
                i <= queue.len(),
                queue == start.pending_writes,
                self.observed_weight == total_weight(self.observed@),
                self.generation == start.generation(),
                self@ == (LedgerState {
                    observed: apply_all(start.observed, queue.take(i as int)),
                    ..start
                }),
            decreases queue.len() - i,
        {
            let op = self.pending_writes[i];
            self.observe(op);
            i += 1;
            assert(queue.take(i as int).drop_last() =~= queue.take(i - 1));
        }
        assert(queue.take(i as int) =~= queue);
        let ghost queued = self@.observed;
        let mut j: usize = 0;
        while j < expired.len()
            invariant
                j <= expired.len(),
                self.observed_weight == total_weight(self.observed@),
                self.generation == start.generation(),
                self@ == (LedgerState {
                    observed: apply_all(queued, removals(expired@.take(j as int))),
                    ..start
                }),
            decreases expired.len() - j,
        {
            let op = WriteOp::Remove { key: expired[j] };
            self.observe(op);
            j += 1;
            let ghost dropped = removals(expired@.take(j as int));
            assert(dropped =~= removals(expired@.take(j - 1)).push(op));
            assert(dropped.drop_last() =~= removals(expired@.take(j - 1)));
        }
        let ghost swept = start.swept(expired@);
        proof {
            assert(expired@.take(j as int) =~= expired@);
            lemma_apply_all_concat(start.observed, queue, removals(expired@));
        }
        let ghost entries = self@.observed;
        let ghost max_capacity = start.policy.max_capacity;
        let mut evicted: usize = 0;
        assert(ranking@.skip(0) =~= ranking@);
        while evicted < ranking.len() && !self.fits()
            invariant
                evicted <= ranking.len(),
                max_capacity == start.policy.max_capacity,
                entries == apply_all(start.observed, swept),
                self.observed_weight == total_weight(self.observed@),
                self.generation == start.generation(),
                self@ == (LedgerState {
                    observed: apply_all(entries, removals(ranking@.take(evicted as int))),
                    ..start
                }),
                eviction_len(entries, ranking@, max_capacity) == evicted + eviction_len(
                    self@.observed,
                    ranking@.skip(evicted as int),
                    max_capacity,
                ),
            decreases ranking.len() - evicted,
        {
            let key = ranking[evicted];
            let op = WriteOp::Remove { key };
            let ghost rest = ranking@.skip(evicted as int);
            self.observe(op);
            evicted += 1;
            proof {
                assert(rest.first() == key);
                assert(rest.drop_first() =~= ranking@.skip(evicted as int));
                let victims = removals(ranking@.take(evicted as int));
                assert(victims =~= removals(ranking@.take(evicted - 1)).push(op));
                assert(victims.drop_last() =~= removals(ranking@.take(evicted - 1)));
            }
        }
        proof {
            lemma_apply_all_concat(start.observed, swept, removals(ranking@.take(evicted as int)));
            lemma_apply_all_finite(start.observed, start.applied_writes(expired@, ranking@));
        }
        self.phase = RunPhase::Applied {
            reads: self.pending_reads,
            writes: self.pending_writes.len(),
        };
        evicted
    }

    /// The counters of the observed entries.
    fn observed_counters(&self) -> (counters: (u64, u64))
        requires
            self.observed_weight == total_weight(self.observed@),
        ensures
            counters.0 == counters_of(self@.observed).entry_count,
            counters.1 == counters_of(self@.observed).weighted_size,
    {
        broadcast use vstd::std_specs::hash::group_hash_axioms;

        let weight = if self.observed_weight <= u64::MAX as u128 {
            self.observed_weight as u64
        } else {
            u64::MAX
        };
        (self.observed.len() as u64, weight)
    }

    /// Publishes the first of the two counters. Where the run took no write from
    /// the queue, both are left to the last step.
    pub fn publish_first(&mut self)
        requires
            old(self).wf(),
            old(self)@.phase is Applied,
        ensures
            final(self).wf(),
            final(self)@ == old(self)@.half_published(),
    {
        if let RunPhase::Applied { reads, writes } = self.phase {
            if writes > 0 {
                let (count, weight) = self.observed_counters();
                if weight >= self.published_weight {
                    self.published_weight = weight;
                } else {
                    self.published_count = count;
                }
            }
            self.phase = RunPhase::Publishing { reads, writes };
        }
    }

    /// Publishes what is left to publish and completes the generation: the
    /// operations that the run took leave the queue.
    pub fn finish_run(&mut self)
        requires
            old(self).wf(),
            old(self)@.phase is Publishing,
            old(self)@.generation() < u64::MAX,
        ensures
            final(self).wf(),
            final(self)@ == old(self)@.finished(),
    {
        let (count, weight) = self.observed_counters();
        self.published_count = count;
        self.published_weight = weight;
        if let RunPhase::Publishing { reads, writes } = self.phase {
            self.pending_reads -= reads;
            self.pending_writes = self.pending_writes.split_off(writes);
        }
        self.generation += 1;
        self.phase = RunPhase::Idle;
        proof {
            self.history@ = self.history@.push(counters_of(self@.observed));
        }
    }

    /// Makes a whole run, as [`begin_run`](Self::begin_run) and the steps after
    /// it do. Returns how many entries of the ranking had to leave.
    pub fn run_pending_tasks(&mut self, expired: &Vec<u64>, ranking: &Vec<u64>) -> (evicted: usize)
        requires
            old(self).wf(),
            old(self)@.phase is Idle,
            old(self)@.generation() < u64::MAX,
        ensures
            final(self).wf(),
            final(self)@ == old(self)@.maintained(expired@, ranking@),
            evicted == old(self)@.evictions(expired@, ranking@),
    {
        self.begin_run();
        let evicted = self.apply_pending(expired, ranking);
        self.publish_first();
        self.finish_run();
        evicted
    }
}

} // verus!
