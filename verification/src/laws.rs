//! What holds of a ledger, and of the snapshots taken from it, whatever the
//! cache does and in whatever order it does it.

use crate::entries::{
    apply_all, counters_of, eviction_len, lemma_apply_all_concat, lemma_apply_all_finite,
    lemma_apply_all_positive, lemma_apply_removals, lemma_eviction_fits,
    lemma_total_weight_at_least_count, op_weight_positive, removals, weights_positive,
    within_capacity, Counters, WriteOp,
};
use crate::ledger::LedgerState;
use crate::policy::{EvictionStrategy, PolicyView};
use crate::snapshot::{CacheSnapshotView, MaintenanceStatusView};
use vstd::prelude::*;

verus! {

/// Something that happens to a ledger.
pub enum Event {
    Read,
    Write { op: WriteOp },
    Begin,
    Apply { expired: Seq<u64>, ranking: Seq<u64> },
    Publish,
    Finish,
}

impl LedgerState {
    /// The event can happen: if it is a step of a run, it is the next one.
    pub open spec fn allows(self, event: Event) -> bool {
        match event {
            Event::Read | Event::Write { .. } => true,
            Event::Begin => self.phase is Idle,
            Event::Apply { .. } => self.phase is Running,
            Event::Publish => self.phase is Applied,
            Event::Finish => self.phase is Publishing,
        }
    }

    /// The ledger after the event.
    pub open spec fn next(self, event: Event) -> Self {
        match event {
            Event::Read => self.with_read(),
            Event::Write { op } => self.with_write(op),
            Event::Begin => self.begun(),
            Event::Apply { expired, ranking } => self.applied(expired, ranking),
            Event::Publish => self.half_published(),
            Event::Finish => self.finished(),
        }
    }

    /// The events can happen one after the other.
    pub open spec fn allows_all(self, events: Seq<Event>) -> bool
        decreases events.len(),
    {
        events.len() > 0 ==> {
            &&& self.allows_all(events.drop_last())
            &&& self.after(events.drop_last()).allows(events.last())
        }
    }

    /// The ledger after the events.
    pub open spec fn after(self, events: Seq<Event>) -> Self
        decreases events.len(),
    {
        if events.len() == 0 {
            self
        } else {
            self.after(events.drop_last()).next(events.last())
        }
    }

    /// Wherever a run evicts entries, the eviction policy has ranked all of
    /// them.
    pub open spec fn ranks_all(self, events: Seq<Event>) -> bool
        decreases events.len(),
    {
        events.len() > 0 ==> {
            &&& self.ranks_all(events.drop_last())
            &&& events.last() matches Event::Apply { expired, ranking }
                ==> self.after(events.drop_last()).ranked(expired, ranking)
        }
    }

    /// The ranking names every entry that has not expired.
    pub open spec fn ranked(self, expired: Seq<u64>, ranking: Seq<u64>) -> bool {
        forall|key: u64| #[trigger]
            apply_all(self.observed, self.swept(expired)).dom().contains(key) ==> ranking.contains(
                key,
            )
    }

    /// No entry in the ledger, counted or waiting, is lighter than one.
    pub open spec fn weighs_its_entries(self) -> bool {
        &&& weights_positive(self.observed)
        &&& forall|i: int|
            0 <= i < self.pending_writes.len() ==> op_weight_positive(
                #[trigger] self.pending_writes[i],
            )
        &&& forall|g: int|
            0 <= g < self.history.len() ==> (#[trigger] self.history[g]).weighs_its_entries()
    }

    /// No counter in the ledger exceeds the capacity.
    pub open spec fn within_capacity(self) -> bool {
        self.policy.max_capacity matches Some(capacity) ==> {
            &&& self.published.weighted_size <= capacity
            &&& (self.phase is Applied || self.phase is Publishing) ==> counters_of(
                self.observed,
            ).weighted_size <= capacity
        }
    }
}

/// No write makes an entry lighter than one, as in a cache that has no weigher
/// and so gives every entry the weight one.
pub open spec fn writes_positive(events: Seq<Event>) -> bool {
    forall|i: int|
        0 <= i < events.len() ==> (#[trigger] events[i] matches Event::Write { op }
            ==> op_weight_positive(op))
}

/// The writes that the cache makes, in their order.
pub open spec fn writes_of(events: Seq<Event>) -> Seq<WriteOp>
    decreases events.len(),
{
    if events.len() == 0 {
        Seq::empty()
    } else {
        match events.last() {
            Event::Write { op } => writes_of(events.drop_last()).push(op),
            _ => writes_of(events.drop_last()),
        }
    }
}

/// How many reads the cache makes.
pub open spec fn reads_of(events: Seq<Event>) -> nat {
    events.filter(|event: Event| event is Read).len()
}

/// How many runs the events complete.
pub open spec fn completed_runs(events: Seq<Event>) -> nat {
    events.filter(|event: Event| event is Finish).len()
}

/// A well-formed ledger stays well formed, whatever happens.
pub proof fn law_wf_is_kept(state: LedgerState, event: Event)
    requires
        state.wf(),
        state.allows(event),
    ensures
        state.next(event).wf(),
{
    match event {
        Event::Apply { expired, ranking } => {
            let writes = state.applied_writes(expired, ranking);
            lemma_apply_all_finite(state.observed, writes);
        },
        _ => {},
    }
}

/// A ledger is well formed after anything that can happen to it.
pub proof fn law_every_ledger_is_wf(
    policy: PolicyView,
    strategy: EvictionStrategy,
    events: Seq<Event>,
)
    requires
        LedgerState::initial(policy, strategy).allows_all(events),
    ensures
        LedgerState::initial(policy, strategy).after(events).wf(),
    decreases events.len(),
{
    let initial = LedgerState::initial(policy, strategy);
    if events.len() > 0 {
        law_every_ledger_is_wf(policy, strategy, events.drop_last());
        law_wf_is_kept(initial.after(events.drop_last()), events.last());
    }
}

/// Every snapshot is internally consistent: both counters carry one accuracy;
/// they are unmaintained, and zero, only in generation zero; they are exact
/// only in a later one; and they are approximate only in a later one, with
/// writes still waiting in the queue.
pub proof fn law_every_snapshot_is_internally_consistent(
    policy: PolicyView,
    strategy: EvictionStrategy,
    events: Seq<Event>,
)
    requires
        LedgerState::initial(policy, strategy).allows_all(events),
    ensures
        LedgerState::initial(policy, strategy).after(events).snapshot().internally_consistent(),
{
    law_every_ledger_is_wf(policy, strategy, events);
}

/// The counters of an exact snapshot are both those of the generation that the
/// snapshot names. They never combine an entry count from before a run with a
/// weighted size from after it.
pub proof fn law_exact_counters_come_from_one_generation(state: LedgerState)
    requires
        state.wf(),
        state.snapshot().exact(),
    ensures
        ({
            let snapshot = state.snapshot();
            let counters = state.history[snapshot.maintenance.generation as int];
            &&& snapshot.entry_count.value == counters.entry_count
            &&& snapshot.weighted_size.value == counters.weighted_size
        }),
{
    assert(state.history[state.history.len() - 1].representable());
}

/// The counters of a snapshot that is not exact are the initial estimate before
/// the first run, and else each of them is that of the generation that the
/// snapshot names or of the next one.
pub proof fn law_other_counters_come_from_adjacent_generations(state: LedgerState)
    requires
        state.wf(),
        !state.snapshot().exact(),
    ensures
        ({
            let snapshot = state.snapshot();
            let before = state.history[snapshot.maintenance.generation as int];
            let after = state.finished().history[snapshot.maintenance.generation as int + 1];
            if state.generation() == 0 {
                &&& snapshot.entry_count.value == Counters::zero().entry_count
                &&& snapshot.weighted_size.value == Counters::zero().weighted_size
            } else {
                &&& snapshot.entry_count.value == before.entry_count || snapshot.entry_count.value
                    == after.entry_count
                &&& snapshot.weighted_size.value == before.weighted_size
                    || snapshot.weighted_size.value == after.weighted_size
            }
        }),
{
    assert(state.history[state.history.len() - 1].representable());
}

/// The counters are approximate only while a run publishes new ones: from the
/// first completed run on, every other snapshot is exact, also one that is
/// taken while a run is in progress or while operations wait in the queue.
pub proof fn law_approximate_only_while_publishing(state: LedgerState)
    requires
        state.wf(),
        state.generation() >= 1,
        !(state.phase is Publishing),
    ensures
        state.snapshot().exact(),
{
}

/// A read waits for maintenance: a snapshot after it differs from one before it
/// in the number of waiting reads and in nothing else.
pub proof fn law_reads_wait_for_maintenance(state: LedgerState)
    requires
        state.wf(),
    ensures
        state.with_read().snapshot() == (CacheSnapshotView {
            maintenance: MaintenanceStatusView {
                pending_read_ops: state.snapshot().maintenance.pending_read_ops + 1,
                ..state.snapshot().maintenance
            },
            ..state.snapshot()
        }),
{
}

/// A write waits for maintenance: a snapshot after it differs from one before
/// it in the number of waiting writes and in nothing else.
pub proof fn law_writes_wait_for_maintenance(state: LedgerState, op: WriteOp)
    requires
        state.wf(),
    ensures
        state.with_write(op).snapshot() == (CacheSnapshotView {
            maintenance: MaintenanceStatusView {
                pending_write_ops: state.snapshot().maintenance.pending_write_ops + 1,
                ..state.snapshot().maintenance
            },
            ..state.snapshot()
        }),
{
}

/// Only operations of the cache wait in the queue: they are its last writes, in
/// the order in which it made them, and no more reads than it made. A run adds
/// none of its own, whatever it drops.
pub proof fn law_only_operations_of_the_cache_wait(
    policy: PolicyView,
    strategy: EvictionStrategy,
    events: Seq<Event>,
)
    requires
        LedgerState::initial(policy, strategy).allows_all(events),
    ensures
        ({
            let state = LedgerState::initial(policy, strategy).after(events);
            &&& state.pending_writes.is_suffix_of(writes_of(events))
            &&& state.pending_reads <= reads_of(events)
        }),
    decreases events.len(),
{
    let initial = LedgerState::initial(policy, strategy);
    if events.len() > 0 {
        let earlier = events.drop_last();
        reveal(Seq::filter);
        law_only_operations_of_the_cache_wait(policy, strategy, earlier);
        law_every_ledger_is_wf(policy, strategy, earlier);
    }
}

/// No step of a run but the last changes how many operations wait, and the last
/// one takes away those that were waiting when the run applied the queue.
pub proof fn law_runs_add_no_waiting_operations(state: LedgerState, event: Event)
    requires
        state.wf(),
        state.allows(event),
        !(event is Read),
        !(event is Write),
    ensures
        ({
            let before = state.snapshot().maintenance;
            let after = state.next(event).snapshot().maintenance;
            if event is Finish {
                &&& after.pending_read_ops == before.pending_read_ops - state.taken().0
                &&& after.pending_write_ops == before.pending_write_ops - state.taken().1
            } else {
                &&& after.pending_read_ops == before.pending_read_ops
                &&& after.pending_write_ops == before.pending_write_ops
            }
        }),
        event is Apply ==> state.next(event).taken() == (
            state.pending_reads,
            state.pending_writes.len(),
        ),
        event is Publish ==> state.next(event).taken() == state.taken(),
{
}

/// The generation is the number of runs completed so far. It is zero exactly as
/// long as no run has completed.
pub proof fn law_generation_counts_completed_runs(
    policy: PolicyView,
    strategy: EvictionStrategy,
    events: Seq<Event>,
)
    requires
        LedgerState::initial(policy, strategy).allows_all(events),
    ensures
        LedgerState::initial(policy, strategy).after(events).snapshot().maintenance.generation
            == completed_runs(events),
    decreases events.len(),
{
    reveal(Seq::filter);
    let initial = LedgerState::initial(policy, strategy);
    if events.len() > 0 {
        law_generation_counts_completed_runs(policy, strategy, events.drop_last());
        law_every_ledger_is_wf(policy, strategy, events.drop_last());
    }
}

/// Generations only advance, and what a generation published stays what it was.
pub proof fn law_history_only_grows(state: LedgerState, events: Seq<Event>)
    requires
        state.wf(),
        state.allows_all(events),
    ensures
        state.after(events).wf(),
        state.snapshot().maintenance.generation
            <= state.after(events).snapshot().maintenance.generation,
        state.history.is_prefix_of(state.after(events).history),
    decreases events.len(),
{
    if events.len() > 0 {
        law_history_only_grows(state, events.drop_last());
        law_wf_is_kept(state.after(events.drop_last()), events.last());
    }
}

/// A cache is always reported with the policy that it was configured with.
pub proof fn law_policy_never_changes(state: LedgerState, events: Seq<Event>)
    ensures
        state.after(events).snapshot().policy == state.snapshot().policy,
        state.after(events).snapshot().eviction_strategy == state.snapshot().eviction_strategy,
    decreases events.len(),
{
    if events.len() > 0 {
        law_policy_never_changes(state, events.drop_last());
    }
}

/// A whole run settles the ledger: the next snapshot is exact, of the next
/// generation, with nothing running or waiting, and its counters are those of
/// the entries that are left once the queue was applied, the expired entries
/// dropped and the capacity enforced.
pub proof fn law_maintenance_settles(state: LedgerState, expired: Seq<u64>, ranking: Seq<u64>)
    requires
        state.wf(),
        state.phase is Idle,
    ensures
        ({
            let settled = state.maintained(expired, ranking);
            let snapshot = settled.snapshot();
            let counters = counters_of(
                apply_all(state.observed, state.applied_writes(expired, ranking)),
            );
            &&& settled.wf()
            &&& settled.phase is Idle
            &&& snapshot.exact()
            &&& snapshot.maintenance.generation == state.generation() + 1
            &&& !snapshot.maintenance.is_running
            &&& !snapshot.maintenance.lags()
            &&& snapshot.entry_count.value == counters.entry_count
            &&& snapshot.weighted_size.value == counters.weighted_size
        }),
{
    lemma_apply_all_finite(state.observed, state.applied_writes(expired, ranking));
}

/// A write that comes once a run has applied the queue is not lost, whether it
/// comes before the run publishes or while it does: it waits for the next run,
/// as if it had come after this one.
pub proof fn law_writes_during_a_run_are_kept(state: LedgerState, op: WriteOp)
    requires
        state.wf(),
        state.phase is Applied || state.phase is Publishing,
    ensures
        state.phase is Applied ==> state.with_write(op).half_published().finished()
            == state.half_published().finished().with_write(op),
        state.phase is Publishing ==> state.with_write(op).finished()
            == state.finished().with_write(op),
{
    let taken = state.taken().1 as int;
    assert(state.pending_writes.push(op).skip(taken) =~= state.pending_writes.skip(taken).push(op));
}

/// After a whole run, the observed entries are those that the waiting writes
/// left, without the expired ones and without those of the ranking that had to
/// leave.
pub proof fn law_run_drops_the_expired_and_the_evicted(
    state: LedgerState,
    expired: Seq<u64>,
    ranking: Seq<u64>,
)
    ensures
        state.maintained(expired, ranking).observed == apply_all(
            state.observed,
            state.pending_writes,
        ).remove_keys(expired.to_set()).remove_keys(
            ranking.take(state.evictions(expired, ranking) as int).to_set(),
        ),
{
    let victims = ranking.take(state.evictions(expired, ranking) as int);
    let queued = apply_all(state.observed, state.pending_writes);
    lemma_apply_all_concat(state.observed, state.pending_writes, removals(expired));
    lemma_apply_all_concat(state.observed, state.swept(expired), removals(victims));
    lemma_apply_removals(queued, expired);
    lemma_apply_removals(apply_all(queued, removals(expired)), victims);
}

/// An expired entry is not counted after the run that it was named to.
pub proof fn law_expired_entries_leave(
    state: LedgerState,
    expired: Seq<u64>,
    ranking: Seq<u64>,
    key: u64,
)
    requires
        expired.contains(key),
    ensures
        !state.maintained(expired, ranking).observed.dom().contains(key),
{
    law_run_drops_the_expired_and_the_evicted(state, expired, ranking);
}

/// Once every entry has expired, the next run reports zero entries and zero
/// weight, exactly.
pub proof fn law_expiration_of_every_entry_leaves_zero(
    state: LedgerState,
    expired: Seq<u64>,
    ranking: Seq<u64>,
)
    requires
        state.wf(),
        state.phase is Idle,
        forall|key: u64| #[trigger]
            apply_all(state.observed, state.pending_writes).dom().contains(key)
                ==> expired.contains(key),
    ensures
        ({
            let snapshot = state.maintained(expired, ranking).snapshot();
            &&& snapshot.exact()
            &&& snapshot.entry_count.value == 0
            &&& snapshot.weighted_size.value == 0
        }),
{
    law_maintenance_settles(state, expired, ranking);
    law_run_drops_the_expired_and_the_evicted(state, expired, ranking);
    assert(state.maintained(expired, ranking).observed.dom() =~= Set::<u64>::empty());
}

/// A ledger of entries none of which is lighter than one stays such a ledger.
proof fn lemma_weights_are_kept(state: LedgerState, event: Event)
    requires
        state.wf(),
        state.allows(event),
        state.weighs_its_entries(),
        event matches Event::Write { op } ==> op_weight_positive(op),
    ensures
        state.next(event).weighs_its_entries(),
{
    match event {
        Event::Apply { expired, ranking } => {
            let writes = state.applied_writes(expired, ranking);
            lemma_apply_all_positive(state.observed, writes);
        },
        Event::Finish => {
            lemma_total_weight_at_least_count(state.observed);
            let taken = state.taken().1 as int;
            assert forall|i: int| 0 <= i < state.pending_writes.len() - taken implies
                op_weight_positive(#[trigger] state.next(event).pending_writes[i]) by {
                assert(op_weight_positive(state.pending_writes[i + taken]));
            }
        },
        _ => {},
    }
}

/// After writes that make no entry lighter than one, the same holds of the whole
/// ledger.
proof fn lemma_weights_after(policy: PolicyView, strategy: EvictionStrategy, events: Seq<Event>)
    requires
        LedgerState::initial(policy, strategy).allows_all(events),
        writes_positive(events),
    ensures
        LedgerState::initial(policy, strategy).after(events).weighs_its_entries(),
    decreases events.len(),
{
    let initial = LedgerState::initial(policy, strategy);
    if events.len() > 0 {
        let earlier = events.drop_last();
        assert forall|i: int| 0 <= i < earlier.len() implies (#[trigger] earlier[i] matches
            Event::Write { op } ==> op_weight_positive(op)) by {
            assert(earlier[i] == events[i]);
        }
        lemma_weights_after(policy, strategy, earlier);
        law_every_ledger_is_wf(policy, strategy, earlier);
        assert(events[events.len() - 1] == events.last());
        lemma_weights_are_kept(initial.after(earlier), events.last());
    }
}

/// Where no entry is lighter than one, as in a cache without a weigher, no
/// snapshot shows a weighted size below the entry count, not even one that is
/// taken while a run is between publishing one and the other.
pub proof fn law_weighted_size_covers_entry_count(
    policy: PolicyView,
    strategy: EvictionStrategy,
    events: Seq<Event>,
)
    requires
        LedgerState::initial(policy, strategy).allows_all(events),
        writes_positive(events),
    ensures
        ({
            let snapshot = LedgerState::initial(policy, strategy).after(events).snapshot();
            snapshot.weighted_size.value >= snapshot.entry_count.value
        }),
{
    let state = LedgerState::initial(policy, strategy).after(events);
    law_every_ledger_is_wf(policy, strategy, events);
    lemma_weights_after(policy, strategy, events);
    lemma_total_weight_at_least_count(state.observed);
    let settled = state.history[state.history.len() - 1];
    assert(settled.representable() && settled.weighs_its_entries());
}

/// A ledger whose counters are within the capacity keeps them there.
proof fn lemma_capacity_is_kept(state: LedgerState, event: Event)
    requires
        state.wf(),
        state.allows(event),
        state.within_capacity(),
        event matches Event::Apply { expired, ranking } ==> state.ranked(expired, ranking),
    ensures
        state.next(event).within_capacity(),
{
    match event {
        Event::Apply { expired, ranking } => {
            let entries = apply_all(state.observed, state.swept(expired));
            let max_capacity = state.policy.max_capacity;
            lemma_apply_all_finite(state.observed, state.swept(expired));
            lemma_eviction_fits(entries, ranking, max_capacity);
            let victims = ranking.take(eviction_len(entries, ranking, max_capacity) as int);
            lemma_apply_all_concat(state.observed, state.swept(expired), removals(victims));
        },
        _ => {},
    }
}

/// Where the eviction policy ranks every entry, the counters of the ledger are
/// always within the capacity.
proof fn lemma_capacity_after(policy: PolicyView, strategy: EvictionStrategy, events: Seq<Event>)
    requires
        LedgerState::initial(policy, strategy).allows_all(events),
        LedgerState::initial(policy, strategy).ranks_all(events),
    ensures
        LedgerState::initial(policy, strategy).after(events).within_capacity(),
    decreases events.len(),
{
    let initial = LedgerState::initial(policy, strategy);
    if events.len() > 0 {
        let earlier = events.drop_last();
        lemma_capacity_after(policy, strategy, earlier);
        law_every_ledger_is_wf(policy, strategy, earlier);
        lemma_capacity_is_kept(initial.after(earlier), events.last());
    }
}

/// Where the eviction policy ranks every entry, no snapshot shows a weighted
/// size above the capacity.
pub proof fn law_weighted_size_stays_within_capacity(
    policy: PolicyView,
    strategy: EvictionStrategy,
    events: Seq<Event>,
)
    requires
        LedgerState::initial(policy, strategy).allows_all(events),
        LedgerState::initial(policy, strategy).ranks_all(events),
    ensures
        ({
            let snapshot = LedgerState::initial(policy, strategy).after(events).snapshot();
            policy.max_capacity matches Some(capacity) ==> snapshot.weighted_size.value <= capacity
        }),
{
    let state = LedgerState::initial(policy, strategy).after(events);
    law_policy_never_changes(LedgerState::initial(policy, strategy), events);
    law_every_ledger_is_wf(policy, strategy, events);
    lemma_capacity_after(policy, strategy, events);
}

} // verus!
