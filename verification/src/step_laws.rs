//! What each step of the ledger does, and what a snapshot of it shows, field by
//! field and key by key.

use crate::entries::{
    apply_all, counters_of, eviction_len, lemma_apply_all_concat, lemma_apply_removals,
    lemma_eviction_len_bound, lemma_total_weight_insert, removals, total_weight, within_capacity,
    Counters, WriteOp,
};
use crate::laws::{law_every_ledger_is_wf, law_run_drops_the_expired_and_the_evicted, Event};
use crate::ledger::{LedgerState, RunPhaseView};
use crate::policy::{EvictionStrategy, PolicyView};
use crate::snapshot::{CacheSnapshotView, MaintenanceStatusView, SnapshotAccuracy};
use vstd::prelude::*;

verus! {

/// Nothing weighs nothing, and an entry that joins others adds its own weight:
/// the total weight is the sum of the weights, whatever they are.
pub proof fn law_total_weight_is_the_sum(entries: Map<u64, u32>, key: u64, weight: u32)
    requires
        entries.dom().finite(),
        !entries.dom().contains(key),
    ensures
        total_weight(Map::<u64, u32>::empty()) == 0,
        total_weight(entries.insert(key, weight)) == total_weight(entries) + weight,
{
    lemma_total_weight_insert(entries, key, weight);
    assert(entries.remove(key) =~= entries);
}

/// The counters are the number of the entries and the sum of their weights, each
/// as far as 64 bits reach.
pub proof fn law_counters_count_every_entry(entries: Map<u64, u32>)
    ensures
        entries.dom().len() <= u64::MAX ==> counters_of(entries).entry_count
            == entries.dom().len(),
        entries.dom().len() > u64::MAX ==> counters_of(entries).entry_count == u64::MAX,
        total_weight(entries) <= u64::MAX ==> counters_of(entries).weighted_size == total_weight(
            entries,
        ),
        total_weight(entries) > u64::MAX ==> counters_of(entries).weighted_size == u64::MAX,
{
}

/// The last write of a key decides: after an upsert the key is an entry of that
/// weight, after a removal it is none.
pub proof fn law_last_write_decides(
    entries: Map<u64, u32>,
    ops: Seq<WriteOp>,
    key: u64,
    last: int,
)
    requires
        0 <= last < ops.len(),
        forall|j: int|
            last < j < ops.len() ==> match #[trigger] ops[j] {
                WriteOp::Upsert { key: other, .. } => other != key,
                WriteOp::Remove { key: other } => other != key,
            },
    ensures
        match ops[last] {
            WriteOp::Upsert { key: written, weight } => written == key ==> {
                &&& apply_all(entries, ops).dom().contains(key)
                &&& apply_all(entries, ops)[key] == weight
            },
            WriteOp::Remove { key: removed } => removed == key ==> !apply_all(
                entries,
                ops,
            ).dom().contains(key),
        },
    decreases ops.len(),
{
    if last < ops.len() - 1 {
        let earlier = ops.drop_last();
        assert forall|j: int| last < j < earlier.len() implies match #[trigger] earlier[j] {
            WriteOp::Upsert { key: other, .. } => other != key,
            WriteOp::Remove { key: other } => other != key,
        } by {
            assert(earlier[j] == ops[j]);
        }
        law_last_write_decides(entries, earlier, key, last);
        assert(earlier[last] == ops[last]);
        assert(ops[ops.len() - 1] == ops.last());
    }
}

/// A key that no write names keeps what it had: it is an entry, of the same
/// weight, exactly where it was one.
pub proof fn law_unwritten_keys_stay(entries: Map<u64, u32>, ops: Seq<WriteOp>, key: u64)
    requires
        forall|j: int|
            0 <= j < ops.len() ==> match #[trigger] ops[j] {
                WriteOp::Upsert { key: other, .. } => other != key,
                WriteOp::Remove { key: other } => other != key,
            },
    ensures
        apply_all(entries, ops).dom().contains(key) == entries.dom().contains(key),
        entries.dom().contains(key) ==> apply_all(entries, ops)[key] == entries[key],
    decreases ops.len(),
{
    if ops.len() > 0 {
        let earlier = ops.drop_last();
        assert forall|j: int| 0 <= j < earlier.len() implies match #[trigger] earlier[j] {
            WriteOp::Upsert { key: other, .. } => other != key,
            WriteOp::Remove { key: other } => other != key,
        } by {
            assert(earlier[j] == ops[j]);
        }
        law_unwritten_keys_stay(entries, earlier, key);
        assert(ops[ops.len() - 1] == ops.last());
    }
}

/// A new ledger holds the configuration that it was made with and nothing else:
/// no entry, no operation, no run, and the initial estimate of zero.
pub proof fn law_new_ledger_is_empty(policy: PolicyView, strategy: EvictionStrategy)
    ensures
        ({
            let state = LedgerState::initial(policy, strategy);
            &&& state.policy == policy
            &&& state.eviction_strategy == strategy
            &&& state.observed == Map::<u64, u32>::empty()
            &&& state.pending_reads == 0
            &&& state.pending_writes == Seq::<WriteOp>::empty()
            &&& state.published == (Counters { entry_count: 0, weighted_size: 0 })
            &&& state.history == seq![Counters { entry_count: 0, weighted_size: 0 }]
            &&& state.phase == RunPhaseView::Idle
        }),
{
}

/// A read waits as one more read, and changes nothing else.
pub proof fn law_read_joins_the_queue(state: LedgerState)
    ensures
        state.with_read() == (LedgerState { pending_reads: state.pending_reads + 1, ..state }),
{
}

/// A write waits behind the writes that wait already, just as it was made, and
/// changes nothing else.
pub proof fn law_write_joins_the_queue(state: LedgerState, op: WriteOp)
    ensures
        state.with_write(op) == (LedgerState {
            pending_writes: state.pending_writes + seq![op],
            ..state
        }),
{
    assert(state.pending_writes.push(op) =~= state.pending_writes + seq![op]);
}

/// Beginning a run changes nothing but that a run is in progress.
pub proof fn law_begin_only_starts_the_run(state: LedgerState)
    ensures
        state.begun() == (LedgerState { phase: RunPhaseView::Running, ..state }),
{
}

/// Applying the queue changes the observed entries and nothing else that a
/// snapshot shows. The run has then taken all that was waiting.
pub proof fn law_apply_takes_what_waits(
    state: LedgerState,
    expired: Seq<u64>,
    ranking: Seq<u64>,
)
    ensures
        state.applied(expired, ranking) == (LedgerState {
            observed: state.applied(expired, ranking).observed,
            phase: RunPhaseView::Applied {
                reads: state.pending_reads,
                writes: state.pending_writes.len(),
            },
            ..state
        }),
        state.maintained(expired, ranking).observed == state.applied(expired, ranking).observed,
{
    law_begin_only_starts_the_run(state);
}

/// What a run leaves of a key that the cache has written: the entry of its last
/// waiting write, unless it has expired or had to leave; and none where that
/// write removed it.
pub proof fn law_run_counts_the_last_waiting_write(
    state: LedgerState,
    expired: Seq<u64>,
    ranking: Seq<u64>,
    key: u64,
    last: int,
)
    requires
        0 <= last < state.pending_writes.len(),
        forall|j: int|
            last < j < state.pending_writes.len() ==> match #[trigger] state.pending_writes[j] {
                WriteOp::Upsert { key: other, .. } => other != key,
                WriteOp::Remove { key: other } => other != key,
            },
    ensures
        ({
            let left = state.applied(expired, ranking).observed;
            let victims = ranking.take(state.evictions(expired, ranking) as int);
            match state.pending_writes[last] {
                WriteOp::Upsert { key: written, weight } => written == key ==> {
                    &&& left.dom().contains(key) == (!expired.contains(key) && !victims.contains(
                        key,
                    ))
                    &&& left.dom().contains(key) ==> left[key] == weight
                },
                WriteOp::Remove { key: removed } => removed == key ==> !left.dom().contains(key),
            }
        }),
{
    law_last_write_decides(state.observed, state.pending_writes, key, last);
    law_apply_takes_what_waits(state, expired, ranking);
    law_run_drops_the_expired_and_the_evicted(state, expired, ranking);
}

/// What a run leaves of a key that the cache has not written since: the entry
/// that it was, unless it has expired or had to leave.
pub proof fn law_run_keeps_unwritten_entries(
    state: LedgerState,
    expired: Seq<u64>,
    ranking: Seq<u64>,
    key: u64,
)
    requires
        forall|j: int|
            0 <= j < state.pending_writes.len() ==> match #[trigger] state.pending_writes[j] {
                WriteOp::Upsert { key: other, .. } => other != key,
                WriteOp::Remove { key: other } => other != key,
            },
    ensures
        ({
            let left = state.applied(expired, ranking).observed;
            let victims = ranking.take(state.evictions(expired, ranking) as int);
            &&& left.dom().contains(key) == (state.observed.dom().contains(key)
                && !expired.contains(key) && !victims.contains(key))
            &&& left.dom().contains(key) ==> left[key] == state.observed[key]
        }),
{
    law_unwritten_keys_stay(state.observed, state.pending_writes, key);
    law_apply_takes_what_waits(state, expired, ranking);
    law_run_drops_the_expired_and_the_evicted(state, expired, ranking);
}

/// Eviction goes through the ranking in its order, and stops at the first key
/// before which the entries fit.
proof fn lemma_eviction_is_minimal(
    entries: Map<u64, u32>,
    ranking: Seq<u64>,
    max_capacity: Option<u64>,
    k: nat,
)
    requires
        k <= eviction_len(entries, ranking, max_capacity),
    ensures
        eviction_len(entries, ranking, max_capacity) <= ranking.len(),
        k < eviction_len(entries, ranking, max_capacity) ==> !within_capacity(
            entries.remove_keys(ranking.take(k as int).to_set()),
            max_capacity,
        ),
        k == eviction_len(entries, ranking, max_capacity) && k < ranking.len() ==> within_capacity(
            entries.remove_keys(ranking.take(k as int).to_set()),
            max_capacity,
        ),
    decreases ranking.len(),
{
    lemma_eviction_len_bound(entries, ranking, max_capacity);
    if k == 0 {
        assert(entries.remove_keys(ranking.take(0).to_set()) =~= entries);
    } else {
        let first = ranking.first();
        let others = ranking.drop_first();
        lemma_eviction_is_minimal(entries.remove(first), others, max_capacity, (k - 1) as nat);
        let some = ranking.take(k as int);
        let rest = others.take(k - 1);
        assert forall|key: u64| #[trigger]
            some.contains(key) <==> (key == first || rest.contains(key)) by {
            if some.contains(key) {
                let i = choose|i: int| 0 <= i < some.len() && some[i] == key;
                if i > 0 {
                    assert(rest[i - 1] == key);
                }
            }
            if key == first {
                assert(some[0] == key);
            }
            if rest.contains(key) {
                let i = choose|i: int| 0 <= i < rest.len() && rest[i] == key;
                assert(some[i + 1] == key);
            }
        }
        assert(entries.remove_keys(some.to_set()) =~= entries.remove(first).remove_keys(
            rest.to_set(),
        ));
    }
}

/// A run evicts no more than it must: with any fewer keys of the ranking gone,
/// the entries that are left would weigh more than the capacity. Without a
/// capacity it evicts nothing.
pub proof fn law_eviction_is_minimal(
    state: LedgerState,
    expired: Seq<u64>,
    ranking: Seq<u64>,
    k: nat,
)
    requires
        k < state.evictions(expired, ranking),
    ensures
        state.policy.max_capacity is Some,
        total_weight(
            apply_all(state.observed, state.pending_writes).remove_keys(
                expired.to_set(),
            ).remove_keys(ranking.take(k as int).to_set()),
        ) > state.policy.max_capacity->Some_0,
{
    let queued = apply_all(state.observed, state.pending_writes);
    lemma_apply_all_concat(state.observed, state.pending_writes, removals(expired));
    lemma_apply_removals(queued, expired);
    lemma_eviction_is_minimal(
        queued.remove_keys(expired.to_set()),
        ranking,
        state.policy.max_capacity,
        k,
    );
}

/// A run evicts as much as it must: unless it has gone through the whole
/// ranking, the entries that are left weigh no more than the capacity.
pub proof fn law_eviction_suffices(state: LedgerState, expired: Seq<u64>, ranking: Seq<u64>)
    ensures
        state.evictions(expired, ranking) <= ranking.len(),
        state.evictions(expired, ranking) < ranking.len() && state.policy.max_capacity is Some
            ==> total_weight(state.applied(expired, ranking).observed)
            <= state.policy.max_capacity->Some_0,
{
    let queued = apply_all(state.observed, state.pending_writes);
    lemma_apply_all_concat(state.observed, state.pending_writes, removals(expired));
    lemma_apply_removals(queued, expired);
    lemma_eviction_is_minimal(
        queued.remove_keys(expired.to_set()),
        ranking,
        state.policy.max_capacity,
        state.evictions(expired, ranking),
    );
    law_apply_takes_what_waits(state, expired, ranking);
    law_run_drops_the_expired_and_the_evicted(state, expired, ranking);
}

/// Publishing replaces at most one counter, by that of the observed entries: none
/// where the run took no write; else the weight where it does not shrink, and
/// the count where it does. It changes nothing else.
pub proof fn law_publish_replaces_one_counter(state: LedgerState, reads: nat, writes: nat)
    requires
        state.phase == (RunPhaseView::Applied { reads, writes }),
    ensures
        ({
            let new = counters_of(state.observed);
            let published = state.half_published().published;
            &&& state.half_published() == (LedgerState {
                published,
                phase: RunPhaseView::Publishing { reads, writes },
                ..state
            })
            &&& writes == 0 ==> published == state.published
            &&& writes > 0 && new.weighted_size >= state.published.weighted_size ==> {
                &&& published.entry_count == state.published.entry_count
                &&& published.weighted_size == new.weighted_size
            }
            &&& writes > 0 && new.weighted_size < state.published.weighted_size ==> {
                &&& published.entry_count == new.entry_count
                &&& published.weighted_size == state.published.weighted_size
            }
        }),
{
}

/// Finishing a run publishes the counters of the observed entries as those of
/// the next generation, and takes from the front of the queue what the run took
/// there. It changes nothing else.
pub proof fn law_finish_completes_the_generation(state: LedgerState, reads: nat, writes: nat)
    requires
        state.phase == (RunPhaseView::Publishing { reads, writes }),
        reads <= state.pending_reads,
        writes <= state.pending_writes.len(),
    ensures
        state.finished() == (LedgerState {
            pending_reads: (state.pending_reads - reads) as nat,
            pending_writes: state.pending_writes.subrange(
                writes as int,
                state.pending_writes.len() as int,
            ),
            published: counters_of(state.observed),
            history: state.history + seq![counters_of(state.observed)],
            phase: RunPhaseView::Idle,
            ..state
        }),
{
    assert(state.history.push(counters_of(state.observed)) =~= state.history + seq![
        counters_of(state.observed),
    ]);
    assert(state.pending_writes.skip(writes as int) =~= state.pending_writes.subrange(
        writes as int,
        state.pending_writes.len() as int,
    ));
}

/// A whole run leaves nothing waiting and nothing running, and adds one
/// generation, with the counters of the entries that it left.
pub proof fn law_run_empties_the_queue(state: LedgerState, expired: Seq<u64>, ranking: Seq<u64>)
    ensures
        ({
            let left = state.maintained(expired, ranking).observed;
            state.maintained(expired, ranking) == (LedgerState {
                observed: left,
                pending_reads: 0,
                pending_writes: Seq::empty(),
                published: counters_of(left),
                history: state.history + seq![counters_of(left)],
                phase: RunPhaseView::Idle,
                ..state
            })
        }),
{
    let begun = state.begun();
    let applied = begun.applied(expired, ranking);
    let reads = state.pending_reads;
    let writes = state.pending_writes.len();
    law_publish_replaces_one_counter(applied, reads, writes);
    law_finish_completes_the_generation(applied.half_published(), reads, writes);
    assert(state.pending_writes.subrange(writes as int, writes as int) =~= Seq::empty());
}

/// What a snapshot shows of a ledger, field by field: its configuration, what
/// waits, how many generations there are after the initial one, whether a run is
/// in progress, and the published counters, which are zero and unmaintained
/// before the first run completes, approximate while a run that took writes is
/// publishing, and exact else.
pub proof fn law_snapshot_shows_the_ledger(state: LedgerState)
    requires
        state.history.len() >= 1,
        state.published.entry_count <= u64::MAX,
        state.published.weighted_size <= u64::MAX,
    ensures
        ({
            let snapshot = state.snapshot();
            let count = snapshot.entry_count;
            let weight = snapshot.weighted_size;
            &&& snapshot.policy == state.policy
            &&& snapshot.eviction_strategy == state.eviction_strategy
            &&& snapshot.maintenance.generation == state.history.len() - 1
            &&& snapshot.maintenance.pending_read_ops == state.pending_reads
            &&& snapshot.maintenance.pending_write_ops == state.pending_writes.len()
            &&& snapshot.maintenance.is_running == (state.phase != RunPhaseView::Idle)
            &&& weight.accuracy == count.accuracy
            &&& if state.history.len() == 1 {
                &&& count.accuracy == SnapshotAccuracy::Unmaintained
                &&& count.value == 0
                &&& weight.value == 0
            } else {
                &&& count.value == state.published.entry_count
                &&& weight.value == state.published.weighted_size
                &&& match state.phase {
                    RunPhaseView::Publishing { writes, .. } if writes > 0 => count.accuracy
                        == SnapshotAccuracy::Approximate,
                    _ => count.accuracy == SnapshotAccuracy::Exact,
                }
            }
        }),
{
}

/// Maintenance lags exactly where some operation waits, a read or a write,
/// whatever the generation and whether or not a run is in progress.
pub proof fn law_lags_where_operations_wait(status: MaintenanceStatusView)
    ensures
        status.lags() == !(status.pending_read_ops == 0 && status.pending_write_ops == 0),
{
}

/// A snapshot is exact exactly where neither counter is anything else.
pub proof fn law_exact_where_both_counters_are(snapshot: CacheSnapshotView)
    ensures
        snapshot.exact() == !(snapshot.entry_count.accuracy != SnapshotAccuracy::Exact
            || snapshot.weighted_size.accuracy != SnapshotAccuracy::Exact),
{
}

/// A cache is reported, after whatever has happened, with the very policy and
/// strategy that it was configured with.
pub proof fn law_configuration_is_reported(
    policy: PolicyView,
    strategy: EvictionStrategy,
    events: Seq<Event>,
)
    ensures
        ({
            let snapshot = LedgerState::initial(policy, strategy).after(events).snapshot();
            &&& snapshot.policy == policy
            &&& snapshot.policy.max_capacity == policy.max_capacity
            &&& snapshot.policy.time_to_live == policy.time_to_live
            &&& snapshot.policy.time_to_idle == policy.time_to_idle
            &&& snapshot.eviction_strategy == strategy
        }),
    decreases events.len(),
{
    if events.len() > 0 {
        law_configuration_is_reported(policy, strategy, events.drop_last());
    }
}

/// A snapshot says that a run is in progress from the event that begins it to
/// the one that finishes it.
pub proof fn law_running_from_begin_to_finish(state: LedgerState, event: Event)
    requires
        state.allows(event),
    ensures
        ({
            let before = state.snapshot().maintenance.is_running;
            let after = state.next(event).snapshot().maintenance.is_running;
            match event {
                Event::Begin => !before && after,
                Event::Finish => before && !after,
                _ => after == before,
            }
        }),
{
}

/// After any events, a snapshot says that a run is in progress exactly where
/// more runs have begun than have finished; and never more than one has.
pub proof fn law_running_where_a_run_has_begun(
    policy: PolicyView,
    strategy: EvictionStrategy,
    events: Seq<Event>,
)
    requires
        LedgerState::initial(policy, strategy).allows_all(events),
    ensures
        ({
            let begun = events.filter(|event: Event| event is Begin).len();
            let finished = events.filter(|event: Event| event is Finish).len();
            let snapshot = LedgerState::initial(policy, strategy).after(events).snapshot();
            &&& snapshot.maintenance.is_running == (begun > finished)
            &&& finished <= begun <= finished + 1
            &&& snapshot.maintenance.generation == finished
        }),
    decreases events.len(),
{
    reveal(Seq::filter);
    if events.len() > 0 {
        let earlier = events.drop_last();
        law_running_where_a_run_has_begun(policy, strategy, earlier);
        law_every_ledger_is_wf(policy, strategy, earlier);
        law_running_from_begin_to_finish(
            LedgerState::initial(policy, strategy).after(earlier),
            events.last(),
        );
    }
}

} // verus!
