//! The entries that maintenance has observed, as a map from keys to weights,
//! and what writes, evictions and counting mean on it.

use vstd::prelude::*;

verus! {

/// A write operation that waits in the maintenance queue.
#[derive(Clone, Copy, Debug, PartialEq, Eq, Structural)]
pub enum WriteOp {
    /// The entry was inserted, or its value replaced, and has this weight now.
    Upsert { key: u64, weight: u32 },
    /// The entry was removed.
    Remove { key: u64 },
}

/// The two counters that a maintenance run publishes.
pub struct Counters {
    pub entry_count: nat,
    pub weighted_size: nat,
}

impl Counters {
    /// The initial estimate, before any run.
    pub open spec fn zero() -> Self {
        Counters { entry_count: 0, weighted_size: 0 }
    }

    /// Both counters fit their 64-bit fields.
    pub open spec fn representable(self) -> bool {
        self.entry_count <= u64::MAX && self.weighted_size <= u64::MAX
    }

    /// The weight is at least the number of entries, as it is where no entry
    /// is lighter than one.
    pub open spec fn weighs_its_entries(self) -> bool {
        self.weighted_size >= self.entry_count
    }
}

/// The entries after one write.
pub open spec fn apply_op(entries: Map<u64, u32>, op: WriteOp) -> Map<u64, u32> {
    match op {
        WriteOp::Upsert { key, weight } => entries.insert(key, weight),
        WriteOp::Remove { key } => entries.remove(key),
    }
}

/// The entries after the writes, the first one first.
pub open spec fn apply_all(entries: Map<u64, u32>, ops: Seq<WriteOp>) -> Map<u64, u32>
    decreases ops.len(),
{
    if ops.len() == 0 {
        entries
    } else {
        apply_op(apply_all(entries, ops.drop_last()), ops.last())
    }
}

/// The writes that remove the keys.
pub open spec fn removals(keys: Seq<u64>) -> Seq<WriteOp> {
    keys.map_values(|key: u64| WriteOp::Remove { key })
}

/// The sum of the weights.
pub open spec fn total_weight(entries: Map<u64, u32>) -> nat
    decreases entries.dom().len(),
{
    if entries.dom().finite() && entries.dom().len() > 0 {
        let key = entries.dom().choose();
        entries[key] as nat + total_weight(entries.remove(key))
    } else {
        0
    }
}

/// The total weight does not exceed the capacity, if there is one.
pub open spec fn within_capacity(entries: Map<u64, u32>, max_capacity: Option<u64>) -> bool {
    max_capacity matches Some(capacity) ==> total_weight(entries) <= capacity
}

/// How many keys of the ranking leave, first one first, until the entries that
/// stay are within the capacity or the ranking is used up.
pub open spec fn eviction_len(
    entries: Map<u64, u32>,
    ranking: Seq<u64>,
    max_capacity: Option<u64>,
) -> nat
    decreases ranking.len(),
{
    if ranking.len() == 0 || within_capacity(entries, max_capacity) {
        0
    } else {
        1 + eviction_len(entries.remove(ranking.first()), ranking.drop_first(), max_capacity)
    }
}

/// A number as a 64-bit counter shows it.
pub open spec fn saturated(n: nat) -> nat {
    if n <= u64::MAX {
        n
    } else {
        u64::MAX as nat
    }
}

/// The counters of the entries.
pub open spec fn counters_of(entries: Map<u64, u32>) -> Counters {
    Counters {
        entry_count: saturated(entries.dom().len()),
        weighted_size: saturated(total_weight(entries)),
    }
}

/// No entry is lighter than one.
pub open spec fn weights_positive(entries: Map<u64, u32>) -> bool {
    forall|key: u64| #[trigger] entries.dom().contains(key) ==> entries[key] >= 1
}

/// No write makes an entry lighter than one.
pub open spec fn op_weight_positive(op: WriteOp) -> bool {
    op matches WriteOp::Upsert { weight, .. } ==> weight >= 1
}

/// The total weight is that of any one entry and of the others.
pub proof fn lemma_total_weight_remove(entries: Map<u64, u32>, key: u64)
    requires
        entries.dom().finite(),
        entries.dom().contains(key),
    ensures
        total_weight(entries) == entries[key] + total_weight(entries.remove(key)),
    decreases entries.dom().len(),
{
    let first = entries.dom().choose();
    if first != key {
        lemma_total_weight_remove(entries.remove(first), key);
        lemma_total_weight_remove(entries.remove(key), first);
        assert(entries.remove(first).remove(key) =~= entries.remove(key).remove(first));
    }
}

/// What a write adds to the total weight, over the entries without its key.
pub proof fn lemma_total_weight_insert(entries: Map<u64, u32>, key: u64, weight: u32)
    requires
        entries.dom().finite(),
    ensures
        total_weight(entries.insert(key, weight)) == weight + total_weight(entries.remove(key)),
{
    lemma_total_weight_remove(entries.insert(key, weight), key);
    assert(entries.insert(key, weight).remove(key) =~= entries.remove(key));
}

/// The total weight is bounded by the number of entries.
pub proof fn lemma_total_weight_bound(entries: Map<u64, u32>)
    requires
        entries.dom().finite(),
    ensures
        total_weight(entries) <= entries.dom().len() * u32::MAX,
    decreases entries.dom().len(),
{
    if entries.dom().len() > 0 {
        let key = entries.dom().choose();
        lemma_total_weight_bound(entries.remove(key));
        let rest = entries.remove(key).dom().len();
        assert((rest + 1) * u32::MAX == rest * u32::MAX + u32::MAX) by (nonlinear_arith);
    }
}

/// Entries that weigh at least one each weigh at least their number.
pub proof fn lemma_total_weight_at_least_count(entries: Map<u64, u32>)
    requires
        entries.dom().finite(),
        weights_positive(entries),
    ensures
        total_weight(entries) >= entries.dom().len(),
    decreases entries.dom().len(),
{
    if entries.dom().len() > 0 {
        let key = entries.dom().choose();
        assert(weights_positive(entries.remove(key)));
        lemma_total_weight_at_least_count(entries.remove(key));
    }
}

/// Writes in two parts are writes one part after the other.
pub proof fn lemma_apply_all_concat(
    entries: Map<u64, u32>,
    first: Seq<WriteOp>,
    second: Seq<WriteOp>,
)
    ensures
        apply_all(entries, first + second) == apply_all(apply_all(entries, first), second),
    decreases second.len(),
{
    if second.len() == 0 {
        assert(first + second =~= first);
    } else {
        assert((first + second).drop_last() =~= first + second.drop_last());
        lemma_apply_all_concat(entries, first, second.drop_last());
    }
}

/// Writes leave finitely many entries.
pub proof fn lemma_apply_all_finite(entries: Map<u64, u32>, ops: Seq<WriteOp>)
    requires
        entries.dom().finite(),
    ensures
        apply_all(entries, ops).dom().finite(),
    decreases ops.len(),
{
    if ops.len() > 0 {
        lemma_apply_all_finite(entries, ops.drop_last());
    }
}

/// Writes of positive weights leave entries of positive weights.
pub proof fn lemma_apply_all_positive(entries: Map<u64, u32>, ops: Seq<WriteOp>)
    requires
        weights_positive(entries),
        forall|i: int| 0 <= i < ops.len() ==> op_weight_positive(#[trigger] ops[i]),
    ensures
        weights_positive(apply_all(entries, ops)),
    decreases ops.len(),
{
    if ops.len() > 0 {
        lemma_apply_all_positive(entries, ops.drop_last());
        assert(op_weight_positive(ops[ops.len() - 1]));
    }
}

/// Removals drop their keys and no others, and leave the weights alone.
pub proof fn lemma_apply_removals(entries: Map<u64, u32>, keys: Seq<u64>)
    ensures
        apply_all(entries, removals(keys)) == entries.remove_keys(keys.to_set()),
    decreases keys.len(),
{
    if keys.len() == 0 {
        assert(entries.remove_keys(keys.to_set()) =~= entries);
    } else {
        let fewer = keys.drop_last();
        let last = keys.last();
        lemma_apply_removals(entries, fewer);
        assert(removals(keys).drop_last() =~= removals(fewer));
        assert(keys =~= fewer.push(last));
        assert forall|key: u64| #[trigger]
            keys.contains(key) <==> (fewer.contains(key) || key == last) by {
            if key == last {
                assert(keys[keys.len() - 1] == key);
            }
            if fewer.contains(key) {
                let i = choose|i: int| 0 <= i < fewer.len() && fewer[i] == key;
                assert(keys[i] == key);
            }
        }
        assert(removals(keys).last() == WriteOp::Remove { key: last });
        let kept = entries.remove_keys(fewer.to_set());
        assert(entries.remove_keys(keys.to_set()) =~= kept.remove(last));
    }
}

/// The evicted keys are a prefix of the ranking.
pub proof fn lemma_eviction_len_bound(
    entries: Map<u64, u32>,
    ranking: Seq<u64>,
    max_capacity: Option<u64>,
)
    ensures
        eviction_len(entries, ranking, max_capacity) <= ranking.len(),
    decreases ranking.len(),
{
    if ranking.len() > 0 && !within_capacity(entries, max_capacity) {
        lemma_eviction_len_bound(
            entries.remove(ranking.first()),
            ranking.drop_first(),
            max_capacity,
        );
    }
}

/// A ranking that names every entry is long enough: what stays is within the
/// capacity.
pub proof fn lemma_eviction_fits(
    entries: Map<u64, u32>,
    ranking: Seq<u64>,
    max_capacity: Option<u64>,
)
    requires
        entries.dom().finite(),
        forall|key: u64| #[trigger] entries.dom().contains(key) ==> ranking.contains(key),
    ensures
        ({
            let victims = ranking.take(eviction_len(entries, ranking, max_capacity) as int);
            within_capacity(apply_all(entries, removals(victims)), max_capacity)
        }),
    decreases ranking.len(),
{
    lemma_eviction_len_bound(entries, ranking, max_capacity);
    let n = eviction_len(entries, ranking, max_capacity);
    let victims = ranking.take(n as int);
    if ranking.len() == 0 {
        assert forall|key: u64| !entries.dom().contains(key) by {
            if entries.dom().contains(key) {
                assert(ranking.contains(key));
            }
        }
        assert(entries.dom() =~= Set::<u64>::empty());
        assert(removals(victims) =~= Seq::<WriteOp>::empty());
    } else if within_capacity(entries, max_capacity) {
        assert(removals(victims) =~= Seq::<WriteOp>::empty());
    } else {
        let key = ranking.first();
        let others = ranking.drop_first();
        let rest = entries.remove(key);
        assert forall|k: u64| #[trigger] rest.dom().contains(k) implies others.contains(k) by {
            assert(entries.dom().contains(k));
            let i = choose|i: int| 0 <= i < ranking.len() && ranking[i] == k;
            assert(others[i - 1] == k);
        }
        lemma_eviction_fits(rest, others, max_capacity);
        lemma_eviction_len_bound(rest, others, max_capacity);
        let later = others.take(n - 1);
        assert(removals(victims) =~= seq![WriteOp::Remove { key }] + removals(later));
        lemma_apply_all_concat(entries, seq![WriteOp::Remove { key }], removals(later));
        reveal_with_fuel(apply_all, 2);
        assert(seq![WriteOp::Remove { key }].drop_last() =~= Seq::<WriteOp>::empty());
    }
}

} // verus!
