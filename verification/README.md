# cache_snapshot

Point-in-time snapshots of a cache: its policy, the entry count and weighted
size that its maintenance has observed, how accurate these are, and how far
maintenance lags behind.

A cache keeps one `MaintenanceLedger`. It records reads and writes there, and
takes the ledger through the steps of a maintenance run. A `CacheSnapshot` can
be taken between any two steps: it reads the ledger, waits for nothing and calls
nothing. The cache itself (its table of values, its clock, its weigher, its
eviction order, its listeners and its locking) stays with the caller: the ledger
knows an entry by the number of its key and by its weight, and takes the expired
keys and the eviction order of a run as arguments.

The library is written in Verus. `src/laws.rs` states and proves what holds
whatever the cache does: among other things, that the counters of an exact
snapshot come from one maintenance generation, that every snapshot is internally
consistent, and that the weighted size stays between the entry count (where no
entry is lighter than one) and the capacity (where every entry is ranked for
eviction).
