//! The configuration of a cache: its capacity, its expiration times and its
//! eviction strategy.

use std::time::Duration;
use vstd::prelude::*;

verus! {

/// What a [`Policy`] holds.
pub struct PolicyView {
    pub max_capacity: Option<u64>,
    pub time_to_live: Option<Duration>,
    pub time_to_idle: Option<Duration>,
}

/// The capacity and expiration policy of a cache.
#[derive(Debug)]
pub struct Policy {
    max_capacity: Option<u64>,
    time_to_live: Option<Duration>,
    time_to_idle: Option<Duration>,
}

impl View for Policy {
    type V = PolicyView;

    closed spec fn view(&self) -> PolicyView {
        PolicyView {
            max_capacity: self.max_capacity,
            time_to_live: self.time_to_live,
            time_to_idle: self.time_to_idle,
        }
    }
}

impl Policy {
    /// Two policies are equal exactly where all that they hold is.
    pub proof fn lemma_view_determines(self, other: Self)
        ensures
            (self@ == other@) == (self == other),
    {
    }

    /// A policy with the given limits. `None` stands for no limit.
    pub fn new(
        max_capacity: Option<u64>,
        time_to_live: Option<Duration>,
        time_to_idle: Option<Duration>,
    ) -> (policy: Self)
        ensures
            policy@ == (PolicyView { max_capacity, time_to_live, time_to_idle }),
    {
        Self { max_capacity, time_to_live, time_to_idle }
    }

    /// Returns the largest total weight of the entries that the cache keeps.
    pub fn max_capacity(&self) -> (max_capacity: Option<u64>)
        ensures
            max_capacity == self@.max_capacity,
    {
        self.max_capacity
    }

    /// Returns how long an entry lives after it was written.
    pub fn time_to_live(&self) -> (time_to_live: Option<Duration>)
        ensures
            time_to_live == self@.time_to_live,
    {
        self.time_to_live
    }

    /// Returns how long an entry lives after it was last used.
    pub fn time_to_idle(&self) -> (time_to_idle: Option<Duration>)
        ensures
            time_to_idle == self@.time_to_idle,
    {
        self.time_to_idle
    }
}

impl Clone for Policy {
    fn clone(&self) -> (policy: Self)
        ensures
            policy == *self,
    {
        Self {
            max_capacity: self.max_capacity,
            time_to_live: self.time_to_live,
            time_to_idle: self.time_to_idle,
        }
    }
}

/// How a cache chooses the entries that it admits and evicts.
#[derive(Clone, Copy, Debug, PartialEq, Eq, Hash, Structural)]
pub enum EvictionStrategy {
    /// Admission by how often an entry is used, eviction by how recently.
    TinyLfu,
    /// Admission of every entry, eviction by how recently it was used.
    Lru,
}

/// The eviction (and admission) policy of a cache.
#[derive(Debug)]
pub struct EvictionPolicy {
    strategy: EvictionStrategy,
}

impl View for EvictionPolicy {
    type V = EvictionStrategy;

    closed spec fn view(&self) -> EvictionStrategy {
        self.strategy
    }
}

impl EvictionPolicy {
    /// Two eviction policies are equal exactly where all that they hold is.
    pub proof fn lemma_view_determines(self, other: Self)
        ensures
            (self@ == other@) == (self == other),
    {
    }

    /// Returns the TinyLFU policy, which is the default.
    pub fn tiny_lfu() -> (policy: Self)
        ensures
            policy@ == EvictionStrategy::TinyLfu,
    {
        Self { strategy: EvictionStrategy::TinyLfu }
    }

    /// Returns the LRU policy.
    pub fn lru() -> (policy: Self)
        ensures
            policy@ == EvictionStrategy::Lru,
    {
        Self { strategy: EvictionStrategy::Lru }
    }

    /// Returns the strategy that the policy stands for.
    pub fn strategy(&self) -> (strategy: EvictionStrategy)
        ensures
            strategy == self@,
    {
        self.strategy
    }
}

impl Clone for EvictionPolicy {
    fn clone(&self) -> (policy: Self)
        ensures
            policy == *self,
    {
        Self { strategy: self.strategy }
    }
}

impl Default for EvictionPolicy {
    fn default() -> (policy: Self)
        ensures
            policy@ == EvictionStrategy::TinyLfu,
    {
        Self::tiny_lfu()
    }
}

} // verus!
