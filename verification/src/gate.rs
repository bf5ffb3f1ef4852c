//! Identify-rate admission control: one gate per cluster, enforcing
//! the gateway's session-start concurrency limit. At most one Identify
//! is granted per `(shard_id mod max_concurrency)` bucket within any
//! rate window.

use vstd::prelude::*;
use vstd::arithmetic::div_mod::lemma_mod_division_less_than_divisor;

verus! {

broadcast use lemma_mod_division_less_than_divisor;

/// The identify bucket a shard falls into.
pub open spec fn bucket_of(shard_id: u64, max_concurrency: int) -> int
    recommends
        max_concurrency >= 1,
{
    (shard_id as int) % max_concurrency
}

/// Whether a gate whose buckets last granted at `last` may grant
/// `shard_id` an Identify at `now_ms`: its bucket has never granted,
/// or granted at least one full window ago.
pub open spec fn gate_allows(
    last: Seq<Option<u64>>,
    window_ms: u64,
    max_concurrency: int,
    shard_id: u64,
    now_ms: u64,
) -> bool
    recommends
        max_concurrency >= 1,
        last.len() == max_concurrency,
{
    match last[bucket_of(shard_id, max_concurrency)] {
        None => true,
        Some(t) => now_ms >= t + window_ms,
    }
}

/// The per-bucket grant times after `shard_id` is granted at `now_ms`.
pub open spec fn gate_update(
    last: Seq<Option<u64>>,
    max_concurrency: int,
    shard_id: u64,
    now_ms: u64,
) -> Seq<Option<u64>>
    recommends
        max_concurrency >= 1,
        last.len() == max_concurrency,
{
    last.update(bucket_of(shard_id, max_concurrency), Some(now_ms))
}

/// The shared identify-rate gate of one cluster.
pub struct IdentifyGate {
    /// The gateway's session-start concurrency limit.
    pub max_concurrency: usize,
    /// The length of one rate window, in milliseconds.
    pub window_ms: u64,
    /// When each bucket last had an Identify granted.
    pub last_grant: Vec<Option<u64>>,
}

impl IdentifyGate {
    /// One slot per bucket.
    pub open spec fn wf(self) -> bool {
        &&& self.max_concurrency >= 1
        &&& self.last_grant@.len() == self.max_concurrency
    }

    /// A fresh gate: no bucket has granted yet.
    pub fn new(max_concurrency: usize, window_ms: u64) -> (g: IdentifyGate)
        requires
            max_concurrency >= 1,
        ensures
            g.wf(),
            g.max_concurrency == max_concurrency,
            g.window_ms == window_ms,
            forall|b: int| 0 <= b < max_concurrency ==> g.last_grant@[b] is None,
    {
        let mut last_grant: Vec<Option<u64>> = Vec::new();
        let mut i: usize = 0;
        while i < max_concurrency
            invariant
                i <= max_concurrency,
                last_grant@.len() == i,
                forall|b: int| 0 <= b < i ==> last_grant@[b] is None,
            decreases max_concurrency - i,
        {
            last_grant.push(None);
            i = i + 1;
        }
        IdentifyGate { max_concurrency, window_ms, last_grant }
    }

    /// Asks for an Identify slot for `shard_id` at time `now_ms`. The
    /// slot is granted if and only if the shard's bucket is free in
    /// the current window; a grant occupies the bucket for one full
    /// window from `now_ms`.
    pub fn try_acquire(&mut self, shard_id: u64, now_ms: u64) -> (granted: bool)
        requires
            old(self).wf(),
        ensures
            final(self).wf(),
            final(self).max_concurrency == old(self).max_concurrency,
            final(self).window_ms == old(self).window_ms,
            granted == gate_allows(
                old(self).last_grant@,
                old(self).window_ms,
                old(self).max_concurrency as int,
                shard_id,
                now_ms,
            ),
            granted ==> final(self).last_grant@ == gate_update(
                old(self).last_grant@,
                old(self).max_concurrency as int,
                shard_id,
                now_ms,
            ),
            !granted ==> *final(self) == *old(self),
    {
        let b = (shard_id % (self.max_concurrency as u64)) as usize;
        let granted = match self.last_grant[b] {
            None => true,
            Some(t) => now_ms >= t && now_ms - t >= self.window_ms,
        };
        if granted {
            self.last_grant[b] = Some(now_ms);
        }
        granted
    }
}

/// Two shards of the same identify bucket never identify within one
/// rate window: if shard `a` is admitted at `t1`, and shard `b` is
/// admitted at `t2` against the bucket times as they stand after that
/// first admission, then `t2` is at least one full window past `t1`.
pub proof fn lemma_same_bucket_grants_separated(
    last: Seq<Option<u64>>,
    window_ms: u64,
    max_concurrency: int,
    a: u64,
    b: u64,
    t1: u64,
    t2: u64,
)
    requires
        max_concurrency >= 1,
        last.len() == max_concurrency,
        bucket_of(a, max_concurrency) == bucket_of(b, max_concurrency),
        gate_allows(last, window_ms, max_concurrency, a, t1),
        gate_allows(gate_update(last, max_concurrency, a, t1), window_ms, max_concurrency, b, t2),
    ensures
        t2 >= t1 + window_ms,
{
}

/// Shards of different buckets are admitted independently: granting
/// one leaves the other's bucket untouched.
pub proof fn lemma_other_bucket_unaffected(
    last: Seq<Option<u64>>,
    window_ms: u64,
    max_concurrency: int,
    a: u64,
    b: u64,
    t1: u64,
    t2: u64,
)
    requires
        max_concurrency >= 1,
        last.len() == max_concurrency,
        bucket_of(a, max_concurrency) != bucket_of(b, max_concurrency),
    ensures
        gate_allows(gate_update(last, max_concurrency, a, t1), window_ms, max_concurrency, b, t2)
            == gate_allows(last, window_ms, max_concurrency, b, t2),
{
}

} // verus!
