//! Cluster-level shard ownership: partitioning the global shard id
//! space into contiguous per-cluster ranges, and routing outbound
//! gateway commands to the owning shard.

use vstd::prelude::*;
use vstd::arithmetic::div_mod::{
    lemma_div_pos_is_pos, lemma_fundamental_div_mod, lemma_fundamental_div_mod_converse,
    lemma_mod_division_less_than_divisor,
};
use vstd::arithmetic::mul::{
    group_mul_basics, group_mul_is_distributive, lemma_mul_inequality, lemma_mul_is_commutative,
};

verus! {

broadcast use group_mul_basics, group_mul_is_distributive, lemma_mul_is_commutative;

/// A contiguous range of shard ids owned by one cluster: `start`
/// inclusive, `end` exclusive.
pub struct ShardRange {
    pub start: u64,
    pub end: u64,
}

/// How many clusters a partition of `total` shards into chunks of at
/// most `per` shards produces: `total / per`, rounded up.
pub open spec fn cluster_count(total: u64, per: u64) -> int
    recommends
        per >= 1,
{
    (total + per - 1) / (per as int)
}

/// Where the range at index `i` of the partition begins.
pub open spec fn range_start_at(i: int, per: u64) -> int {
    i * (per as int)
}

/// Where the range at index `i` of the partition ends: one full chunk
/// past its start, clipped to `total`.
pub open spec fn range_end_at(i: int, per: u64, total: u64) -> int {
    if i * (per as int) + per <= total {
        i * (per as int) + per
    } else {
        total as int
    }
}

/// The ranges split `[0, total)` into contiguous chunks of `per`
/// shards, in order, the last chunk possibly smaller.
pub open spec fn is_partition(ranges: Seq<ShardRange>, total: u64, per: u64) -> bool {
    &&& ranges.len() == cluster_count(total, per)
    &&& forall|i: int|
        0 <= i < ranges.len() ==> (#[trigger] ranges[i]).start == range_start_at(i, per)
    &&& forall|i: int|
        0 <= i < ranges.len() ==> (#[trigger] ranges[i]).end == range_end_at(i, per, total)
}

/// Whether `shard` falls inside the range `r`.
pub open spec fn range_contains(r: ShardRange, shard: u64) -> bool {
    r.start <= shard < r.end
}

/// Splits `[0, total_shards)` into contiguous ranges of `per_cluster`
/// shards each, the last possibly smaller; the range at index `i`
/// belongs to the cluster with 1-based id `i + 1`.
pub fn partition_shards(total_shards: u64, per_cluster: u64) -> (r: Vec<ShardRange>)
    requires
        per_cluster >= 1,
    ensures
        is_partition(r@, total_shards, per_cluster),
{
    let mut r: Vec<ShardRange> = Vec::new();
    let mut start: u64 = 0;
    while start < total_shards
        invariant
            per_cluster >= 1,
            start <= total_shards,
            start == r@.len() * per_cluster || start == total_shards,
            r@.len() == 0 ==> start == 0,
            r@.len() > 0 ==> (r@.len() - 1) * per_cluster < start <= r@.len() * per_cluster,
            forall|i: int|
                0 <= i < r@.len() ==> (#[trigger] r@[i]).start == range_start_at(i, per_cluster),
            forall|i: int|
                0 <= i < r@.len() ==> (#[trigger] r@[i]).end == range_end_at(
                    i,
                    per_cluster,
                    total_shards,
                ),
        decreases total_shards - start,
    {
        let remaining = total_shards - start;
        let end: u64 = if remaining <= per_cluster {
            total_shards
        } else {
            start + per_cluster
        };
        r.push(ShardRange { start, end });
        start = end;
    }
    proof {
        let len = r@.len() as int;
        let p = per_cluster as int;
        if len == 0 {
            lemma_fundamental_div_mod_converse(p - 1, p, 0, p - 1);
        } else {
            let rem = total_shards + p - 1 - len * p;
            assert((len - 1) * p == len * p - p);
            assert(0 <= rem < p);
            lemma_fundamental_div_mod_converse(total_shards + p - 1, p, len, rem);
        }
    }
    r
}

/// The bounds that the cluster count puts on `total`: all chunks
/// together reach `total`, and without the last one they fall short.
proof fn lemma_count_bounds(total: u64, per: u64)
    requires
        per >= 1,
    ensures
        cluster_count(total, per) * per >= total,
        total > 0 ==> (cluster_count(total, per) - 1) * per < total,
        total > 0 ==> cluster_count(total, per) >= 1,
        total == 0 ==> cluster_count(total, per) == 0,
{
    let p = per as int;
    let x = total + p - 1;
    let cc = cluster_count(total, per);
    lemma_fundamental_div_mod(x, p);
    lemma_mod_division_less_than_divisor(x, p);
    assert(x == p * cc + x % p);
    assert((cc - 1) * p == cc * p - p);
    if total == 0 {
        lemma_fundamental_div_mod_converse(p - 1, p, 0, p - 1);
    }
}

/// Partitioning covers `[0, total)` exactly once: a shard id below
/// `total` lies in the range at index `shard / per` and in no other.
pub proof fn lemma_partition_covers(ranges: Seq<ShardRange>, total: u64, per: u64, shard: u64)
    requires
        per >= 1,
        is_partition(ranges, total, per),
        shard < total,
    ensures
        0 <= (shard as int) / (per as int) < ranges.len(),
        range_contains(ranges[(shard as int) / (per as int)], shard),
        forall|j: int|
            0 <= j < ranges.len() && range_contains(#[trigger] ranges[j], shard) ==> j == (shard
                as int) / (per as int),
{
    let p = per as int;
    let q = shard as int / p;
    let len = ranges.len() as int;
    lemma_fundamental_div_mod(shard as int, p);
    lemma_mod_division_less_than_divisor(shard as int, p);
    lemma_div_pos_is_pos(shard as int, p);
    assert(q * p <= shard < q * p + p);
    lemma_count_bounds(total, per);
    assert(q < len) by {
        if q >= len {
            lemma_mul_inequality(len, q, p);
        }
    }
    assert(range_contains(ranges[q], shard));
    assert forall|j: int|
        0 <= j < len && range_contains(#[trigger] ranges[j], shard) implies j == q by {
        assert(j * p <= shard < j * p + p);
        lemma_fundamental_div_mod_converse(shard as int, p, j, shard - j * p);
    }
}

/// The partition is ordered and contiguous: each range is non-empty,
/// begins where the previous one ends, holds at most `per` shards, and
/// every range but the last holds exactly `per`; the first begins at 0
/// and the last ends at `total`.
pub proof fn lemma_partition_shape(ranges: Seq<ShardRange>, total: u64, per: u64)
    requires
        per >= 1,
        is_partition(ranges, total, per),
    ensures
        forall|i: int| 0 <= i < ranges.len() ==> (#[trigger] ranges[i]).start < ranges[i].end,
        forall|i: int|
            0 <= i < ranges.len() ==> (#[trigger] ranges[i]).end - ranges[i].start <= per,
        forall|i: int|
            0 <= i < ranges.len() - 1 ==> (#[trigger] ranges[i]).end - ranges[i].start == per,
        forall|i: int| 0 <= i < ranges.len() - 1 ==> (#[trigger] ranges[i]).end == ranges[i + 1].start,
        ranges.len() > 0 ==> ranges[0].start == 0 && ranges[ranges.len() - 1].end == total,
{
    let p = per as int;
    let len = ranges.len() as int;
    lemma_count_bounds(total, per);
    assert forall|i: int| 0 <= i < len implies (#[trigger] ranges[i]).start < ranges[i].end by {
        lemma_mul_inequality(i, len - 1, p);
    }
    assert forall|i: int|
        0 <= i < len - 1 implies (#[trigger] ranges[i]).end - ranges[i].start == per by {
        assert((i + 1) * p == i * p + p);
        lemma_mul_inequality(i + 1, len - 1, p);
        assert((len - 1) * p < total || total == 0);
    }
    assert forall|i: int|
        0 <= i < len - 1 implies (#[trigger] ranges[i]).end == ranges[i + 1].start by {
        assert((i + 1) * p == i * p + p);
        lemma_mul_inequality(i + 1, len - 1, p);
    }
    if len > 0 {
        assert((len - 1) * p == len * p - p);
    }
}

/// A shard id at or past `total` falls in no range of the partition:
/// a command addressed to it is dropped by every cluster.
pub proof fn lemma_unroutable_dropped(ranges: Seq<ShardRange>, total: u64, per: u64, shard: u64)
    requires
        per >= 1,
        is_partition(ranges, total, per),
        shard >= total,
    ensures
        forall|j: int| 0 <= j < ranges.len() ==> !range_contains(#[trigger] ranges[j], shard),
{
}

/// One cluster's identity and shard ownership.
pub struct ClusterShards {
    /// 1-based cluster id: the index of its range in the partition,
    /// plus one.
    pub cluster_id: u64,
    /// The shard range this cluster owns.
    pub range: ShardRange,
    /// The global shard count, shared by all clusters.
    pub total_shards: u64,
}

impl ClusterShards {
    /// Routes an outbound gateway command: a command addressed to a
    /// shard this cluster owns is handed to exactly that shard's
    /// session; any other target is dropped.
    pub fn command_target(&self, shard_id: u64) -> (t: Option<u64>)
        ensures
            t == if range_contains(self.range, shard_id) {
                Some(shard_id)
            } else {
                None::<u64>
            },
    {
        if self.range.start <= shard_id && shard_id < self.range.end {
            Some(shard_id)
        } else {
            None
        }
    }
}

} // verus!
