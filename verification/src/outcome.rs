//! What came of removing a batch of environments.

use vstd::prelude::*;
use crate::error::VenvCleanerError;
use crate::venv_info::VenvInfo;
use crate::walk::saturated;

verus! {

/// One attempt at removal: the environment and what came of it.
pub type DeletionResult = (VenvInfo, Result<(), VenvCleanerError>);

/// The sum of the sizes of `entries`.
pub open spec fn total_bytes(entries: Seq<VenvInfo>) -> nat
    decreases entries.len(),
{
    if entries.len() == 0 {
        0
    } else {
        total_bytes(entries.drop_last()) + entries.last()@.size_bytes as nat
    }
}

/// How many of the first `n` attempts succeeded.
pub open spec fn success_count(results: Seq<DeletionResult>, n: int) -> nat
    decreases n,
{
    if n <= 0 {
        0
    } else {
        success_count(results, n - 1) + if results[n - 1].1 is Ok {
            1nat
        } else {
            0nat
        }
    }
}

/// The bytes that the first `n` attempts freed: the sizes of the
/// environments whose removal succeeded.
pub open spec fn freed_bytes(results: Seq<DeletionResult>, n: int) -> nat
    decreases n,
{
    if n <= 0 {
        0
    } else {
        freed_bytes(results, n - 1) + if results[n - 1].1 is Ok {
            results[n - 1].0@.size_bytes as nat
        } else {
            0nat
        }
    }
}

/// The environments that a list of attempts was made on.
pub open spec fn attempted(results: Seq<DeletionResult>) -> Seq<VenvInfo> {
    results.map_values(|r: DeletionResult| r.0)
}

/// The counts and the total of a batch of removals.
#[derive(Debug, Clone, Copy, PartialEq, Eq, Structural)]
pub struct BatchSummary {
    /// How many removals succeeded.
    pub successful: usize,
    /// How many failed.
    pub failed: usize,
    /// The bytes freed, held to `u64::MAX`.
    pub freed_bytes: u64,
}

/// The sum of the sizes of `entries`, held to `u64::MAX`.
pub fn total_size(entries: &Vec<VenvInfo>) -> (total: u64)
    ensures
        total == saturated(total_bytes(entries@)),
{
    let mut total: u64 = 0;
    let mut k: usize = 0;
    assert(entries@.take(0) =~= Seq::<VenvInfo>::empty());
    while k < entries.len()
        invariant
            k <= entries.len(),
            total == saturated(total_bytes(entries@.take(k as int))),
        decreases entries.len() - k,
    {
        assert(entries@.take(k + 1).drop_last() =~= entries@.take(k as int));
        total = total.saturating_add(entries[k].size_bytes());
        k = k + 1;
    }
    assert(entries@.take(k as int) =~= entries@);
    total
}

/// Counts the successes and failures of a batch and adds up what was freed.
pub fn summarize(results: &Vec<DeletionResult>) -> (summary: BatchSummary)
    ensures
        summary.successful == success_count(results@, results.len() as int),
        summary.successful + summary.failed == results.len(),
        summary.freed_bytes == saturated(freed_bytes(results@, results.len() as int)),
{
    let mut successful: usize = 0;
    let mut failed: usize = 0;
    let mut freed: u64 = 0;
    let mut k: usize = 0;
    while k < results.len()
        invariant
            k <= results.len(),
            successful == success_count(results@, k as int),
            successful + failed == k,
            freed == saturated(freed_bytes(results@, k as int)),
        decreases results.len() - k,
    {
        match &results[k].1 {
            Ok(_) => {
                successful = successful + 1;
                freed = freed.saturating_add(results[k].0.size_bytes());
            },
            Err(_) => {
                failed = failed + 1;
            },
        }
        k = k + 1;
    }
    BatchSummary { successful, failed, freed_bytes: freed }
}

/// Where every removal succeeds, as in a simulation, the batch frees the
/// combined size of all its environments and counts every one a success.
pub proof fn law_full_success_frees_everything(results: Seq<DeletionResult>, n: int)
    requires
        0 <= n <= results.len(),
        forall|k: int| 0 <= k < n ==> (#[trigger] results[k]).1 is Ok,
    ensures
        success_count(results, n) == n,
        freed_bytes(results, n) == total_bytes(attempted(results).take(n)),
    decreases n,
{
    if n > 0 {
        law_full_success_frees_everything(results, n - 1);
        assert(attempted(results).take(n).drop_last() =~= attempted(results).take(n - 1));
        assert(attempted(results).take(n).last() == results[n - 1].0);
    } else {
        assert(attempted(results).take(0) =~= Seq::<VenvInfo>::empty());
    }
}

/// Failures free nothing: what a batch frees never exceeds the combined size
/// of its environments.
pub proof fn law_freed_is_bounded(results: Seq<DeletionResult>, n: int)
    requires
        0 <= n <= results.len(),
    ensures
        freed_bytes(results, n) <= total_bytes(attempted(results).take(n)),
        success_count(results, n) <= n,
    decreases n,
{
    if n > 0 {
        law_freed_is_bounded(results, n - 1);
        assert(attempted(results).take(n).drop_last() =~= attempted(results).take(n - 1));
        assert(attempted(results).take(n).last() == results[n - 1].0);
    } else {
        assert(attempted(results).take(0) =~= Seq::<VenvInfo>::empty());
    }
}

} // verus!
