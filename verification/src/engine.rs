//! The bounded-concurrency batch orchestrator. A batch tracks, for a fixed
//! list of repository pairs, which units of work have been dispatched and
//! which have completed; dispatch is admitted only while fewer than the
//! concurrency limit are running, and completion records exactly one result
//! per input, by the input's index. The threads that perform the work live
//! outside the library and drive this bookkeeping.

use vstd::prelude::*;
use vstd::pervasive::unreached;
use vstd::pervasive::VecAdditionalExecFns;

use crate::fork_sync::ForkSyncResult;
use crate::sync_state::SyncStatus;

verus! {

/// Sync engine that runs fork syncs in parallel with a concurrency limit.
#[derive(Debug, Clone)]
pub struct SyncEngine {
    pub concurrency: usize,
}

/// How many of the first `n` units are running: dispatched, not completed.
pub open spec fn count_running(
    started: Seq<bool>,
    results: Seq<Option<ForkSyncResult>>,
    n: int,
) -> int
    decreases n,
{
    if n <= 0 {
        0
    } else {
        count_running(started, results, n - 1) + if started[n - 1] && results[n - 1] is None {
            1int
        } else {
            0int
        }
    }
}

/// The running count looks only at the first `n` positions.
proof fn lemma_count_prefix(
    s1: Seq<bool>,
    r1: Seq<Option<ForkSyncResult>>,
    s2: Seq<bool>,
    r2: Seq<Option<ForkSyncResult>>,
    n: int,
)
    requires
        forall|j: int| 0 <= j < n ==> (#[trigger] s1[j]) == s2[j],
        forall|j: int| 0 <= j < n ==> (#[trigger] r1[j]) == r2[j],
    ensures
        count_running(s1, r1, n) == count_running(s2, r2, n),
    decreases n,
{
    if n > 0 {
        lemma_count_prefix(s1, r1, s2, r2, n - 1);
    }
}

/// Dispatching one unstarted unit raises the running count by one.
proof fn lemma_count_dispatch(
    s: Seq<bool>,
    r: Seq<Option<ForkSyncResult>>,
    i: int,
    n: int,
)
    requires
        0 <= i < n <= s.len(),
        n <= r.len(),
        !s[i],
        r[i] is None,
    ensures
        count_running(s.update(i, true), r, n) == count_running(s, r, n) + 1,
    decreases n,
{
    if i == n - 1 {
        lemma_count_prefix(s.update(i, true), r, s, r, n - 1);
    } else {
        lemma_count_dispatch(s, r, i, n - 1);
    }
}

/// Completing one running unit lowers the running count by one.
proof fn lemma_count_complete(
    s: Seq<bool>,
    r: Seq<Option<ForkSyncResult>>,
    res: ForkSyncResult,
    i: int,
    n: int,
)
    requires
        0 <= i < n <= s.len(),
        n <= r.len(),
        s[i],
        r[i] is None,
    ensures
        count_running(s, r.update(i, Some(res)), n) == count_running(s, r, n) - 1,
    decreases n,
{
    if i == n - 1 {
        lemma_count_prefix(s, r.update(i, Some(res)), s, r, n - 1);
    } else {
        lemma_count_complete(s, r, res, i, n - 1);
    }
}

proof fn lemma_count_nonneg(s: Seq<bool>, r: Seq<Option<ForkSyncResult>>, n: int)
    ensures
        count_running(s, r, n) >= 0,
    decreases n,
{
    if n > 0 {
        lemma_count_nonneg(s, r, n - 1);
    }
}

/// A running unit makes the running count positive.
proof fn lemma_count_pos(s: Seq<bool>, r: Seq<Option<ForkSyncResult>>, i: int, n: int)
    requires
        0 <= i < n,
        s[i],
        r[i] is None,
    ensures
        count_running(s, r, n) >= 1,
    decreases n,
{
    if i == n - 1 {
        lemma_count_nonneg(s, r, n - 1);
    } else {
        lemma_count_pos(s, r, i, n - 1);
    }
}

/// The bookkeeping of one batch run: per input, whether its unit of work
/// was dispatched and, once finished, its result.
pub struct SyncBatch {
    pub limit: usize,
    pub started: Vec<bool>,
    pub results: Vec<Option<ForkSyncResult>>,
    pub active: usize,
}

impl SyncBatch {
    /// The batch bookkeeping is consistent and never admits more units
    /// than the limit.
    pub open spec fn wf(self) -> bool {
        &&& self.limit >= 1
        &&& self.started@.len() == self.results@.len()
        &&& self.active == count_running(
            self.started@,
            self.results@,
            self.started@.len() as int,
        )
        &&& self.active <= self.limit
        &&& forall|i: int|
            0 <= i < self.results@.len() ==> (#[trigger] self.results@[i] is Some
                ==> self.started@[i])
    }

    /// However dispatch and completion interleave, a well-formed batch
    /// never has more than `limit` units running at once.
    pub proof fn lemma_running_bounded(self)
        requires
            self.wf(),
        ensures
            count_running(self.started@, self.results@, self.started@.len() as int)
                <= self.limit,
    {
    }

    /// An empty batch over `n` inputs: nothing dispatched, nothing done.
    pub fn new(limit: usize, n: usize) -> (r: SyncBatch)
        requires
            limit >= 1,
        ensures
            r.wf(),
            r.limit == limit,
            r.started@.len() == n,
            r.active == 0,
            forall|i: int| 0 <= i < n ==> !(#[trigger] r.started@[i]),
            forall|i: int| 0 <= i < n ==> (#[trigger] r.results@[i]) is None,
    {
        let mut started: Vec<bool> = Vec::new();
        let mut results: Vec<Option<ForkSyncResult>> = Vec::new();
        let mut i: usize = 0;
        while i < n
            invariant
                started@.len() == i,
                results@.len() == i,
                i <= n,
                forall|j: int| 0 <= j < i ==> !(#[trigger] started@[j]),
                forall|j: int| 0 <= j < i ==> (#[trigger] results@[j]) is None,
                count_running(started@, results@, i as int) == 0,
            decreases n - i,
        {
            let ghost ps = started@;
            let ghost pr = results@;
            started.push(false);
            results.push(None);
            i = i + 1;
            proof {
                lemma_count_prefix(started@, results@, ps, pr, i - 1);
            }
        }
        SyncBatch { limit, started, results, active: 0 }
    }

    /// Admit the next unstarted unit when a slot is free: its index comes
    /// back, and it counts as running until its result is recorded. With
    /// the limit reached, or nothing left to start, nothing changes.
    pub fn try_dispatch(&mut self) -> (r: Option<usize>)
        requires
            old(self).wf(),
        ensures
            final(self).wf(),
            final(self).limit == old(self).limit,
            final(self).results@ == old(self).results@,
            final(self).started@.len() == old(self).started@.len(),
            r matches Some(i) ==> {
                &&& 0 <= i < old(self).started@.len()
                &&& !old(self).started@[i as int]
                &&& old(self).active < old(self).limit
                &&& final(self).started@ == old(self).started@.update(i as int, true)
                &&& final(self).active == old(self).active + 1
                &&& forall|j: int| 0 <= j < i ==> #[trigger] old(self).started@[j]
            },
            r is None ==> *final(self) == *old(self) && (old(self).active == old(self).limit
                || forall|j: int|
                0 <= j < old(self).started@.len() ==> #[trigger] old(self).started@[j]),
    {
        if self.active >= self.limit {
            return None;
        }
        let mut i: usize = 0;
        while i < self.started.len()
            invariant
                *self == *old(self),
                old(self).wf(),
                old(self).active < old(self).limit,
                i <= self.started@.len(),
                forall|j: int| 0 <= j < i ==> #[trigger] self.started@[j],
            decreases self.started@.len() - i,
        {
            if !self.started[i] {
                proof {
                    lemma_count_dispatch(
                        self.started@,
                        self.results@,
                        i as int,
                        self.started@.len() as int,
                    );
                }
                self.started.set(i, true);
                self.active = self.active + 1;
                return Some(i);
            }
            i = i + 1;
        }
        None
    }

    /// Record the result of unit `i`, freeing its slot.
    pub fn record_result(&mut self, i: usize, res: ForkSyncResult)
        requires
            old(self).wf(),
            i < old(self).results@.len(),
            old(self).started@[i as int],
            old(self).results@[i as int] is None,
        ensures
            final(self).wf(),
            final(self).limit == old(self).limit,
            final(self).started@ == old(self).started@,
            final(self).results@ == old(self).results@.update(i as int, Some(res)),
            final(self).active == old(self).active - 1,
    {
        proof {
            lemma_count_complete(
                self.started@,
                self.results@,
                res,
                i as int,
                self.started@.len() as int,
            );
            lemma_count_pos(
                self.started@,
                self.results@,
                i as int,
                self.started@.len() as int,
            );
        }
        self.results.set(i, Some(res));
        self.active = self.active - 1;
    }

    /// Whether every unit's result has been recorded.
    pub fn is_complete(&self) -> (r: bool)
        ensures
            r == forall|i: int|
                0 <= i < self.results@.len() ==> (#[trigger] self.results@[i]) is Some,
    {
        let mut i: usize = 0;
        while i < self.results.len()
            invariant
                i <= self.results@.len(),
                forall|j: int| 0 <= j < i ==> (#[trigger] self.results@[j]) is Some,
            decreases self.results@.len() - i,
        {
            if self.results[i].is_none() {
                return false;
            }
            i = i + 1;
        }
        true
    }

    /// The results of a completed batch: exactly one per input, in input
    /// order.
    pub fn into_results(self) -> (r: Vec<ForkSyncResult>)
        requires
            forall|i: int|
                0 <= i < self.results@.len() ==> (#[trigger] self.results@[i]) is Some,
        ensures
            r@.len() == self.results@.len(),
            forall|i: int|
                0 <= i < r@.len() ==> #[trigger] r@[i] == self.results@[i]->Some_0,
    {
        let ghost orig = self.results@;
        let mut rest = self.results;
        let mut r: Vec<ForkSyncResult> = Vec::new();
        while rest.len() > 0
            invariant
                r@.len() + rest@.len() == orig.len(),
                rest@ == orig.skip(r@.len() as int),
                forall|i: int| 0 <= i < orig.len() ==> (#[trigger] orig[i]) is Some,
                forall|i: int| 0 <= i < r@.len() ==> #[trigger] r@[i] == orig[i]->Some_0,
            decreases rest@.len(),
        {
            let ghost k = r@.len();
            match rest.remove(0) {
                Some(x) => {
                    proof {
                        assert(orig.skip(k as int)[0] == orig[k as int]);
                    }
                    r.push(x);
                },
                None => {
                    proof {
                        assert(orig.skip(k as int)[0] == orig[k as int]);
                    }
                    unreached()
                },
            }
            proof {
                assert(rest@ =~= orig.skip(r@.len() as int));
            }
        }
        r
    }
}

impl SyncEngine {
    /// An engine that runs at most `concurrency` fork syncs at once.
    pub fn new(concurrency: usize) -> (r: Self)
        ensures
            r.concurrency == concurrency,
    {
        SyncEngine { concurrency }
    }

    /// Fresh bookkeeping for a batch of `n` repository pairs under this
    /// engine's concurrency limit.
    pub fn new_batch(&self, n: usize) -> (r: SyncBatch)
        requires
            self.concurrency >= 1,
        ensures
            r.wf(),
            r.limit == self.concurrency,
            r.started@.len() == n,
            r.active == 0,
            forall|i: int| 0 <= i < n ==> !(#[trigger] r.started@[i]),
            forall|i: int| 0 <= i < n ==> (#[trigger] r.results@[i]) is None,
    {
        SyncBatch::new(self.concurrency, n)
    }
}

/// The number of results with the given status.
pub open spec fn count_status(s: Seq<ForkSyncResult>, st: SyncStatus) -> int
    decreases s.len(),
{
    if s.len() == 0 {
        0
    } else {
        count_status(s.drop_last(), st) + if s.last().record.status == st {
            1int
        } else {
            0int
        }
    }
}

/// Aggregate counts of a batch's results: how many succeeded, failed and
/// were skipped.
pub fn summarize(results: &Vec<ForkSyncResult>) -> (r: (usize, usize, usize))
    ensures
        r.0 == count_status(results@, SyncStatus::Success),
        r.1 == count_status(results@, SyncStatus::Failed),
        r.2 == count_status(results@, SyncStatus::Skipped),
{
    let mut success: usize = 0;
    let mut failed: usize = 0;
    let mut skipped: usize = 0;
    let mut i: usize = 0;
    proof {
        assert(results@.take(0) =~= Seq::<ForkSyncResult>::empty());
    }
    while i < results.len()
        invariant
            i <= results@.len(),
            success <= i && failed <= i && skipped <= i,
            success == count_status(results@.take(i as int), SyncStatus::Success),
            failed == count_status(results@.take(i as int), SyncStatus::Failed),
            skipped == count_status(results@.take(i as int), SyncStatus::Skipped),
        decreases results@.len() - i,
    {
        proof {
            assert(results@.take(i + 1).drop_last() =~= results@.take(i as int));
            assert(results@.take(i + 1).last() == results@[i as int]);
        }
        match results[i].record.status {
            SyncStatus::Success => {
                success = success + 1;
            },
            SyncStatus::Failed => {
                failed = failed + 1;
            },
            SyncStatus::Skipped => {
                skipped = skipped + 1;
            },
            SyncStatus::PartialSuccess => {},
        }
        i = i + 1;
    }
    proof {
        assert(results@.take(i as int) =~= results@);
    }
    (success, failed, skipped)
}

} // verus!
