//! A cross-device work queue: requests ordered by priority, the largest
//! first among equals.

use vstd::prelude::*;
use vstd::multiset::Multiset;
use crate::device_queue::{CompletedTransfer, TransferJob};

verus! {

broadcast use vstd::seq_lib::group_to_multiset_ensures;

/// Urgency of one queued request, lowest to highest.
#[derive(Debug, Clone, Copy, PartialEq, Eq, Structural)]
pub enum Priority {
    Low,
    Normal,
    High,
    Critical,
}

impl Priority {
    pub open spec fn rank_spec(self) -> int {
        match self {
            Priority::Low => 0,
            Priority::Normal => 1,
            Priority::High => 2,
            Priority::Critical => 3,
        }
    }

    pub fn rank(self) -> (r: u8)
        ensures
            r == self.rank_spec(),
    {
        match self {
            Priority::Low => 0,
            Priority::Normal => 1,
            Priority::High => 2,
            Priority::Critical => 3,
        }
    }
}

/// One copy request waiting to be scheduled. The timestamp is in
/// milliseconds of the caller's clock.
pub struct QueuedTransfer {
    pub id: u64,
    pub priority: Priority,
    pub estimated_size: u64,
    pub queued_at_ms: u64,
    pub source: String,
    pub destination: String,
}

/// `a` is scheduled before `b`: strictly higher priority, or the same
/// priority and strictly more bytes, so that big transfers start early.
pub open spec fn schedules_before(a: QueuedTransfer, b: QueuedTransfer) -> bool {
    a.priority.rank_spec() > b.priority.rank_spec() || (a.priority.rank_spec()
        == b.priority.rank_spec() && a.estimated_size > b.estimated_size)
}

/// The index a scan of the first `k` entries settles on: the first entry no
/// later one schedules before.
pub open spec fn best_queued_upto(s: Seq<QueuedTransfer>, k: int) -> int
    decreases k,
{
    if k <= 1 {
        0
    } else if schedules_before(s[k - 1], s[best_queued_upto(s, k - 1)]) {
        k - 1
    } else {
        best_queued_upto(s, k - 1)
    }
}

/// The pending requests with the running and finished work around them.
pub struct TransferQueue {
    pub pending: Vec<QueuedTransfer>,
    pub active: Vec<TransferJob>,
    pub completed: Vec<CompletedTransfer>,
    pub max_concurrent: usize,
}

impl TransferQueue {
    pub fn new(max_concurrent: usize) -> (r: Self)
        ensures
            r.pending@.len() == 0,
            r.active@.len() == 0,
            r.completed@.len() == 0,
            r.max_concurrent == max_concurrent,
    {
        Self {
            pending: Vec::new(),
            active: Vec::new(),
            completed: Vec::new(),
            max_concurrent,
        }
    }

    /// Takes a batch of requests into the pending set. The set of waiting
    /// requests grows by exactly the batch; the order the scheduler serves
    /// them in is fixed by `next_optimized`, not by this insertion.
    pub fn schedule_smart(&mut self, transfers: Vec<QueuedTransfer>)
        ensures
            final(self).pending@.to_multiset() == old(self).pending@.to_multiset().add(
                transfers@.to_multiset(),
            ),
            final(self).active == old(self).active,
            final(self).completed == old(self).completed,
            final(self).max_concurrent == old(self).max_concurrent,
    {
        let mut rest = transfers;
        loop
            invariant
                self.pending@.to_multiset().add(rest@.to_multiset()) =~= old(
                    self,
                ).pending@.to_multiset().add(transfers@.to_multiset()),
                self.active == old(self).active,
                self.completed == old(self).completed,
                self.max_concurrent == old(self).max_concurrent,
            decreases rest@.len(),
        {
            let ghost pm = self.pending@.to_multiset();
            let ghost rm = rest@.to_multiset();
            let ghost prev_rest = rest@;
            match rest.pop() {
                None => {
                    proof {
                        assert(rest@.to_multiset() =~= Multiset::<QueuedTransfer>::empty());
                        assert(self.pending@.to_multiset() =~= self.pending@.to_multiset().add(
                            rest@.to_multiset(),
                        ));
                    }
                    return;
                }
                Some(t) => {
                    proof {
                        assert(prev_rest =~= rest@.push(t));
                        assert(rest@.push(t).to_multiset() =~= rest@.to_multiset().insert(t));
                        assert(rm =~= rest@.to_multiset().insert(t));
                    }
                    self.pending.push(t);
                    proof {
                        assert(self.pending@.to_multiset() =~= pm.insert(t));
                        assert(self.pending@.to_multiset().add(rest@.to_multiset()) =~= pm.add(
                            rm,
                        ));
                    }
                }
            }
        }
    }

    /// Hands out the request served next: the first entry that none other
    /// schedules before.
    pub fn next_optimized(&mut self) -> (r: Option<QueuedTransfer>)
        ensures
            old(self).pending@.len() == 0 ==> r is None && *final(self) == *old(self),
            old(self).pending@.len() > 0 ==> ({
                let b = best_queued_upto(old(self).pending@, old(self).pending@.len() as int);
                &&& 0 <= b < old(self).pending@.len()
                &&& r == Some(old(self).pending@[b])
                &&& final(self).pending@ == old(self).pending@.remove(b)
                &&& final(self).active == old(self).active
                &&& final(self).completed == old(self).completed
                &&& final(self).max_concurrent == old(self).max_concurrent
            }),
    {
        let n = self.pending.len();
        if n == 0 {
            return None;
        }
        let mut best: usize = 0;
        let mut k: usize = 1;
        while k < n
            invariant
                1 <= k <= n,
                n == self.pending@.len(),
                0 <= best < k,
                best == best_queued_upto(self.pending@, k as int),
            decreases n - k,
        {
            if schedules_before_exec(&self.pending[k], &self.pending[best]) {
                best = k;
            }
            k = k + 1;
        }
        Some(self.pending.remove(best))
    }
}

/// Exec twin of `schedules_before`.
pub fn schedules_before_exec(a: &QueuedTransfer, b: &QueuedTransfer) -> (r: bool)
    ensures
        r == schedules_before(*a, *b),
{
    let ra = a.priority.rank();
    let rb = b.priority.rank();
    ra > rb || (ra == rb && a.estimated_size > b.estimated_size)
}

} // verus!
