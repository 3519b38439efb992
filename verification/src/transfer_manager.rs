//! The engine's top level: every job by its identifier, which ones are
//! active, and the shared cancel-everything switch.

use vstd::prelude::*;
use std::collections::HashMap;
use crate::copy_engine::CopyOptions;
use crate::device_queue::TransferJob;

verus! {

broadcast use vstd::std_specs::hash::group_hash_axioms;

/// Owns the jobs, keyed by identifier, and tracks which are active. Job
/// identifiers grow monotonically, so no two jobs ever share one.
pub struct TransferManager {
    pub transfers: HashMap<u64, TransferJob>,
    pub active_transfers: Vec<u64>,
    pub options: CopyOptions,
    pub cancel_requested: bool,
    pub next_id: u64,
}

impl TransferManager {
    /// Whether a host loop still has work to poll for.
    pub open spec fn has_active_spec(self) -> bool {
        self.active_transfers@.len() > 0
    }

    pub fn new() -> (r: Self)
        ensures
            r.transfers@ == Map::<u64, TransferJob>::empty(),
            r.active_transfers@.len() == 0,
            !r.cancel_requested,
            r.next_id == 1,
            r.options.algorithm is ParallelChunks,
            r.options.buffer_size == 65536,
            2 <= r.options.max_threads,
            r.options.max_threads % 2 == 0,
            r.options.verify_after_copy,
            r.options.conflict_resolution is AskUser,
            r.options.preserve_attributes,
            r.options.sparse_files,
            !r.options.sync_io,
    {
        Self {
            transfers: HashMap::new(),
            active_transfers: Vec::new(),
            options: CopyOptions::default(),
            cancel_requested: false,
            next_id: 1,
        }
    }

    /// Hands out the next job identifier; each is greater than every one
    /// handed out before.
    pub fn next_job_id(&mut self) -> (id: u64)
        requires
            old(self).next_id < u64::MAX,
        ensures
            id == old(self).next_id,
            *final(self) == (TransferManager { next_id: (old(self).next_id + 1) as u64, ..*old(self) }),
    {
        let id = self.next_id;
        self.next_id = self.next_id + 1;
        id
    }

    /// Takes a job in under its identifier and lists it as active.
    pub fn add_transfer(&mut self, transfer: TransferJob)
        ensures
            final(self).transfers@ == old(self).transfers@.insert(transfer.id, transfer),
            final(self).active_transfers@ == old(self).active_transfers@.push(transfer.id),
            final(self).cancel_requested == old(self).cancel_requested,
            final(self).next_id == old(self).next_id,
            final(self).options == old(self).options,
    {
        let id = transfer.id;
        self.transfers.insert(id, transfer);
        self.active_transfers.push(id);
    }

    /// The job filed under `id`, if any.
    pub fn get_transfer(&self, id: u64) -> (r: Option<&TransferJob>)
        ensures
            match r {
                Some(j) => self.transfers@.contains_key(id) && *j == self.transfers@[id],
                None => !self.transfers@.contains_key(id),
            },
    {
        self.transfers.get(&id)
    }

    /// Raises the shared cancellation flag and empties the active list. Copy
    /// loops poll the flag between items and wind down promptly; after this
    /// call, nothing is active any more.
    pub fn cancel_all(&mut self)
        ensures
            final(self).cancel_requested,
            final(self).active_transfers@.len() == 0,
            !final(self).has_active_spec(),
            final(self).transfers == old(self).transfers,
            final(self).options == old(self).options,
            final(self).next_id == old(self).next_id,
    {
        self.cancel_requested = true;
        self.active_transfers.clear();
    }

    /// The cheap non-blocking check a host loop polls.
    pub fn has_active_transfers(&self) -> (r: bool)
        ensures
            r == self.has_active_spec(),
    {
        self.active_transfers.len() > 0
    }
}

/// Cancelling always empties the manager, however many jobs were active:
/// any manager `cancel_all` leaves behind has no active transfers, so
/// `has_active_transfers` reports false.
pub proof fn lemma_cancel_all_quiesces(after: TransferManager)
    requires
        after.cancel_requested,
        after.active_transfers@.len() == 0,
    ensures
        !after.has_active_spec(),
{
}

} // verus!
