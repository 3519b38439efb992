//! The plain values a drop hands to the engine, and what comes back.

use vstd::prelude::*;
use crate::device_queue::TransferStatus;

verus! {

/// One dropped path, as the shell reports it.
pub struct DroppedItem {
    pub path: String,
    pub size: u64,
    pub is_dir: bool,
    pub item_count: Option<usize>,
}

impl Clone for DroppedItem {
    fn clone(&self) -> (r: Self)
        ensures
            r.path@ == self.path@,
            r.size == self.size,
            r.is_dir == self.is_dir,
            r.item_count == self.item_count,
    {
        Self {
            path: self.path.clone(),
            size: self.size,
            is_dir: self.is_dir,
            item_count: self.item_count,
        }
    }
}

/// What to do with a drop on a device.
#[derive(Debug, Clone, Copy, PartialEq, Eq, Structural)]
pub enum DropAction {
    NewTransfer,
    AddToExisting,
    MergeDirectories,
    Cancel,
}

/// Requested urgency of a transfer.
#[derive(Debug, Clone, Copy, PartialEq, Eq, Structural)]
pub enum Priority {
    Low,
    Normal,
    High,
    Critical,
}

/// Per-request knobs.
#[derive(Debug, Clone, Copy, PartialEq, Eq, Structural)]
pub struct TransferOptions {
    pub priority: Priority,
    pub verify_after_copy: bool,
    pub preserve_attributes: bool,
}

impl Default for TransferOptions {
    fn default() -> (r: Self)
        ensures
            r.priority is Normal,
            r.verify_after_copy,
            r.preserve_attributes,
    {
        Self {
            priority: Priority::Normal,
            verify_after_copy: true,
            preserve_attributes: true,
        }
    }
}

/// A batch of dropped items bound for one destination. Timestamps are
/// milliseconds of the caller's monotonic clock.
pub struct TransferRequest {
    pub id: u64,
    pub source_items: Vec<DroppedItem>,
    pub destination: String,
    pub device_id: String,
    pub created_at_ms: u64,
    pub options: TransferOptions,
}

/// The outcome of one finished transfer.
pub struct TransferResult {
    pub transfer_id: u64,
    pub status: TransferStatus,
    pub total_bytes: u64,
    pub files_copied: usize,
    pub directories_created: usize,
    pub duration_ms: u64,
    pub errors: Vec<String>,
}

impl TransferResult {
    pub fn new(transfer_id: u64) -> (r: Self)
        ensures
            r.transfer_id == transfer_id,
            r.status is Queued,
            r.total_bytes == 0,
            r.files_copied == 0,
            r.directories_created == 0,
            r.duration_ms == 0,
            r.errors@.len() == 0,
    {
        Self {
            transfer_id,
            status: TransferStatus::Queued,
            total_bytes: 0,
            files_copied: 0,
            directories_created: 0,
            duration_ms: 0,
            errors: Vec::new(),
        }
    }
}

/// A transfer-level failure, as distinct from the per-item `CopyError`.
#[derive(Debug)]
pub enum TransferError {
    IoError(String),
    Cancelled,
    Paused,
}

} // verus!
