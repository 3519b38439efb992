//! The daemon's state and the notifications it emits. The poll loop, the
//! sleeps and the channels around it are the caller's business.

use vstd::prelude::*;
use crate::drag_drop::{DroppedItem, TransferResult};
use crate::transfer_manager::TransferManager;

verus! {

/// What the daemon tells the shell. Device identifiers ride along as plain
/// strings.
pub enum DaemonNotification {
    TransferStarted(String),
    TransferCompleted(String, TransferResult),
    TransferError(String, String),
    DeviceConnected(String),
    DeviceDisconnected(String),
    NewDropEvent(DropEvent),
}

/// A drop that arrived for a device, with the caller's clock in
/// milliseconds.
pub struct DropEvent {
    pub device_id: String,
    pub items: Vec<DroppedItem>,
    pub timestamp_ms: u64,
}

/// The daemon: whether it runs, and the transfer manager it owns.
pub struct CopyMasterDaemon {
    pub is_running: bool,
    pub transfer_manager: TransferManager,
}

impl CopyMasterDaemon {
    pub fn new() -> (r: Self)
        ensures
            !r.is_running,
            !r.transfer_manager.cancel_requested,
            r.transfer_manager.active_transfers@.len() == 0,
    {
        Self { is_running: false, transfer_manager: TransferManager::new() }
    }

    /// Brings the daemon up; the caller then runs its poll loop.
    pub fn start(&mut self)
        ensures
            final(self).is_running,
            final(self).transfer_manager == old(self).transfer_manager,
    {
        self.is_running = true;
    }

    /// Takes the daemon down and cancels every transfer in flight.
    pub fn stop(&mut self)
        ensures
            !final(self).is_running,
            final(self).transfer_manager.cancel_requested,
            final(self).transfer_manager.active_transfers@.len() == 0,
            !final(self).transfer_manager.has_active_spec(),
            final(self).transfer_manager.transfers == old(self).transfer_manager.transfers,
    {
        self.is_running = false;
        self.transfer_manager.cancel_all();
    }

    pub fn is_running(&self) -> (r: bool)
        ensures
            r == self.is_running,
    {
        self.is_running
    }
}

} // verus!
