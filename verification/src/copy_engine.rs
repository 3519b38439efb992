//! Options and live state of a copy operation: how to copy, how it is going,
//! and the per-job conflict settings.

use vstd::prelude::*;
use crate::config::ConflictAction;
use crate::hardware::cpu_count;

verus! {

#[derive(Debug, Clone, Copy, PartialEq, Eq, Structural)]
pub enum CopyAlgorithm {
    /// Plain sequential copy.
    Standard,
    /// Copy in parallel, chunk by chunk.
    ParallelChunks,
    /// Copy with on-the-fly verification.
    Verified,
}

#[derive(Debug, Clone, Copy, PartialEq, Eq, Structural)]
pub enum ConflictResolution {
    Overwrite,
    RenameNew,
    RenameOld,
    Skip,
    AskUser,
}

pub struct CopyOptions {
    pub algorithm: CopyAlgorithm,
    pub buffer_size: usize,
    pub max_threads: usize,
    pub verify_after_copy: bool,
    pub conflict_resolution: ConflictResolution,
    pub preserve_attributes: bool,
    pub sparse_files: bool,
    pub sync_io: bool,
}

impl CopyOptions {
    /// The stock options for a machine with `cpus` usable CPUs: 64 KiB buffer,
    /// two threads per CPU, verification on.
    pub fn default_with_parallelism(cpus: usize) -> (r: Self)
        requires
            cpus <= usize::MAX / 2,
        ensures
            r.algorithm is ParallelChunks,
            r.buffer_size == 65536,
            r.max_threads == cpus * 2,
            r.verify_after_copy,
            r.conflict_resolution is AskUser,
            r.preserve_attributes,
            r.sparse_files,
            !r.sync_io,
    {
        Self {
            algorithm: CopyAlgorithm::ParallelChunks,
            buffer_size: 65536,
            max_threads: cpus * 2,
            verify_after_copy: true,
            conflict_resolution: ConflictResolution::AskUser,
            preserve_attributes: true,
            sparse_files: true,
            sync_io: false,
        }
    }
}

impl Clone for CopyOptions {
    fn clone(&self) -> (r: Self)
        ensures
            r == *self,
    {
        Self {
            algorithm: self.algorithm,
            buffer_size: self.buffer_size,
            max_threads: self.max_threads,
            verify_after_copy: self.verify_after_copy,
            conflict_resolution: self.conflict_resolution,
            preserve_attributes: self.preserve_attributes,
            sparse_files: self.sparse_files,
            sync_io: self.sync_io,
        }
    }
}

impl Default for CopyOptions {
    fn default() -> (r: Self)
        ensures
            r.algorithm is ParallelChunks,
            r.buffer_size == 65536,
            2 <= r.max_threads,
            r.max_threads % 2 == 0,
            r.verify_after_copy,
            r.conflict_resolution is AskUser,
            r.preserve_attributes,
            r.sparse_files,
            !r.sync_io,
    {
        let cpus = cpu_count();
        Self::default_with_parallelism(cpus)
    }
}

/// Aggregate progress of one copy operation. Speed is in bytes per second,
/// times in milliseconds.
pub struct CopyStats {
    pub bytes_transferred: u64,
    pub total_bytes: u64,
    pub speed_bps: u64,
    pub elapsed_ms: u64,
    pub estimated_remaining_ms: u64,
    pub files_copied: usize,
    pub files_total: usize,
    pub errors: Vec<String>,
}

impl CopyStats {
    pub fn new() -> (r: Self)
        ensures
            r.bytes_transferred == 0,
            r.total_bytes == 0,
            r.speed_bps == 0,
            r.elapsed_ms == 0,
            r.estimated_remaining_ms == 0,
            r.files_copied == 0,
            r.files_total == 0,
            r.errors@.len() == 0,
    {
        Self {
            bytes_transferred: 0,
            total_bytes: 0,
            speed_bps: 0,
            elapsed_ms: 0,
            estimated_remaining_ms: 0,
            files_copied: 0,
            files_total: 0,
            errors: Vec::new(),
        }
    }
}

/// Job-scoped conflict state: the action currently in force and the two sticky
/// flags that, once latched, short-circuit every further conflict check.
#[derive(Debug, Clone, Copy, PartialEq, Eq, Structural)]
pub struct RuntimeConflictSettings {
    pub current_action: ConflictAction,
    pub overwrite_all: bool,
    pub skip_all: bool,
    pub ask_for_each: bool,
}

impl RuntimeConflictSettings {
    pub fn new() -> (r: Self)
        ensures
            r.current_action is Ask,
            !r.overwrite_all,
            !r.skip_all,
            r.ask_for_each,
    {
        Self {
            current_action: ConflictAction::Ask,
            overwrite_all: false,
            skip_all: false,
            ask_for_each: true,
        }
    }

    /// The settings after one user decision `action` is taken as the current
    /// action. An `All` form stands for its base action and stops the
    /// per-item asking; latching the sticky flags is `update_conflict_settings`'
    /// business alone, and a flag once latched is never cleared here.
    pub open spec fn updated_with(self, action: ConflictAction) -> RuntimeConflictSettings {
        match action {
            ConflictAction::OverwriteAll => RuntimeConflictSettings {
                current_action: ConflictAction::Overwrite,
                ask_for_each: false,
                ..self
            },
            ConflictAction::SkipAll => RuntimeConflictSettings {
                current_action: ConflictAction::Skip,
                ask_for_each: false,
                ..self
            },
            _ => RuntimeConflictSettings { current_action: action, ..self },
        }
    }

    pub fn update_from_action(&mut self, action: &ConflictAction)
        ensures
            *final(self) == old(self).updated_with(*action),
            final(self).overwrite_all == old(self).overwrite_all,
            final(self).skip_all == old(self).skip_all,
    {
        match action {
            ConflictAction::OverwriteAll => {
                self.ask_for_each = false;
                self.current_action = ConflictAction::Overwrite;
            }
            ConflictAction::SkipAll => {
                self.ask_for_each = false;
                self.current_action = ConflictAction::Skip;
            }
            _ => {
                self.current_action = *action;
            }
        }
    }

    /// Whether the next conflict still has to be put to someone: no sticky flag
    /// latched and no action in force.
    pub open spec fn should_ask_spec(self) -> bool {
        self.ask_for_each && !self.overwrite_all && !self.skip_all
            && self.current_action is Ask
    }

    pub fn should_ask(&self) -> (r: bool)
        ensures
            r == self.should_ask_spec(),
    {
        self.ask_for_each && !self.overwrite_all && !self.skip_all
            && matches!(self.current_action, ConflictAction::Ask)
    }
}

} // verus!
