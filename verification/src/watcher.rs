//! The decisions of the thread that keeps a watcher in sync.
use vstd::prelude::*;
use vstd::std_specs::convert::FromSpecImpl;

verus! {

/// An error of the operating system's input and output.
#[verifier::external_type_specification]
#[verifier::external_body]
pub struct ExIoError(std::io::Error);

/// Possible errors.
#[derive(Debug)]
pub enum Error {
    /// Thread join error
    ThreadJoin,
    /// IO error
    IO(std::io::Error),
}

impl From<std::io::Error> for Error {
    fn from(src: std::io::Error) -> (e: Self) {
        Self::IO(src)
    }
}

impl FromSpecImpl<std::io::Error> for Error {
    open spec fn obeys_from_spec() -> bool {
        true
    }

    open spec fn from_spec(src: std::io::Error) -> Self {
        Self::IO(src)
    }
}

/// The largest number of blocks that one pass of syncing takes.
pub const MAX_BLOCKS_PER_SYNC_ITERATION: usize = 1000;

/// How a pass of syncing ended.
#[derive(Clone, Copy, Debug, PartialEq, Eq, Structural)]
pub enum SyncResult {
    /// All blocks, up to the highest that was asked for, are synced.
    AllBlocksSynced,
    /// A block could not be synced.
    BlockSyncError,
    /// The pass took as many blocks as one pass may.
    ReachedMaxBlocksPerIteration,
}

/// What the sync thread does next.
#[derive(Clone, Copy, Debug, PartialEq, Eq, Structural)]
pub enum SyncStep {
    /// Leave the loop.
    Stop,
    /// Sleep for the poll interval, then sync again.
    Sleep,
    /// Sync again at once.
    Sync,
}

/// What the sync thread does at the head of its loop: it stops where a stop
/// was requested, and syncs otherwise.
pub fn before_sync(stop_requested: bool) -> (step: SyncStep)
    ensures
        step == if stop_requested {
            SyncStep::Stop
        } else {
            SyncStep::Sync
        },
{
    if stop_requested {
        SyncStep::Stop
    } else {
        SyncStep::Sync
    }
}

/// What the sync thread does after a pass of syncing: it stops once all blocks
/// are synced, sleeps after an error, and goes on at once where the pass only
/// ended to look for a stop request.
pub fn after_sync(result: SyncResult) -> (step: SyncStep)
    ensures
        step == match result {
            SyncResult::AllBlocksSynced => SyncStep::Stop,
            SyncResult::BlockSyncError => SyncStep::Sleep,
            SyncResult::ReachedMaxBlocksPerIteration => SyncStep::Sync,
        },
{
    match result {
        SyncResult::AllBlocksSynced => SyncStep::Stop,
        SyncResult::BlockSyncError => SyncStep::Sleep,
        SyncResult::ReachedMaxBlocksPerIteration => SyncStep::Sync,
    }
}

} // verus!
