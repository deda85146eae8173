//! The contract surface of the periodic checkpoint stream: state that can
//! be checkpointed incrementally, and the stream's options. The stream
//! itself waits on a timer and writes to durable storage, so it lives with
//! the process around the library and drives these through `has_update` and
//! `commit`.

use vstd::prelude::*;

use crate::error::McResult;

verus! {

/// State that can be checkpointed incrementally. The surrounding process
/// implements this for its durable state.
pub trait IncrementalUpdate {
    /// True when there is new uncommitted incremental state to be
    /// checkpointed.
    fn has_update(&self) -> bool;

    /// Called to checkpoint the incremental state: commits it to the full
    /// state and returns its encoding for the caller to persist.
    fn commit(&mut self) -> McResult<Vec<u8>>;

    /// Restores a previously committed increment from its encoding.
    fn recover(&mut self, increment_encoding: Vec<u8>) -> McResult<()>;
}

/// Options of the checkpoint stream.
pub struct CheckpointStreamOptions {
    /// The time to wait between successive incremental checkpoints, in
    /// milliseconds.
    pub poll_period_ms: u64,
}

impl Default for CheckpointStreamOptions {
    fn default() -> (r: Self)
        ensures
            r.poll_period_ms == 30000,
    {
        CheckpointStreamOptions { poll_period_ms: 30000 }
    }
}

} // verus!
