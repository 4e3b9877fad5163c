//! The staging object of a write.

use crate::native::{Call, CallView, Release};
use vstd::prelude::*;

verus! {

/// A write batch of the engine: the pairs staged in it are applied
/// together or not at all. A batch serves one write and is then destroyed.
#[derive(Clone, Copy, Debug, PartialEq, Eq)]
pub struct WriteBatch {
    /// The address of the batch; never null.
    pub handle: usize,
}

impl WriteBatch {
    /// The batch exists.
    pub open spec fn wf(self) -> bool {
        self.handle != 0
    }

    /// Takes charge of the batch that `WriteBatchCreate` has returned.
    pub fn new(handle: usize) -> (batch: WriteBatch)
        requires
            handle != 0,
        ensures
            batch == (WriteBatch { handle }),
            batch.wf(),
    {
        WriteBatch { handle }
    }

    /// The call that stages the pair in the batch. Key and value are byte
    /// strings of any content: they travel with their lengths.
    pub fn put(&self, key: Vec<u8>, value: Vec<u8>) -> (call: Call)
        ensures
            call@ == (CallView::WriteBatchPut { batch: self.handle, key: key@, value: value@ }),
    {
        Call::WriteBatchPut { batch: self.handle, key, value }
    }

    /// The release that is due when the write has returned.
    pub fn release(&self) -> (release: Release)
        ensures
            release == Release::WriteBatch(self.handle),
    {
        Release::WriteBatch(self.handle)
    }
}

} // verus!
