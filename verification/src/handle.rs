//! Publish-once discipline for the shared playback handle.
//!
//! The playback handle identifies the one active stream. It does not exist
//! until the output task starts playback; it is then written exactly once,
//! and no task ever clears it for the remainder of the run. `HandleSlot`
//! encapsulates that discipline: the slot starts empty, `publish` is the
//! only way to fill it and demands an empty slot, and nothing empties it
//! again. The handle itself is kept as the engine's plain numeric stream
//! identifier.

use vstd::prelude::*;

verus! {

/// The shared slot for the playback handle: empty until the output task
/// publishes, then holds the same handle forever.
pub struct HandleSlot {
    handle: Option<u64>,
}

impl HandleSlot {
    /// The handle the slot holds, if it was published yet.
    pub closed spec fn published(self) -> Option<u64> {
        self.handle
    }

    /// A slot that no task has written yet.
    pub fn new() -> (s: HandleSlot)
        ensures
            s.published() is None,
    {
        HandleSlot { handle: None }
    }

    /// Publish the handle. Allowed exactly once: the slot must still be
    /// empty, and afterwards it holds the published handle.
    pub fn publish(&mut self, handle: u64)
        requires
            old(self).published() is None,
        ensures
            final(self).published() == Some(handle),
    {
        self.handle = Some(handle);
    }

    /// Read the slot: the published handle, or `None` while the output task
    /// has not started playback yet.
    pub fn current(&self) -> (h: Option<u64>)
        ensures
            h == self.published(),
    {
        self.handle
    }
}

} // verus!
