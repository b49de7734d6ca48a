//! Ownership of the one live child process.
//!
//! The supervisor tracks the single backend child by its process id.  The
//! slot is filled at most once per launch and emptied exactly once on
//! shutdown; the caller keeps the matching process handle and performs the
//! kill when told to.  The caller guards the slot with its own lock, so the
//! startup and shutdown hooks never race on it.

use vstd::prelude::*;

verus! {

/// What one shutdown does to the slot: it always leaves the slot empty,
/// and it reports what the slot held before.
pub open spec fn shutdown_step(held: Option<u32>) -> (Option<u32>, Option<u32>) {
    (None, held)
}

/// Shutting down twice in a row, with no launch in between, makes the
/// second shutdown a no-op: it finds the slot already empty, reports
/// nothing to kill, and leaves the slot empty.
pub proof fn lemma_shutdown_idempotent(held: Option<u32>)
    ensures
        shutdown_step(shutdown_step(held).0).0 is None,
        shutdown_step(shutdown_step(held).0).1 is None,
{
}

/// The slot holding the id of the one supervised child.
#[derive(Debug)]
pub struct Supervisor {
    child: Option<u32>,
}

impl Supervisor {
    /// The id of the child currently held, if one is.
    pub closed spec fn held(self) -> Option<u32> {
        self.child
    }

    /// A supervisor that holds no child.
    pub fn new() -> (s: Supervisor)
        ensures
            s.held() is None,
    {
        Supervisor { child: None }
    }

    /// Whether a child is currently held.
    pub fn holding(&self) -> (b: bool)
        ensures
            b == (self.held() is Some),
    {
        match self.child {
            Some(_) => true,
            None => false,
        }
    }

    /// Records the freshly spawned child.  Only an empty slot may be
    /// filled: the one child is never silently replaced.
    pub fn attach(&mut self, child_id: u32)
        requires
            old(self).held() is None,
        ensures
            final(self).held() == Some(child_id),
    {
        self.child = Some(child_id);
    }

    /// Empties the slot and reports the child the caller must now kill,
    /// if one was held.  Never fails; on an empty slot it is a no-op.
    pub fn shutdown(&mut self) -> (r: Option<u32>)
        ensures
            final(self).held() == shutdown_step(old(self).held()).0,
            r == shutdown_step(old(self).held()).1,
    {
        let r = self.child;
        self.child = None;
        r
    }
}

} // verus!
