//! The remote publisher's decisions: which shared value to push to the
//! replicated document, and what a finished push attempt changes.

use vstd::prelude::*;

use crate::memclip::MemClip;

verus! {

/// The publisher's own record of what the replicated document already holds.
pub struct Publisher {
    /// Fingerprint of the last value pushed successfully (or of the value
    /// the session started with).
    pub last_pushed_fingerprint: u64,
}

impl Publisher {
    /// A value with this fingerprint is to be pushed.
    pub open spec fn wants_push(self, fingerprint: u64) -> bool {
        fingerprint != self.last_pushed_fingerprint
    }

    /// The publisher after an attempt to push `value`.
    pub open spec fn after_push(self, value: MemClip, succeeded: bool) -> Publisher {
        if succeeded {
            Publisher { last_pushed_fingerprint: value.hash }
        } else {
            self
        }
    }

    /// A publisher for a session whose document starts out holding `initial`.
    pub fn new(initial: &MemClip) -> (r: Publisher)
        ensures
            r.last_pushed_fingerprint == initial.hash,
    {
        Publisher { last_pushed_fingerprint: initial.hash }
    }

    /// On a wakeup with `snapshot` as the shared value: the value to push, or
    /// `None` when the document already holds it (a spurious wakeup).
    pub fn next_push(&self, snapshot: &MemClip) -> (r: Option<MemClip>)
        ensures
            r is Some <==> self.wants_push(snapshot.hash),
            r matches Some(v) ==> v.hash == snapshot.hash && v.data@ == snapshot.data@,
    {
        if snapshot.hash != self.last_pushed_fingerprint {
            Some(snapshot.snapshot())
        } else {
            None
        }
    }

    /// Records the outcome of pushing `value`. A failed push changes nothing,
    /// so the next change is pushed afresh.
    pub fn record_push(&mut self, value: &MemClip, succeeded: bool)
        ensures
            *final(self) == old(self).after_push(*value, succeeded),
    {
        if succeeded {
            self.last_pushed_fingerprint = value.hash;
        }
    }
}

/// At most one push per value: once `pushed` went out successfully, no later
/// wakeup while the shared value still holds the same text asks for a push.
pub proof fn lemma_at_most_one_publish(p: Publisher, pushed: MemClip, later: MemClip)
    requires
        pushed.wf(),
        later.wf(),
        later.data@ == pushed.data@,
    ensures
        !p.after_push(pushed, true).wants_push(later.hash),
{
}

/// A failed push leaves the publisher as it was: any value that it would have
/// pushed before is still pushed on the next wakeup.
pub proof fn lemma_failed_push_retried(p: Publisher, failed: MemClip, next: MemClip)
    requires
        p.wants_push(next.hash),
    ensures
        p.after_push(failed, false).wants_push(next.hash),
{
}

} // verus!
