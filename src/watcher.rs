//! The local watcher: one poll of the system clipboard, reconciled against the
//! shared value without echoing values that came from a peer.

use vstd::prelude::*;

use crate::fingerprint::{fingerprint, text_fingerprint};
use crate::memclip::MemClip;

verus! {

/// What a poll asks of the caller once the shared value has been updated.
pub enum WatchAction {
    /// The user copied a new text: it is now the shared value, and the
    /// publisher is to be woken.
    Publish,
    /// A peer changed the shared value since the last poll: this text is to be
    /// written to the system clipboard.
    WriteClipboard(String),
    /// Nothing to do.
    Idle,
}

/// The clipboard text changed since the last poll and differs from the shared
/// value: a genuine local copy.
pub open spec fn is_local_change(last_local: u64, local: Seq<char>, shared_hash: u64) -> bool {
    text_fingerprint(local) != last_local && text_fingerprint(local) != shared_hash
}

/// The clipboard text is unchanged since the last poll but differs from the
/// shared value: a peer's value waits to be written to the clipboard.
pub open spec fn is_remote_change(last_local: u64, local: Seq<char>, shared_hash: u64) -> bool {
    text_fingerprint(local) == last_local && text_fingerprint(local) != shared_hash
}

/// The polling state of the local watcher.
pub struct Watcher {
    /// Fingerprint of the clipboard text seen at the previous poll.
    pub last_local_fingerprint: u64,
}

impl Watcher {
    /// A watcher whose first observation of the clipboard is `initial`.
    pub fn new(initial: &str) -> (r: Watcher)
        ensures
            r.last_local_fingerprint == text_fingerprint(initial@),
    {
        Watcher { last_local_fingerprint: fingerprint(initial) }
    }

    /// Reconciles one reading `local` of the system clipboard with the shared
    /// value.
    pub fn poll(&mut self, local: String, shared: &mut MemClip) -> (r: WatchAction)
        ensures
            final(self).last_local_fingerprint == text_fingerprint(local@),
            is_local_change(old(self).last_local_fingerprint, local@, old(shared).hash) ==> {
                &&& r is Publish
                &&& final(shared).data@ == local@
                &&& final(shared).wf()
            },
            is_remote_change(old(self).last_local_fingerprint, local@, old(shared).hash) ==> {
                &&& r matches WatchAction::WriteClipboard(t) && t@ == old(shared).data@
                &&& *final(shared) == *old(shared)
            },
            !is_local_change(old(self).last_local_fingerprint, local@, old(shared).hash)
                && !is_remote_change(old(self).last_local_fingerprint, local@, old(shared).hash)
                ==> r is Idle && *final(shared) == *old(shared),
    {
        let local_hash = fingerprint(local.as_str());
        let last = self.last_local_fingerprint;
        self.last_local_fingerprint = local_hash;
        if local_hash != last && local_hash != shared.hash {
            shared.replace(local);
            WatchAction::Publish
        } else if local_hash == last && local_hash != shared.hash {
            WatchAction::WriteClipboard(shared.data.clone())
        } else {
            WatchAction::Idle
        }
    }
}

/// No echo: after the user copies `v` and a peer's text `r` is applied to the
/// shared value, the next poll (clipboard still `v`) writes `r` to the
/// clipboard when its fingerprint differs, and the poll after it, which reads
/// `r` back, sees neither a local nor a remote change.
pub proof fn lemma_no_echo(v: Seq<char>, r: Seq<char>, shared: MemClip)
    requires
        shared.wf(),
        shared.data@ == r,
    ensures
        text_fingerprint(r) != text_fingerprint(v) ==> is_remote_change(
            text_fingerprint(v),
            v,
            shared.hash,
        ),
        !is_local_change(text_fingerprint(v), r, shared.hash),
        !is_remote_change(text_fingerprint(v), r, shared.hash),
{
}

/// A clipboard that holds the shared text is never taken for a change,
/// whatever the previous poll saw.
pub proof fn lemma_synced_clipboard_is_idle(last_local: u64, shared: MemClip)
    requires
        shared.wf(),
    ensures
        !is_local_change(last_local, shared.data@, shared.hash),
        !is_remote_change(last_local, shared.data@, shared.hash),
{
}

} // verus!
