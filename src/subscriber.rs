//! The remote subscriber: which entries of the replicated document's event
//! stream lead to fetching a payload for the shared value.

use vstd::prelude::*;

verus! {

/// Entries of this many bytes or more are ignored.
pub const MAX_CONTENT_LEN: u64 = 72351744;

/// The content hash of a document entry, as four 64-bit words.
#[derive(Debug, Clone, Copy, PartialEq, Eq, Structural)]
pub struct ContentId(pub u64, pub u64, pub u64, pub u64);

/// How much of an entry's content is stored locally.
#[derive(Debug, Clone, Copy, PartialEq, Eq, Structural)]
pub enum ContentStatus {
    Complete,
    Incomplete,
    Missing,
}

/// An event of the replicated document's live stream.
pub enum RemoteEvent {
    /// A peer inserted an entry.
    InsertRemote { key: Vec<u8>, content_len: u64, content_id: ContentId, status: ContentStatus },
    /// The content with this hash is now stored locally.
    ContentReady { content_id: ContentId },
    /// Any other event.
    Other,
}

/// What the caller is to do after an event.
#[derive(Debug, Clone, Copy, PartialEq, Eq, Structural)]
pub enum SubscriberAction {
    /// Fetch the payload with this hash and apply it to the shared value.
    Fetch(ContentId),
    /// Nothing.
    Ignore,
}

/// The key under which the clipboard text is stored: "memclip".
pub open spec fn tracked_key() -> Seq<u8> {
    seq![109u8, 101u8, 109u8, 99u8, 108u8, 105u8, 112u8]
}

/// Whether `key` is the tracked key.
pub fn is_tracked_key(key: &[u8]) -> (r: bool)
    ensures
        r == (key@ == tracked_key()),
{
    let r = key.len() == 7 && key[0] == 109u8 && key[1] == 101u8 && key[2] == 109u8 && key[3]
        == 99u8 && key[4] == 108u8 && key[5] == 105u8 && key[6] == 112u8;
    proof {
        if r {
            assert(key@ =~= tracked_key());
        }
        if key@ == tracked_key() {
            assert(key@[0] == 109u8 && key@[6] == 112u8);
        }
    }
    r
}

/// The subscriber's state: the content it waits for, if any.
pub struct Subscriber {
    pub awaited: Option<ContentId>,
}

/// Whether an inserted entry is one that the subscriber takes up.
pub open spec fn is_accepted_entry(key: Seq<u8>, content_len: u64) -> bool {
    key == tracked_key() && content_len < MAX_CONTENT_LEN
}

impl Subscriber {
    /// The state and action after `event`.
    pub open spec fn step(self, event: RemoteEvent) -> (Subscriber, SubscriberAction) {
        match event {
            RemoteEvent::InsertRemote { key, content_len, content_id, status } => {
                if !is_accepted_entry(key@, content_len) {
                    (self, SubscriberAction::Ignore)
                } else if status == ContentStatus::Complete {
                    (self, SubscriberAction::Fetch(content_id))
                } else {
                    (Subscriber { awaited: Some(content_id) }, SubscriberAction::Ignore)
                }
            },
            RemoteEvent::ContentReady { content_id } => {
                if self.awaited == Some(content_id) {
                    (self, SubscriberAction::Fetch(content_id))
                } else {
                    (self, SubscriberAction::Ignore)
                }
            },
            RemoteEvent::Other => (self, SubscriberAction::Ignore),
        }
    }

    /// A subscriber that waits for nothing.
    pub fn new() -> (r: Subscriber)
        ensures
            r.awaited is None,
    {
        Subscriber { awaited: None }
    }

    /// Takes in one event of the stream.
    pub fn on_event(&mut self, event: &RemoteEvent) -> (r: SubscriberAction)
        ensures
            (*final(self), r) == old(self).step(*event),
    {
        match event {
            RemoteEvent::InsertRemote { key, content_len, content_id, status } => {
                if !(is_tracked_key(key.as_slice()) && *content_len < MAX_CONTENT_LEN) {
                    SubscriberAction::Ignore
                } else {
                    match status {
                        ContentStatus::Complete => SubscriberAction::Fetch(*content_id),
                        _ => {
                            self.awaited = Some(*content_id);
                            SubscriberAction::Ignore
                        },
                    }
                }
            },
            RemoteEvent::ContentReady { content_id } => {
                match self.awaited {
                    Some(h) if h == *content_id => SubscriberAction::Fetch(*content_id),
                    _ => SubscriberAction::Ignore,
                }
            },
            RemoteEvent::Other => SubscriberAction::Ignore,
        }
    }
}

/// `event` announces the content `id` in an entry that the subscriber takes up.
pub open spec fn announces(event: RemoteEvent, id: ContentId) -> bool {
    match event {
        RemoteEvent::InsertRemote { key, content_len, content_id, .. } => is_accepted_entry(
            key@,
            content_len,
        ) && content_id == id,
        _ => false,
    }
}

/// Some event of `events` announces `id` in an entry that the subscriber takes up.
pub open spec fn announced_in(events: Seq<RemoteEvent>, id: ContentId) -> bool {
    exists|i: int| 0 <= i < events.len() && announces(#[trigger] events[i], id)
}

impl Subscriber {
    /// The state after taking in `events` in order.
    pub open spec fn run(self, events: Seq<RemoteEvent>) -> Subscriber
        decreases events.len(),
    {
        if events.len() == 0 {
            self
        } else {
            self.run(events.drop_last()).step(events.last()).0
        }
    }
}

/// An entry at or above the size ceiling, complete or not, is ignored and
/// leaves the state as it was.
pub proof fn lemma_oversize_entry_ignored(s: Subscriber, event: RemoteEvent)
    requires
        event matches RemoteEvent::InsertRemote { content_len, .. } && content_len
            >= MAX_CONTENT_LEN,
    ensures
        s.step(event) == (s, SubscriberAction::Ignore),
{
}

/// What a fresh subscriber waits for was announced in an accepted entry.
pub proof fn lemma_awaited_was_announced(s: Subscriber, events: Seq<RemoteEvent>)
    requires
        s.awaited is None,
    ensures
        s.run(events).awaited matches Some(id) ==> announced_in(events, id),
    decreases events.len(),
{
    if events.len() > 0 {
        let prefix = events.drop_last();
        lemma_awaited_was_announced(s, prefix);
        let prev = s.run(prefix);
        if let Some(id) = s.run(events).awaited {
            if prev.awaited == Some(id) && announced_in(prefix, id) {
                let i = choose|i: int| 0 <= i < prefix.len() && announces(#[trigger] prefix[i], id);
                assert(events[i] == prefix[i]);
            } else {
                assert(announces(events[events.len() - 1], id));
            }
        }
    }
}

/// Size ceiling: from a fresh start, whatever the events, the subscriber only
/// ever asks to fetch content that a tracked entry under the ceiling announced,
/// so a larger entry never reaches the shared value.
pub proof fn lemma_fetch_only_announced(s: Subscriber, events: Seq<RemoteEvent>, event: RemoteEvent)
    requires
        s.awaited is None,
    ensures
        s.run(events).step(event).1 matches SubscriberAction::Fetch(id) ==> announced_in(
            events.push(event),
            id,
        ),
{
    lemma_awaited_was_announced(s, events);
    let all = events.push(event);
    if let SubscriberAction::Fetch(id) = s.run(events).step(event).1 {
        if announced_in(events, id) {
            let i = choose|i: int| 0 <= i < events.len() && announces(#[trigger] events[i], id);
            assert(all[i] == events[i]);
        } else {
            assert(all[events.len() as int] == event);
        }
    }
}

} // verus!
