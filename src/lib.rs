//! Clipboard reconciliation core: a shared clipboard value with its content
//! fingerprint, and the decisions of the local watcher, the remote publisher
//! and the remote subscriber that keep it in step with the system clipboard
//! and with a replicated document.

pub mod fingerprint;
pub mod memclip;
pub mod watcher;
pub mod publisher;
pub mod subscriber;
