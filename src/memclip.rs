//! The shared clipboard value: the last synced text and its fingerprint.

use vstd::prelude::*;
use vstd::utf8::{decode_utf8, valid_utf8};

use crate::fingerprint::{fingerprint, text_fingerprint};

verus! {

/// Why a remote payload was not applied to the shared value.
#[derive(Debug, Clone, Copy, PartialEq, Eq, Structural)]
pub enum MemClipError {
    /// The payload is not valid UTF-8 text.
    InvalidUtf8,
}

/// The last synced clipboard text together with its fingerprint.
pub struct MemClip {
    pub hash: u64,
    pub data: String,
}

impl MemClip {
    /// The fingerprint is that of the current text.
    pub open spec fn wf(&self) -> bool {
        self.hash == text_fingerprint(self.data@)
    }

    /// A shared value holding `data_string`.
    pub fn new(data_string: String) -> (r: MemClip)
        ensures
            r.data@ == data_string@,
            r.wf(),
    {
        let hash = fingerprint(data_string.as_str());
        MemClip { hash, data: data_string }
    }

    /// A copy of the text and its fingerprint.
    pub fn snapshot(&self) -> (r: MemClip)
        ensures
            r.hash == self.hash,
            r.data@ == self.data@,
    {
        MemClip { hash: self.hash, data: self.data.clone() }
    }

    /// Replaces the text, recomputing the fingerprint, and returns the
    /// fingerprint that was current before.
    pub fn replace(&mut self, new_content: String) -> (prev: u64)
        ensures
            prev == old(self).hash,
            final(self).data@ == new_content@,
            final(self).wf(),
    {
        let prev = self.hash;
        *self = MemClip::new(new_content);
        prev
    }
}

/// Relies on String::from_utf8: it succeeds exactly when the bytes are valid
/// UTF-8, and the text then holds the characters they encode.
#[verifier::external_body]
fn string_from_utf8(bytes: Vec<u8>) -> (r: Option<String>)
    ensures
        r is Some <==> valid_utf8(bytes@),
        r matches Some(s) ==> s@ == decode_utf8(bytes@),
{
    String::from_utf8(bytes).ok()
}

/// Sets the shared value from a remote payload. A payload that is not UTF-8
/// text is refused and leaves the value as it was.
pub fn set_bytes(bytes: Vec<u8>, memclip: &mut MemClip) -> (r: Result<(), MemClipError>)
    ensures
        valid_utf8(bytes@) ==> r is Ok && final(memclip).data@ == decode_utf8(bytes@)
            && final(memclip).wf(),
        !valid_utf8(bytes@) ==> r == Err::<(), MemClipError>(MemClipError::InvalidUtf8)
            && *final(memclip) == *old(memclip),
{
    match string_from_utf8(bytes) {
        Some(s) => {
            memclip.replace(s);
            Ok(())
        },
        None => Err(MemClipError::InvalidUtf8),
    }
}

} // verus!
