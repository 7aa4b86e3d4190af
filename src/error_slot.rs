//! The pending-error slot that the C interface keeps for each thread.
use crate::error::{has_nul, slot_message, slot_text, CaptureError};
use vstd::prelude::*;
use vstd::utf8::encode_utf8;

verus! {

/// The C text that the slot holds for a message: the UTF-8 bytes of its slot
/// text followed by one NUL.
pub open spec fn c_text(msg: Seq<char>) -> Seq<u8> {
    encode_utf8(slot_text(msg)) + seq![0u8]
}

/// At most one pending error message, kept as NUL-terminated bytes so that
/// the host can read it in place.
pub struct ErrorSlot {
    text: Option<Vec<u8>>,
}

impl View for ErrorSlot {
    type V = Option<Seq<u8>>;

    closed spec fn view(&self) -> Option<Seq<u8>> {
        match self.text {
            Some(b) => Some(b@),
            None => None,
        }
    }
}

impl ErrorSlot {
    /// A slot with no pending message.
    pub fn new() -> (r: ErrorSlot)
        ensures
            r@ is None,
    {
        ErrorSlot { text: None }
    }

    /// Replaces the pending message with the one that describes `e`.
    pub fn record(&mut self, e: &CaptureError)
        ensures
            final(self)@ == Some(c_text(e.text())),
    {
        let msg = slot_message(e.message());
        let mut bytes = msg.as_str().as_bytes_vec();
        bytes.push(0u8);
        assert(bytes@ =~= c_text(e.text()));
        self.text = Some(bytes);
    }

    /// Hands on the value of a success and leaves the slot as it was, or
    /// records the failure and hands on `absent`.
    pub fn settle<T>(&mut self, r: Result<T, CaptureError>, absent: T) -> (v: T)
        ensures
            match r {
                Ok(x) => v == x && final(self)@ == old(self)@,
                Err(e) => v == absent && final(self)@ == Some(c_text(e.text())),
            },
    {
        match r {
            Ok(x) => x,
            Err(e) => {
                self.record(&e);
                absent
            },
        }
    }

    /// The pending message, if any.
    pub fn pending(&self) -> (r: Option<&Vec<u8>>)
        ensures
            r matches Some(b) ==> self@ == Some(b@),
            r is None <==> self@ is None,
    {
        match &self.text {
            Some(b) => Some(b),
            None => None,
        }
    }
}

/// The text in the slot is C text: it ends in its one NUL byte.
pub proof fn lemma_c_text_terminated(msg: Seq<char>)
    ensures
        c_text(msg).len() > 0,
        c_text(msg).last() == 0,
        !has_nul(c_text(msg).drop_last()),
{
    assert(c_text(msg).drop_last() =~= encode_utf8(slot_text(msg)));
    if !has_nul(encode_utf8(msg)) {
    } else {
        crate::error::lemma_fallback_clean();
    }
}

} // verus!
