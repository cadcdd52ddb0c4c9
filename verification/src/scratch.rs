//! A text buffer that is lent out for the length of one call.
//!
//! Composing an identifier needs a byte string for a moment. Rather than
//! allocate one per operation, a caller keeps one `ScratchBuffer` per thread
//! and lends it to each operation in turn. The buffer is empty whenever it is
//! not lent out, so nothing of one use can be seen in the next.

use vstd::prelude::*;

verus! {

/// A reusable text buffer. Its storage is allocated by the first use and
/// kept, emptied, from then on.
pub struct ScratchBuffer {
    text: Option<Vec<u8>>,
}

impl ScratchBuffer {
    /// What the buffer holds while it is not lent out.
    pub closed spec fn view(&self) -> Seq<u8> {
        match self.text {
            Some(text) => text@,
            None => Seq::empty(),
        }
    }

    /// A buffer that is not lent out is empty.
    #[verifier::type_invariant]
    pub open spec fn clear_between_uses(&self) -> bool {
        self@.len() == 0
    }

    /// A buffer that has not been used yet; nothing is allocated.
    pub fn new() -> (scratch: ScratchBuffer)
        ensures
            scratch@.len() == 0,
    {
        ScratchBuffer { text: None }
    }

    /// Lends the buffer, empty, to `inner`, and empties it again when `inner`
    /// is done. The result is whatever `inner` made of an empty buffer.
    pub fn with_buffer<R, F: FnOnce(&mut Vec<u8>) -> R>(&mut self, inner: F) -> (r: R)
        requires
            forall|buffer: &mut Vec<u8>| buffer@.len() == 0 ==> inner.requires((buffer,)),
        ensures
            exists|buffer: &mut Vec<u8>| buffer@.len() == 0 && inner.ensures((buffer,), r),
            final(self)@.len() == 0,
    {
        proof {
            use_type_invariant(&*self);
        }
        let mut lent = ScratchBuffer { text: None };
        core::mem::swap(self, &mut lent);
        let mut text = match lent.text {
            Some(text) => text,
            None => Vec::new(),
        };
        let r = inner(&mut text);
        text.clear();
        *self = ScratchBuffer { text: Some(text) };
        r
    }
}

} // verus!
