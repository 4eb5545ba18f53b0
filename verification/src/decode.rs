//! Reconstruction of text from token ids, delegated to the engine and
//! surfaced through the value-or-error channel.

use vstd::prelude::*;

verus! {

use crate::Registry;
use crate::engine::{decode_ok, decoded_text, tok_decode};

impl Registry {
    /// Reconstructs text from an ordered sequence of token ids, omitting
    /// special tokens when asked, by the engine's own rules. An engine-side
    /// failure comes back as an owned message; a handle that is not live is
    /// a contract violation for this call.
    pub fn decode(&self, handle: usize, ids: &[u32], skip_special_tokens: bool) -> (r: Result<
        String,
        String,
    >)
        requires
            self.is_live(handle),
        ensures
            r is Ok <==> decode_ok(self.engine_at(handle), ids@, skip_special_tokens),
            r matches Ok(s) ==> s@ == decoded_text(
                self.engine_at(handle),
                ids@,
                skip_special_tokens,
            ),
    {
        let tokenizer = match &self.slots[handle - 1] {
            Some(t) => t,
            None => { unreached() },
        };
        tok_decode(tokenizer, ids, skip_special_tokens)
    }
}

} // verus!
