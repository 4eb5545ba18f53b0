//! A memory-safe boundary layer around an external tokenization engine.
//!
//! The library hands out opaque handles to loaded engine instances, marshals
//! flat configuration records into the engine's option types and back,
//! converts the engine's encodings into self-describing result buffers with
//! per-field opt-in inclusion, and defines a release protocol under which
//! every value it hands out is reclaimed exactly once.

use vstd::prelude::*;

pub mod configure;
pub mod decode;
pub mod encode;
pub mod engine;

verus! {

use tokenizers::tokenizer::Tokenizer;

/// Outcome of a call that must hand back a new handle: either a nonzero
/// handle or an owned error message, never both and never neither.
pub struct PointerOrError {
    pub value: usize,
    pub error: Option<String>,
}

/// Whether `prefix` is the first stretch of `text`.
pub open spec fn has_prefix(text: Seq<char>, prefix: Seq<char>) -> bool {
    text.len() >= prefix.len() && text.subrange(0, prefix.len() as int) == prefix
}

/// The table of loaded engine instances. A handle is one plus the index of
/// the slot that owns the instance; zero is the null handle. Releasing a
/// handle vacates its slot, so later loads never revive an old handle's
/// meaning for the slots already given out.
pub struct Registry {
    pub slots: Vec<Option<Tokenizer>>,
}

impl Registry {
    /// A handle that is currently backed by a live engine instance.
    pub open spec fn is_live(&self, handle: usize) -> bool {
        1 <= handle <= self.slots@.len() && self.slots@[handle - 1] is Some
    }

    /// The engine instance a live handle refers to.
    pub open spec fn engine_at(&self, handle: usize) -> Tokenizer {
        self.slots@[handle - 1]->Some_0
    }

    /// Every slot except the one behind `handle` kept exactly as it was.
    pub open spec fn others_unchanged(pre: Self, post: Self, handle: usize) -> bool {
        &&& post.slots@.len() == pre.slots@.len()
        &&& forall|j: int|
            0 <= j < pre.slots@.len() && j != handle - 1 ==> post.slots@[j] == pre.slots@[j]
    }

    pub fn new() -> (r: Registry)
        ensures
            r.slots@.len() == 0,
    {
        Registry { slots: Vec::new() }
    }

    /// Takes in the outcome of parsing the bytes of a serialized model
    /// definition. The parse itself happens outside the library: the
    /// engine's deserializer unwinds instead of erring on some malformed
    /// definitions, no precondition over bytes can separate those, and a
    /// verified function must always return — so the shell parses under its
    /// unwind boundary and hands the outcome in. A parsed engine fills a
    /// fresh slot, exactly as handed in, and its nonzero handle is
    /// returned; a parse failure retains nothing and comes back as the
    /// owned message, verbatim.
    pub fn from_bytes(&mut self, parsed: Result<Tokenizer, String>) -> (r: PointerOrError)
        ensures
            r.error is None <==> parsed is Ok,
            r.error is None <==> r.value != 0,
            parsed matches Err(m) ==> r.error == Some(m) && final(self).slots@ == old(self).slots@,
            parsed matches Ok(engine) ==> {
                &&& r.value == old(self).slots@.len() + 1
                &&& final(self).slots@ == old(self).slots@.push(Some(engine))
                &&& final(self).is_live(r.value)
                &&& final(self).engine_at(r.value) == engine
            },
    {
        match parsed {
            Ok(t) => {
                self.slots.push(Some(t));
                PointerOrError { value: self.slots.len(), error: None }
            },
            Err(msg) => PointerOrError { value: 0, error: Some(msg) },
        }
    }

    /// Releases the engine instance behind a handle. The null handle is a
    /// safe no-op, as is a handle whose slot is already vacant; a live
    /// handle's slot is vacated and the instance reclaimed, exactly once.
    pub fn free_tokenizer(&mut self, handle: usize)
        ensures
            !old(self).is_live(handle) ==> final(self).slots@ == old(self).slots@,
            old(self).is_live(handle) ==> final(self).slots@ == old(self).slots@.update(
                handle - 1,
                None,
            ),
            !final(self).is_live(handle),
    {
        if handle >= 1 && handle <= self.slots.len() {
            self.slots[handle - 1] = None;
        }
    }
}

/// Ownership sink for an owned message handed out by this library. Absent
/// text is a safe no-op; present text is reclaimed here, exactly once.
pub fn free_string(s: Option<String>) {
    let _ = s;
}

} // verus!
