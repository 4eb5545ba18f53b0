//! Result marshaling: conversion of the engine's encodings into flat,
//! self-describing result buffers with per-field opt-in inclusion, batch
//! orchestration across many inputs, and the release protocol for
//! everything those buffers own.

use vstd::prelude::*;

verus! {

use tokenizers::tokenizer::Tokenizer;
use crate::Registry;
use crate::free_string;
use crate::has_prefix;
use crate::engine::{
    concat_str, enc_attention_mask, enc_get_attention_mask, enc_get_ids, enc_get_offsets,
    enc_get_special_tokens_mask, enc_get_tokens, enc_get_type_ids, enc_ids, enc_offsets,
    enc_special_tokens_mask, enc_tokens, enc_type_ids, enc_wf, tok_added_tokens, tok_encode,
    tok_encode_batch, tok_encode_batch_char_offsets, tok_encode_char_offsets, tok_get_truncation,
    truncation_usable,
};

/// Which pieces of an encoding the caller asked to receive. Only the
/// requested fields of a `Buffer` are filled; the rest stay absent.
pub struct EncodeParams {
    pub add_special_tokens: bool,
    pub return_tokens: bool,
    pub return_type_ids: bool,
    pub return_special_tokens_mask: bool,
    pub return_attention_mask: bool,
    pub return_offsets: bool,
    /// Report offsets in characters instead of bytes; the engine is entered
    /// through a distinct entry point for this mode.
    pub with_offsets_char_mode: bool,
}

/// Where a token came from in the input, as a half-open range. The boundary
/// limits offsets to 32 bits.
pub struct Offset {
    pub start: u32,
    pub end: u32,
}

/// The flat result of encoding one input. The ids and the length are always
/// present; every other field is either absent — it was not requested, and
/// there is nothing to release — or holds exactly `len` elements.
pub struct Buffer {
    pub ids: Vec<u32>,
    pub type_ids: Option<Vec<u32>>,
    pub special_tokens_mask: Option<Vec<u32>>,
    pub attention_mask: Option<Vec<u32>>,
    pub tokens: Option<Vec<String>>,
    pub offsets: Option<Vec<Offset>>,
    pub len: u32,
}

/// The result of encoding one or more inputs: either an owned error message
/// and no buffers, or one buffer per input and no error.
pub struct EncodeResults {
    pub len: u32,
    pub encoded: Vec<Buffer>,
    pub error: Option<String>,
}

/// An owned error message built from the given text. The boundary reports
/// every failure as a single human-readable description.
pub fn err(message: &str) -> (r: String)
    ensures
        r@ == message@,
{
    message.to_owned()
}

/// Either an error and no buffers, or no error and exactly `len` buffers:
/// results are all-or-nothing.
pub open spec fn results_wf(r: EncodeResults) -> bool {
    &&& r.error is Some ==> r.len == 0 && r.encoded@.len() == 0
    &&& r.error is None ==> r.len as int == r.encoded@.len()
}

/// Every present field of the buffer holds exactly `len` elements: the one
/// recorded length is the source of truth for every field.
pub open spec fn buffer_wf(b: Buffer) -> bool {
    &&& b.ids@.len() == b.len as int
    &&& (b.type_ids matches Some(v) ==> v@.len() == b.len as int)
    &&& (b.special_tokens_mask matches Some(v) ==> v@.len() == b.len as int)
    &&& (b.attention_mask matches Some(v) ==> v@.len() == b.len as int)
    &&& (b.tokens matches Some(v) ==> v@.len() == b.len as int)
    &&& (b.offsets matches Some(v) ==> v@.len() == b.len as int)
}

/// A field is present in the buffer exactly when the options requested it;
/// what was not requested is the absent marker, never an empty allocation.
pub open spec fn buffer_matches_options(b: Buffer, options: EncodeParams) -> bool {
    &&& b.type_ids is Some <==> options.return_type_ids
    &&& b.special_tokens_mask is Some <==> options.return_special_tokens_mask
    &&& b.attention_mask is Some <==> options.return_attention_mask
    &&& b.tokens is Some <==> options.return_tokens
    &&& b.offsets is Some <==> options.return_offsets
}

/// An engine offset pair narrowed to the boundary's 32-bit offsets.
pub open spec fn offset_of_pair(p: (usize, usize)) -> Offset {
    Offset { start: p.0 as u32, end: p.1 as u32 }
}

/// The messages the truncation-policy guard reports, one per way a policy
/// can be unusable.
pub open spec fn unusable_truncation_message(m: Seq<char>) -> bool {
    ||| m == "truncation max_length smaller than the added special tokens"@
    ||| m == "truncation stride must be smaller than its effective max_length"@
    ||| m == "truncation stride must be smaller than its max_length"@
}

/// The messages an encode path can report for a live handle under a usable
/// truncation policy: an engine-side failure carrying its context prefix,
/// or an encoding too long for the buffer's 32-bit length field.
pub open spec fn encode_failure_message(m: Seq<char>) -> bool {
    ||| has_prefix(m, "encoding failed: "@)
    ||| m == "encoding holds more tokens than a result buffer can describe"@
}

/// The buffer is the flat image of some well-formed encoding under the
/// given options; which one the engine produced is the engine's business.
pub open spec fn buffer_from_some_encoding(b: Buffer, options: EncodeParams) -> bool {
    exists|e: tokenizers::Encoding| enc_wf(e) && #[trigger] buffer_models(b, e, options)
}

/// The buffer is the flat image of the encoding under the given options:
/// ids and length always, every requested field copied in order, every
/// other field absent.
pub open spec fn buffer_models(b: Buffer, e: tokenizers::Encoding, options: EncodeParams) -> bool {
    &&& b.ids@ == enc_ids(e)
    &&& b.len as int == enc_ids(e).len()
    &&& buffer_matches_options(b, options)
    &&& (b.type_ids matches Some(v) ==> v@ == enc_type_ids(e))
    &&& (b.special_tokens_mask matches Some(v) ==> v@ == enc_special_tokens_mask(e))
    &&& (b.attention_mask matches Some(v) ==> v@ == enc_attention_mask(e))
    &&& (b.tokens matches Some(v) ==> v.deep_view() == enc_tokens(e))
    &&& (b.offsets matches Some(v) ==> v@.len() == enc_offsets(e).len() && forall|i: int|
        0 <= i < v@.len() ==> v@[i] == offset_of_pair(#[trigger] enc_offsets(e)[i]))
}

/// Each buffer is the flat image of the encoding at its own index: one
/// batch, index-aligned, no reordering.
pub open spec fn buffers_model_encodings(
    bufs: Seq<Buffer>,
    encs: Seq<tokenizers::Encoding>,
    options: EncodeParams,
) -> bool {
    &&& encs.len() == bufs.len()
    &&& forall|i: int|
        0 <= i < bufs.len() ==> enc_wf(#[trigger] encs[i]) && buffer_models(
            bufs[i],
            encs[i],
            options,
        )
}

/// The buffers are, index for index, the flat images of one sequence of
/// well-formed encodings — the batch the engine produced, in input order.
pub open spec fn buffers_from_one_batch(bufs: Seq<Buffer>, options: EncodeParams) -> bool {
    exists|encs: Seq<tokenizers::Encoding>| #[trigger] buffers_model_encodings(
        bufs,
        encs,
        options,
    )
}

/// Builds one result buffer from one encoding, copying exactly the
/// requested fields. Fails only when the encoding holds more tokens than
/// the buffer's 32-bit length field can carry.
pub fn encode_process(encoding: &tokenizers::Encoding, options: &EncodeParams) -> (r: Result<
    Buffer,
    String,
>)
    requires
        enc_wf(*encoding),
    ensures
        r matches Ok(b) ==> buffer_models(b, *encoding, *options) && buffer_wf(b),
        r is Err <==> enc_ids(*encoding).len() > u32::MAX,
        r matches Err(m) ==> m@ == "encoding holds more tokens than a result buffer can describe"@,
{
    let ids = enc_get_ids(encoding);
    if ids.len() > u32::MAX as usize {
        return Err(err("encoding holds more tokens than a result buffer can describe"));
    }
    let len: u32 = ids.len() as u32;

    let tokens: Option<Vec<String>> = if options.return_tokens {
        Some(enc_get_tokens(encoding))
    } else {
        None
    };

    let type_ids: Option<Vec<u32>> = if options.return_type_ids {
        Some(enc_get_type_ids(encoding))
    } else {
        None
    };

    let special_tokens_mask: Option<Vec<u32>> = if options.return_special_tokens_mask {
        Some(enc_get_special_tokens_mask(encoding))
    } else {
        None
    };

    let attention_mask: Option<Vec<u32>> = if options.return_attention_mask {
        Some(enc_get_attention_mask(encoding))
    } else {
        None
    };

    let offsets: Option<Vec<Offset>> = if options.return_offsets {
        let raw = enc_get_offsets(encoding);
        let mut narrowed: Vec<Offset> = Vec::new();
        let mut i: usize = 0;
        while i < raw.len()
            invariant
                i <= raw@.len(),
                raw@ == enc_offsets(*encoding),
                narrowed@.len() == i,
                forall|j: int| 0 <= j < i ==> narrowed@[j] == offset_of_pair(#[trigger] raw@[j]),
            decreases raw@.len() - i,
        {
            let pair = raw[i];
            narrowed.push(
                Offset {
                    start: #[verifier::truncate] (pair.0 as u32),
                    end: #[verifier::truncate] (pair.1 as u32),
                },
            );
            i = i + 1;
        }
        Some(narrowed)
    } else {
        None
    };

    Ok(Buffer { ids, type_ids, special_tokens_mask, attention_mask, tokens, offsets, len })
}

/// The message every encoding entry point reports for a handle that is not
/// live: one text for the null or out-of-range handle, another for a slot
/// already vacated.
pub open spec fn dead_handle_message(registry: Registry, handle: usize) -> Seq<char> {
    if handle == 0 || handle > registry.slots@.len() {
        "tokenizer passed is null"@
    } else {
        "invalid reference to Tokenizer"@
    }
}

/// Looks a handle up in the table, as every encoding entry point does:
/// either a borrow of the live engine instance behind it, or an owned
/// description of why the handle is unusable.
pub fn convert_to_tokenizer_ref(registry: &Registry, handle: usize) -> (r: Result<
    &Tokenizer,
    String,
>)
    ensures
        r is Ok <==> registry.is_live(handle),
        r matches Ok(t) ==> *t == registry.engine_at(handle),
        r matches Err(m) ==> m@ == dead_handle_message(*registry, handle),
{
    if handle == 0 || handle > registry.slots.len() {
        return Err(err("tokenizer passed is null"));
    }
    match &registry.slots[handle - 1] {
        Some(t) => Ok(t),
        None => Err(err("invalid reference to Tokenizer")),
    }
}

/// Converts a fallible marshaling outcome into the flat result the host
/// reads: the value unchanged on success, or zero buffers and the owned
/// message on failure.
pub fn result_to_encode_results(r: Result<EncodeResults, String>) -> (out: EncodeResults)
    ensures
        r matches Ok(res) ==> out == res,
        r matches Err(msg) ==> out.len == 0 && out.encoded@.len() == 0 && out.error == Some(msg),
{
    match r {
        Ok(encode_results) => encode_results,
        Err(message) => EncodeResults { len: 0, encoded: Vec::new(), error: Some(message) },
    }
}

/// Builds one buffer per encoding, in order. All-or-nothing: if any
/// encoding cannot be represented, the buffers already built are released
/// and only the failure comes back.
fn buffers_from_encodings(encodings: &Vec<tokenizers::Encoding>, options: &EncodeParams) -> (r:
    Result<Vec<Buffer>, String>)
    requires
        forall|i: int| 0 <= i < encodings@.len() ==> enc_wf(#[trigger] encodings@[i]),
    ensures
        r matches Ok(bufs) ==> bufs@.len() == encodings@.len() && forall|i: int|
            0 <= i < bufs@.len() ==> buffer_models(#[trigger] bufs@[i], encodings@[i], *options),
        r is Err <==> exists|i: int|
            0 <= i < encodings@.len() && enc_ids(#[trigger] encodings@[i]).len() > u32::MAX,
        r matches Err(m) ==> m@ == "encoding holds more tokens than a result buffer can describe"@,
{
    let mut buffers: Vec<Buffer> = Vec::new();
    let mut i: usize = 0;
    while i < encodings.len()
        invariant
            i <= encodings@.len(),
            buffers@.len() == i,
            forall|j: int| 0 <= j < encodings@.len() ==> enc_wf(#[trigger] encodings@[j]),
            forall|j: int|
                0 <= j < i ==> buffer_models(#[trigger] buffers@[j], encodings@[j], *options),
            forall|j: int| 0 <= j < i ==> enc_ids(#[trigger] encodings@[j]).len() <= u32::MAX,
        decreases encodings@.len() - i,
    {
        match encode_process(&encodings[i], options) {
            Ok(b) => buffers.push(b),
            Err(message) => {
                return Err(message);
            },
        }
        i = i + 1;
    }
    Ok(buffers)
}

/// The engine aborts when asked to encode under a truncation policy whose
/// stride reaches the positive maximum length it truncates against — the
/// stored maximum, less the post-processor's added tokens when special
/// tokens are requested and some are added (a difference that must not go
/// below zero either). Its configuration call accepts such policies, so
/// the boundary refuses to enter the engine under one and reports it
/// through the error channel instead.
fn ensure_truncation_usable(tokenizer: &Tokenizer, add_special_tokens: bool) -> (r: Result<
    (),
    String,
>)
    ensures
        r is Ok <==> truncation_usable(*tokenizer, add_special_tokens),
        r matches Err(m) ==> unusable_truncation_message(m@),
{
    match tok_get_truncation(tokenizer) {
        Some(c) => {
            let added = tok_added_tokens(tokenizer);
            if add_special_tokens && added > 0 {
                if c.max_length < added {
                    Err(err("truncation max_length smaller than the added special tokens"))
                } else if c.max_length - added > 0 && c.stride >= c.max_length - added {
                    Err(err("truncation stride must be smaller than its effective max_length"))
                } else {
                    Ok(())
                }
            } else {
                if c.max_length > 0 && c.stride >= c.max_length {
                    Err(err("truncation stride must be smaller than its max_length"))
                } else {
                    Ok(())
                }
            }
        },
        None => Ok(()),
    }
}

impl Registry {
    /// Encodes one text. On success the result carries exactly one buffer,
    /// holding the engine's output for this text under the given options;
    /// on any failure — an unusable handle, an engine-side failure, or an
    /// unrepresentable encoding — it carries only an owned message.
    pub fn encode(&self, handle: usize, message: &str, options: &EncodeParams) -> (r:
        EncodeResults)
        ensures
            results_wf(r),
            !self.is_live(handle) ==> (r.error matches Some(m) && m@ == dead_handle_message(
                *self,
                handle,
            )),
            self.is_live(handle) && !truncation_usable(
                self.engine_at(handle),
                options.add_special_tokens,
            ) ==> (r.error matches Some(m) && unusable_truncation_message(m@)),
            self.is_live(handle) && truncation_usable(
                self.engine_at(handle),
                options.add_special_tokens,
            ) ==> (r.error matches Some(m) ==> encode_failure_message(m@)),
            r.error is None ==> {
                &&& r.len == 1
                &&& r.encoded@.len() == 1
                &&& buffer_wf(r.encoded@[0])
                &&& buffer_matches_options(r.encoded@[0], *options)
                &&& buffer_from_some_encoding(r.encoded@[0], *options)
            },
    {
        result_to_encode_results(self.encode_impl(handle, message, options))
    }

    fn encode_impl(&self, handle: usize, message: &str, options: &EncodeParams) -> (r: Result<
        EncodeResults,
        String,
    >)
        ensures
            r is Ok ==> self.is_live(handle),
            !self.is_live(handle) ==> (r matches Err(m) && m@ == dead_handle_message(
                *self,
                handle,
            )),
            self.is_live(handle) && !truncation_usable(
                self.engine_at(handle),
                options.add_special_tokens,
            ) ==> (r matches Err(m) && unusable_truncation_message(m@)),
            self.is_live(handle) && truncation_usable(
                self.engine_at(handle),
                options.add_special_tokens,
            ) ==> (r matches Err(m) ==> encode_failure_message(m@)),
            r matches Ok(res) ==> {
                &&& res.error is None
                &&& res.len == 1
                &&& res.encoded@.len() == 1
                &&& buffer_wf(res.encoded@[0])
                &&& buffer_matches_options(res.encoded@[0], *options)
                &&& buffer_from_some_encoding(res.encoded@[0], *options)
            },
    {
        let tokenizer = match convert_to_tokenizer_ref(self, handle) {
            Ok(t) => t,
            Err(message) => {
                return Err(message);
            },
        };
        if let Err(message) = ensure_truncation_usable(tokenizer, options.add_special_tokens) {
            return Err(message);
        }
        let encoding_res = if options.with_offsets_char_mode {
            tok_encode_char_offsets(tokenizer, message, options.add_special_tokens)
        } else {
            tok_encode(tokenizer, message, options.add_special_tokens)
        };
        let encoding = match encoding_res {
            Ok(e) => e,
            Err(message) => {
                let full = concat_str("encoding failed: ", message.as_str());
                proof {
                    assert(full@.subrange(0, "encoding failed: "@.len() as int)
                        =~= "encoding failed: "@);
                }
                return Err(full);
            },
        };
        let buffer = match encode_process(&encoding, options) {
            Ok(b) => b,
            Err(message) => {
                return Err(message);
            },
        };
        let mut encoded: Vec<Buffer> = Vec::new();
        encoded.push(buffer);
        proof {
            assert(enc_wf(encoding) && buffer_models(encoded@[0], encoding, *options));
        }
        Ok(EncodeResults { len: 1, encoded, error: None })
    }

    /// Encodes a batch of texts; the count is authoritative and must match
    /// the sequence handed in. On success the result carries exactly one
    /// buffer per input, in input order; on any failure it carries only an
    /// owned message and no buffers — never a partial batch.
    pub fn encode_batch(
        &self,
        handle: usize,
        num_messages: u32,
        messages: &Vec<String>,
        options: &EncodeParams,
    ) -> (r: EncodeResults)
        requires
            messages@.len() == num_messages,
        ensures
            results_wf(r),
            !self.is_live(handle) ==> (r.error matches Some(m) && m@ == dead_handle_message(
                *self,
                handle,
            )),
            self.is_live(handle) && !truncation_usable(
                self.engine_at(handle),
                options.add_special_tokens,
            ) ==> (r.error matches Some(m) && unusable_truncation_message(m@)),
            self.is_live(handle) && truncation_usable(
                self.engine_at(handle),
                options.add_special_tokens,
            ) ==> (r.error matches Some(m) ==> encode_failure_message(m@)),
            r.error is None ==> {
                &&& r.len == num_messages
                &&& r.encoded@.len() == num_messages
                &&& forall|i: int|
                    0 <= i < r.encoded@.len() ==> buffer_wf(#[trigger] r.encoded@[i])
                        && buffer_matches_options(r.encoded@[i], *options)
                &&& forall|i: int|
                    0 <= i < r.encoded@.len() ==> buffer_from_some_encoding(
                        #[trigger] r.encoded@[i],
                        *options,
                    )
                &&& buffers_from_one_batch(r.encoded@, *options)
            },
    {
        result_to_encode_results(self.encode_batch_impl(handle, num_messages, messages, options))
    }

    fn encode_batch_impl(
        &self,
        handle: usize,
        num_messages: u32,
        messages: &Vec<String>,
        options: &EncodeParams,
    ) -> (r: Result<EncodeResults, String>)
        requires
            messages@.len() == num_messages,
        ensures
            r is Ok ==> self.is_live(handle),
            !self.is_live(handle) ==> (r matches Err(m) && m@ == dead_handle_message(
                *self,
                handle,
            )),
            self.is_live(handle) && !truncation_usable(
                self.engine_at(handle),
                options.add_special_tokens,
            ) ==> (r matches Err(m) && unusable_truncation_message(m@)),
            self.is_live(handle) && truncation_usable(
                self.engine_at(handle),
                options.add_special_tokens,
            ) ==> (r matches Err(m) ==> encode_failure_message(m@)),
            r matches Ok(res) ==> {
                &&& res.error is None
                &&& res.len == num_messages
                &&& res.encoded@.len() == num_messages
                &&& forall|i: int|
                    0 <= i < res.encoded@.len() ==> buffer_wf(#[trigger] res.encoded@[i])
                        && buffer_matches_options(res.encoded@[i], *options)
                &&& forall|i: int|
                    0 <= i < res.encoded@.len() ==> buffer_from_some_encoding(
                        #[trigger] res.encoded@[i],
                        *options,
                    )
                &&& buffers_from_one_batch(res.encoded@, *options)
            },
    {
        let tokenizer = match convert_to_tokenizer_ref(self, handle) {
            Ok(t) => t,
            Err(message) => {
                return Err(message);
            },
        };
        if let Err(message) = ensure_truncation_usable(tokenizer, options.add_special_tokens) {
            return Err(message);
        }
        let encoding_res = if options.with_offsets_char_mode {
            tok_encode_batch_char_offsets(tokenizer, messages, options.add_special_tokens)
        } else {
            tok_encode_batch(tokenizer, messages, options.add_special_tokens)
        };
        let encodings = match encoding_res {
            Ok(v) => v,
            Err(message) => {
                let full = concat_str("encoding failed: ", message.as_str());
                proof {
                    assert(full@.subrange(0, "encoding failed: "@.len() as int)
                        =~= "encoding failed: "@);
                }
                return Err(full);
            },
        };
        let buffers = match buffers_from_encodings(&encodings, options) {
            Ok(b) => b,
            Err(message) => {
                return Err(message);
            },
        };
        proof {
            assert forall|i: int|
                0 <= i < buffers@.len() implies buffer_from_some_encoding(
                #[trigger] buffers@[i],
                *options,
            ) by {
                assert(enc_wf(encodings@[i]) && buffer_models(buffers@[i], encodings@[i], *options));
            }
            assert(buffers_model_encodings(buffers@, encodings@, *options));
        }
        Ok(EncodeResults { len: num_messages, encoded: buffers, error: None })
    }
}

/// Absence discipline: a buffer built with every `return_*` option off has
/// every optional field equal to the absent marker — never an empty but
/// allocated value — while its ids and length are populated regardless.
pub proof fn all_options_off_leaves_fields_absent(b: Buffer, options: EncodeParams)
    requires
        buffer_matches_options(b, options),
        !options.return_tokens,
        !options.return_type_ids,
        !options.return_special_tokens_mask,
        !options.return_attention_mask,
        !options.return_offsets,
    ensures
        b.type_ids is None,
        b.special_tokens_mask is None,
        b.attention_mask is None,
        b.tokens is None,
        b.offsets is None,
{
}

/// Batch atomicity: a result that carries an error carries no buffers at
/// all — never a partial batch beside the error.
pub proof fn failed_results_carry_no_buffers(r: EncodeResults)
    requires
        results_wf(r),
        r.error is Some,
    ensures
        r.len == 0,
        r.encoded@.len() == 0,
{
}

/// Releases everything one buffer owns: each present field's storage is
/// reclaimed — every token text individually — and absent fields have
/// nothing to free. Safe exactly once per buffer.
fn free_buffer(buf: Buffer) {
    let _ = buf;
}

/// Releases a whole result: the error message if present, then every
/// contained buffer. Safe exactly once per result, whatever mixture of
/// error and buffers it carries.
pub fn free_encode_results(results: EncodeResults) {
    let EncodeResults { len: _, encoded, error } = results;
    free_string(error);
    let mut encoded = encoded;
    while encoded.len() > 0
        decreases encoded@.len(),
    {
        match encoded.pop() {
            Some(buffer) => free_buffer(buffer),
            None => (),
        }
    }
}

} // verus!
