//! Trusted boundary to the external tokenization engine.
//!
//! Everything the library knows about the engine is stated here, as contracts
//! on thin wrappers around the engine's entry points. The wrappers convert
//! between the engine's types and plain values; nothing else in the crate
//! calls the engine directly.

use vstd::prelude::*;

verus! {

use tokenizers::tokenizer as tk;
use tokenizers::tokenizer::Tokenizer;
use crate::configure::{
    PadSide, PadStrategy, PaddingConfig, TruncateSide, TruncateStrategy, TruncationConfig,
    pad_model, trunc_model,
};

#[verifier::external_type_specification]
#[verifier::external_body]
pub struct ExTokenizer(tokenizers::tokenizer::Tokenizer);

/// The flat projection of the engine's truncation policy, if one is set:
/// (direction code, strategy code, max length, stride), with direction
/// encoded 0 = left / 1 = right and strategy 0 = longest-first /
/// 1 = only-first / 2 = only-second.
pub uninterp spec fn engine_truncation(t: Tokenizer) -> Option<(u8, u8, usize, usize)>;

/// The flat projection of the engine's padding policy, if one is set:
/// (fixed?, fixed length, direction code, multiple-of, pad id, pad type id,
/// pad token text), with direction encoded 0 = left / 1 = right.
pub uninterp spec fn engine_padding(t: Tokenizer) -> Option<
    (bool, usize, u8, Option<usize>, u32, u32, Seq<char>),
>;

/// The number of special tokens the engine's post-processor adds around a
/// single sequence.
pub uninterp spec fn engine_added_tokens(t: Tokenizer) -> usize;

/// The size of the engine's vocabulary, with or without the added tokens.
pub uninterp spec fn engine_vocab_size(t: Tokenizer, with_added_tokens: bool) -> usize;

/// Relies on `TokenizerImpl::get_vocab_size` (tokenizers): counts the
/// model's vocabulary, plus the non-overlapping added tokens when asked; a
/// pure function of the engine's state.
#[verifier::external_body]
pub(crate) fn tok_vocab_size(t: &Tokenizer, with_added_tokens: bool) -> (r: usize)
    ensures
        r == engine_vocab_size(*t, with_added_tokens),
{
    t.get_vocab_size(with_added_tokens)
}

/// Relies on `TokenizerImpl::get_post_processor` and
/// `PostProcessor::added_tokens` (tokenizers): how many special tokens the
/// post-processor adds around a single sequence, zero when none is set; a
/// pure function of the engine's state.
#[verifier::external_body]
pub(crate) fn tok_added_tokens(t: &Tokenizer) -> (r: usize)
    ensures
        r == engine_added_tokens(*t),
{
    match t.get_post_processor() {
        Some(p) => tokenizers::PostProcessor::added_tokens(p, false),
        None => 0,
    }
}

/// Relies on `TokenizerImpl::with_truncation` (tokenizers): replaces the
/// stored truncation policy with the given one, or clears it. With a policy
/// it first subtracts the post-processor's added tokens from `max_length`
/// (whence the precondition: the subtraction must not go below zero) and
/// fails — leaving the prior policy untouched — exactly when the difference
/// is smaller than `stride`. The padding policy, the post-processor and the
/// vocabulary are not touched.
#[verifier::external_body]
pub(crate) fn tok_with_truncation(t: &mut Tokenizer, config: Option<&TruncationConfig>) -> (r:
    Result<(), String>)
    requires
        config matches Some(c) ==> c.max_length >= engine_added_tokens(*old(t)),
    ensures
        config is None ==> r is Ok && engine_truncation(*final(t)) is None,
        config matches Some(c) ==> {
            &&& r is Ok <==> c.max_length - engine_added_tokens(*old(t)) >= c.stride
            &&& r is Ok ==> engine_truncation(*final(t)) == Some(trunc_model(*c))
            &&& r is Err ==> engine_truncation(*final(t)) == engine_truncation(*old(t))
        },
        engine_padding(*final(t)) == engine_padding(*old(t)),
        engine_added_tokens(*final(t)) == engine_added_tokens(*old(t)),
        forall|b: bool| #[trigger] engine_vocab_size(*final(t), b) == engine_vocab_size(*old(t), b),
{
    let mapped = config.map(|c| tk::TruncationParams {
        direction: match c.direction { TruncateSide::Left => tk::TruncationDirection::Left, TruncateSide::Right => tk::TruncationDirection::Right },
        strategy: match c.strategy { TruncateStrategy::LongestFirst => tk::TruncationStrategy::LongestFirst, TruncateStrategy::OnlyFirst => tk::TruncationStrategy::OnlyFirst, TruncateStrategy::OnlySecond => tk::TruncationStrategy::OnlySecond },
        max_length: c.max_length,
        stride: c.stride,
    });
    match t.with_truncation(mapped) { Ok(_) => Ok(()), Err(e) => Err(e.to_string()) }
}

/// Relies on `TokenizerImpl::get_truncation` (tokenizers): reads the stored
/// truncation policy, if any; a pure function of the engine's state.
#[verifier::external_body]
pub(crate) fn tok_get_truncation(t: &Tokenizer) -> (r: Option<TruncationConfig>)
    ensures
        r is Some <==> engine_truncation(*t) is Some,
        r matches Some(c) ==> engine_truncation(*t) == Some(trunc_model(c)),
{
    t.get_truncation().map(|p| TruncationConfig {
        direction: match p.direction { tk::TruncationDirection::Left => TruncateSide::Left, tk::TruncationDirection::Right => TruncateSide::Right },
        strategy: match p.strategy { tk::TruncationStrategy::LongestFirst => TruncateStrategy::LongestFirst, tk::TruncationStrategy::OnlyFirst => TruncateStrategy::OnlyFirst, tk::TruncationStrategy::OnlySecond => TruncateStrategy::OnlySecond },
        max_length: p.max_length,
        stride: p.stride,
    })
}

/// Relies on `TokenizerImpl::with_padding` (tokenizers): replaces the stored
/// padding policy with the given one, or clears it; it never fails, and the
/// truncation policy, the post-processor and the vocabulary are not touched.
#[verifier::external_body]
pub(crate) fn tok_with_padding(t: &mut Tokenizer, config: Option<&PaddingConfig>)
    ensures
        config is None ==> engine_padding(*final(t)) is None,
        config matches Some(c) ==> engine_padding(*final(t)) == Some(pad_model(*c)),
        engine_truncation(*final(t)) == engine_truncation(*old(t)),
        engine_added_tokens(*final(t)) == engine_added_tokens(*old(t)),
        forall|b: bool| #[trigger] engine_vocab_size(*final(t), b) == engine_vocab_size(*old(t), b),
{
    let mapped = config.map(|c| tk::PaddingParams {
        strategy: match c.strategy { PadStrategy::BatchLongest => tk::PaddingStrategy::BatchLongest, PadStrategy::Fixed(n) => tk::PaddingStrategy::Fixed(n) },
        direction: match c.direction { PadSide::Left => tk::PaddingDirection::Left, PadSide::Right => tk::PaddingDirection::Right },
        pad_to_multiple_of: c.pad_to_multiple_of,
        pad_id: c.pad_id,
        pad_type_id: c.pad_type_id,
        pad_token: c.pad_token.clone(),
    });
    t.with_padding(mapped);
}

/// Relies on `TokenizerImpl::get_padding` (tokenizers): reads the stored
/// padding policy, if any; the pad token comes back as a fresh copy. A pure
/// function of the engine's state.
#[verifier::external_body]
pub(crate) fn tok_get_padding(t: &Tokenizer) -> (r: Option<PaddingConfig>)
    ensures
        r is Some <==> engine_padding(*t) is Some,
        r matches Some(c) ==> engine_padding(*t) == Some(pad_model(c)),
{
    t.get_padding().map(|p| PaddingConfig {
        strategy: match p.strategy { tk::PaddingStrategy::BatchLongest => PadStrategy::BatchLongest, tk::PaddingStrategy::Fixed(n) => PadStrategy::Fixed(n) },
        direction: match p.direction { tk::PaddingDirection::Left => PadSide::Left, tk::PaddingDirection::Right => PadSide::Right },
        pad_to_multiple_of: p.pad_to_multiple_of,
        pad_id: p.pad_id,
        pad_type_id: p.pad_type_id,
        pad_token: p.pad_token.clone(),
    })
}

#[verifier::external_type_specification]
#[verifier::external_body]
pub struct ExEncoding(tokenizers::Encoding);

/// The token ids an encoding holds, in the engine's output order.
pub uninterp spec fn enc_ids(e: tokenizers::Encoding) -> Seq<u32>;

/// The type ids an encoding holds, one per token.
pub uninterp spec fn enc_type_ids(e: tokenizers::Encoding) -> Seq<u32>;

/// The token texts an encoding holds, one per token.
pub uninterp spec fn enc_tokens(e: tokenizers::Encoding) -> Seq<Seq<char>>;

/// The special-tokens mask an encoding holds, one entry per token.
pub uninterp spec fn enc_special_tokens_mask(e: tokenizers::Encoding) -> Seq<u32>;

/// The attention mask an encoding holds, one entry per token.
pub uninterp spec fn enc_attention_mask(e: tokenizers::Encoding) -> Seq<u32>;

/// The (start, end) offset pairs an encoding holds, one per token, in
/// whichever offset mode the encoding was produced under.
pub uninterp spec fn enc_offsets(e: tokenizers::Encoding) -> Seq<(usize, usize)>;

/// The text the engine reconstructs from a sequence of token ids, when that
/// reconstruction succeeds; a pure function of the engine's state and the
/// arguments.
pub uninterp spec fn decoded_text(t: Tokenizer, ids: Seq<u32>, skip_special_tokens: bool) -> Seq<
    char,
>;

/// Whether the engine's reconstruction succeeds on these arguments; like
/// the text itself, a pure function of the engine's state and the
/// arguments (unknown ids are dropped, and only the decoder chain can
/// refuse).
pub uninterp spec fn decode_ok(t: Tokenizer, ids: Seq<u32>, skip_special_tokens: bool) -> bool;

/// A truncation state the engine can encode under, for a given
/// `add_special_tokens` flag. When the flag is set and the post-processor
/// adds tokens, the engine truncates against `max_length` minus that count:
/// the subtraction must not go below zero, and the engine's truncation step
/// refuses, by aborting, a stride at or above a positive effective maximum
/// (a zero maximum empties the encoding before that check). The
/// configuration call accepts policies outside this bound, so encoding is
/// entered only under a usable one.
pub open spec fn truncation_usable(t: Tokenizer, add_special_tokens: bool) -> bool {
    engine_truncation(t) matches Some(m) ==> {
        if add_special_tokens && engine_added_tokens(t) > 0 {
            &&& m.2 >= engine_added_tokens(t)
            &&& (m.2 - engine_added_tokens(t) == 0 || m.3 < m.2 - engine_added_tokens(t))
        } else {
            m.2 == 0 || m.3 < m.2
        }
    }
}

/// An encoding whose parallel sequences all have the same length. The engine
/// produces its encodings this way (construction, truncation and padding all
/// extend or shrink every sequence together), and every consumer of an
/// encoding depends on it: one recorded length serves all fields.
pub open spec fn enc_wf(e: tokenizers::Encoding) -> bool {
    &&& enc_type_ids(e).len() == enc_ids(e).len()
    &&& enc_tokens(e).len() == enc_ids(e).len()
    &&& enc_special_tokens_mask(e).len() == enc_ids(e).len()
    &&& enc_attention_mask(e).len() == enc_ids(e).len()
    &&& enc_offsets(e).len() == enc_ids(e).len()
}

/// Relies on `Encoding::get_ids` (tokenizers): the ids, in output order.
#[verifier::external_body]
pub(crate) fn enc_get_ids(e: &tokenizers::Encoding) -> (r: Vec<u32>)
    ensures
        r@ == enc_ids(*e),
{
    e.get_ids().to_vec()
}

/// Relies on `Encoding::get_type_ids` (tokenizers).
#[verifier::external_body]
pub(crate) fn enc_get_type_ids(e: &tokenizers::Encoding) -> (r: Vec<u32>)
    ensures
        r@ == enc_type_ids(*e),
{
    e.get_type_ids().to_vec()
}

/// Relies on `Encoding::get_tokens` (tokenizers): the token texts, copied.
#[verifier::external_body]
pub(crate) fn enc_get_tokens(e: &tokenizers::Encoding) -> (r: Vec<String>)
    ensures
        r.deep_view() == enc_tokens(*e),
{
    e.get_tokens().to_vec()
}

/// Relies on `Encoding::get_special_tokens_mask` (tokenizers).
#[verifier::external_body]
pub(crate) fn enc_get_special_tokens_mask(e: &tokenizers::Encoding) -> (r: Vec<u32>)
    ensures
        r@ == enc_special_tokens_mask(*e),
{
    e.get_special_tokens_mask().to_vec()
}

/// Relies on `Encoding::get_attention_mask` (tokenizers).
#[verifier::external_body]
pub(crate) fn enc_get_attention_mask(e: &tokenizers::Encoding) -> (r: Vec<u32>)
    ensures
        r@ == enc_attention_mask(*e),
{
    e.get_attention_mask().to_vec()
}

/// Relies on `Encoding::get_offsets` (tokenizers): the (start, end) pairs.
#[verifier::external_body]
pub(crate) fn enc_get_offsets(e: &tokenizers::Encoding) -> (r: Vec<(usize, usize)>)
    ensures
        r@ == enc_offsets(*e),
{
    e.get_offsets().to_vec()
}

/// Relies on `TokenizerImpl::encode` (tokenizers): tokenizes one text with
/// byte offsets, applying the configured truncation and padding; on success
/// the encoding carries equal-length parallel sequences. Nothing ties the
/// ids to the input here: a model may tokenize with randomized merges, so
/// the same text can encode differently. The truncation policy must be
/// usable: the engine aborts on one that is not.
#[verifier::external_body]
pub(crate) fn tok_encode(t: &Tokenizer, text: &str, add_special_tokens: bool) -> (r: Result<
    tokenizers::Encoding,
    String,
>)
    requires
        truncation_usable(*t, add_special_tokens),
    ensures
        r matches Ok(e) ==> enc_wf(e),
{
    match t.encode(text, add_special_tokens) {
        Ok(e) => Ok(e),
        Err(e) => Err(e.to_string()),
    }
}

/// Relies on `TokenizerImpl::encode_char_offsets` (tokenizers): as
/// `tok_encode`, but the offsets count characters instead of bytes.
#[verifier::external_body]
pub(crate) fn tok_encode_char_offsets(t: &Tokenizer, text: &str, add_special_tokens: bool) -> (r:
    Result<tokenizers::Encoding, String>)
    requires
        truncation_usable(*t, add_special_tokens),
    ensures
        r matches Ok(e) ==> enc_wf(e),
{
    match t.encode_char_offsets(text, add_special_tokens) {
        Ok(e) => Ok(e),
        Err(e) => Err(e.to_string()),
    }
}

/// Relies on `TokenizerImpl::encode_batch` (tokenizers): tokenizes every
/// text, in input order, with byte offsets; all-or-nothing, and on success
/// there is exactly one well-formed encoding per input. The truncation
/// policy must be usable: the engine aborts on one that is not.
#[verifier::external_body]
pub(crate) fn tok_encode_batch(t: &Tokenizer, texts: &Vec<String>, add_special_tokens: bool) -> (r:
    Result<Vec<tokenizers::Encoding>, String>)
    requires
        truncation_usable(*t, add_special_tokens),
    ensures
        r matches Ok(v) ==> v@.len() == texts@.len() && forall|i: int|
            0 <= i < v@.len() ==> enc_wf(#[trigger] v@[i]),
{
    match t.encode_batch(texts.clone(), add_special_tokens) {
        Ok(v) => Ok(v),
        Err(e) => Err(e.to_string()),
    }
}

/// Relies on `TokenizerImpl::encode_batch_char_offsets` (tokenizers): as
/// `tok_encode_batch`, but the offsets count characters instead of bytes.
#[verifier::external_body]
pub(crate) fn tok_encode_batch_char_offsets(
    t: &Tokenizer,
    texts: &Vec<String>,
    add_special_tokens: bool,
) -> (r: Result<Vec<tokenizers::Encoding>, String>)
    requires
        truncation_usable(*t, add_special_tokens),
    ensures
        r matches Ok(v) ==> v@.len() == texts@.len() && forall|i: int|
            0 <= i < v@.len() ==> enc_wf(#[trigger] v@[i]),
{
    match t.encode_batch_char_offsets(texts.clone(), add_special_tokens) {
        Ok(v) => Ok(v),
        Err(e) => Err(e.to_string()),
    }
}

/// Relies on `TokenizerImpl::decode` (tokenizers): reconstructs text from
/// token ids, skipping special tokens when asked; on success the text is a
/// pure function of the engine's state and the arguments.
#[verifier::external_body]
pub(crate) fn tok_decode(t: &Tokenizer, ids: &[u32], skip_special_tokens: bool) -> (r: Result<
    String,
    String,
>)
    ensures
        r is Ok <==> decode_ok(*t, ids@, skip_special_tokens),
        r matches Ok(s) ==> s@ == decoded_text(*t, ids@, skip_special_tokens),
{
    match t.decode(ids, skip_special_tokens) {
        Ok(s) => Ok(s),
        Err(e) => Err(e.to_string()),
    }
}

/// Relies on `alloc`'s string formatting: joins two pieces of text into one
/// owned message.
#[verifier::external_body]
pub(crate) fn concat_str(prefix: &str, rest: &str) -> (r: String)
    ensures
        r@ == prefix@ + rest@,
{
    format!("{prefix}{rest}")
}

} // verus!
