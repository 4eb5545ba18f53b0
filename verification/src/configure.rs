//! Configuration marshaling: bidirectional conversion between the flat,
//! fixed-width configuration records the host supplies and the engine-native
//! option types, with absence of configuration as a first-class state.

use vstd::prelude::*;

verus! {

use crate::Registry;
use crate::has_prefix;
use crate::engine::{
    engine_padding, engine_truncation, engine_added_tokens, engine_vocab_size, concat_str,
    tok_added_tokens, tok_get_padding, tok_get_truncation, tok_vocab_size, tok_with_padding,
    tok_with_truncation,
};
use crate::encode::err;

/// Flat truncation record as the host supplies it: enums as small unsigned
/// integers, lengths as fixed-width integers.
pub struct TruncationParams {
    /// 0 = left, 1 = right; anything else is out of domain.
    pub direction: u8,
    /// 0 = longest-first, 1 = only-first, 2 = only-second; else out of domain.
    pub strategy: u8,
    pub max_length: u32,
    pub stride: u32,
}

/// Flat padding record as the host supplies it.
pub struct PaddingParams {
    /// 0 = pad to the longest of the batch, any positive value N = fixed length N.
    pub strategy: u32,
    /// 0 = left, anything else = right.
    pub direction: u8,
    /// 0 = disabled.
    pub pad_to_multiple_of: u32,
    pub pad_id: u32,
    pub pad_type_id: u32,
    /// Absent stands for the empty pad token.
    pub pad_token: Option<String>,
}

/// Which end of the sequence truncation removes from.
pub enum TruncateSide {
    Left,
    Right,
}

/// Which sequence of a pair truncation applies to.
pub enum TruncateStrategy {
    LongestFirst,
    OnlyFirst,
    OnlySecond,
}

/// Which end of the sequence padding extends.
pub enum PadSide {
    Left,
    Right,
}

/// Pad every encoding of a batch to the longest of the batch, or to a fixed
/// length.
pub enum PadStrategy {
    BatchLongest,
    Fixed(usize),
}

/// A validated truncation policy in the engine's own terms.
pub struct TruncationConfig {
    pub direction: TruncateSide,
    pub strategy: TruncateStrategy,
    pub max_length: usize,
    pub stride: usize,
}

/// A validated padding policy in the engine's own terms.
pub struct PaddingConfig {
    pub strategy: PadStrategy,
    pub direction: PadSide,
    pub pad_to_multiple_of: Option<usize>,
    pub pad_id: u32,
    pub pad_type_id: u32,
    pub pad_token: String,
}

pub open spec fn side_code(d: TruncateSide) -> u8 {
    match d {
        TruncateSide::Left => 0,
        TruncateSide::Right => 1,
    }
}

pub open spec fn strategy_code(s: TruncateStrategy) -> u8 {
    match s {
        TruncateStrategy::LongestFirst => 0,
        TruncateStrategy::OnlyFirst => 1,
        TruncateStrategy::OnlySecond => 2,
    }
}

/// The flat projection of a truncation policy:
/// (direction code, strategy code, max length, stride).
pub open spec fn trunc_model(c: TruncationConfig) -> (u8, u8, usize, usize) {
    (side_code(c.direction), strategy_code(c.strategy), c.max_length, c.stride)
}

/// The flat projection of a padding policy: (fixed?, fixed length, direction
/// code, multiple-of, pad id, pad type id, pad token text).
pub open spec fn pad_model(c: PaddingConfig) -> (bool, usize, u8, Option<usize>, u32, u32, Seq<
    char,
>) {
    (
        c.strategy is Fixed,
        match c.strategy {
            PadStrategy::BatchLongest => 0,
            PadStrategy::Fixed(n) => n,
        },
        match c.direction {
            PadSide::Left => 0,
            PadSide::Right => 1,
        },
        c.pad_to_multiple_of,
        c.pad_id,
        c.pad_type_id,
        c.pad_token@,
    )
}

/// The padding policy a flat record asks for, in the same projection.
pub open spec fn flat_pad_model(p: PaddingParams) -> (bool, usize, u8, Option<usize>, u32, u32, Seq<
    char,
>) {
    (
        p.strategy != 0,
        p.strategy as usize,
        if p.direction == 0 {
            0
        } else {
            1
        },
        if p.pad_to_multiple_of == 0 {
            None
        } else {
            Some(p.pad_to_multiple_of as usize)
        },
        p.pad_id,
        p.pad_type_id,
        match p.pad_token {
            Some(s) => s@,
            None => Seq::empty(),
        },
    )
}

/// Both enum fields of a flat truncation record lie in their documented
/// domain.
pub open spec fn trunc_params_valid(p: TruncationParams) -> bool {
    p.direction <= 1 && p.strategy <= 2
}

/// Converts a flat truncation record into a validated policy, rejecting
/// out-of-domain enum codes.
fn truncation_config_of(p: &TruncationParams) -> (r: Option<TruncationConfig>)
    ensures
        r is Some <==> trunc_params_valid(*p),
        r matches Some(c) ==> trunc_model(c) == (
            p.direction,
            p.strategy,
            p.max_length as usize,
            p.stride as usize,
        ),
{
    let direction = match p.direction {
        0u8 => TruncateSide::Left,
        1u8 => TruncateSide::Right,
        _ => { return None },
    };
    let strategy = match p.strategy {
        0u8 => TruncateStrategy::LongestFirst,
        1u8 => TruncateStrategy::OnlyFirst,
        2u8 => TruncateStrategy::OnlySecond,
        _ => { return None },
    };
    Some(
        TruncationConfig {
            direction,
            strategy,
            max_length: p.max_length as usize,
            stride: p.stride as usize,
        },
    )
}

/// Converts a flat padding record into the engine's terms. Every flat record
/// is meaningful, so this never fails; an absent pad token stands for the
/// empty one.
fn padding_config_of(p: &PaddingParams) -> (r: PaddingConfig)
    ensures
        pad_model(r) == flat_pad_model(*p),
{
    let strategy = if p.strategy == 0 {
        PadStrategy::BatchLongest
    } else {
        PadStrategy::Fixed(p.strategy as usize)
    };
    let direction = if p.direction == 0 {
        PadSide::Left
    } else {
        PadSide::Right
    };
    let pad_token = match &p.pad_token {
        Some(s) => s.clone(),
        None => String::new(),
    };
    PaddingConfig {
        strategy,
        direction,
        pad_to_multiple_of: if p.pad_to_multiple_of == 0 {
            None
        } else {
            Some(p.pad_to_multiple_of as usize)
        },
        pad_id: p.pad_id,
        pad_type_id: p.pad_type_id,
        pad_token,
    }
}

impl Registry {
    /// Whether the handle's engine currently has a truncation policy set.
    pub open spec fn truncation_configured(&self, handle: usize) -> bool {
        engine_truncation(self.engine_at(handle)) is Some
    }

    /// Whether the handle's engine currently has a padding policy set.
    pub open spec fn padding_configured(&self, handle: usize) -> bool {
        engine_padding(self.engine_at(handle)) is Some
    }

    /// Size of the vocabulary, added tokens included. Read-only; a handle
    /// that is not live is a contract violation for this call.
    pub fn vocab_size(&self, handle: usize) -> (r: u32)
        requires
            self.is_live(handle),
        ensures
            r == engine_vocab_size(self.engine_at(handle), true) as u32,
    {
        let tokenizer = match &self.slots[handle - 1] {
            Some(t) => t,
            None => { unreached() },
        };
        let n = tok_vocab_size(tokenizer, true);
        #[verifier::truncate] (n as u32)
    }

    /// Replaces or clears the engine's truncation policy. An absent record
    /// clears it. Returns no message exactly when the operation fully
    /// succeeded; on any failure the engine is left as it was.
    pub fn set_truncation(&mut self, handle: usize, params: Option<&TruncationParams>) -> (r:
        Option<String>)
        ensures
            !old(self).is_live(handle) ==> (r matches Some(m) && m@ == "failed to cast tokenizer"@)
                && final(self).slots@ == old(self).slots@,
            (params matches Some(p) && !trunc_params_valid(*p)) ==> r is Some && final(self).slots@ == old(self).slots@,
            (params matches Some(p) && old(self).is_live(handle) && !trunc_params_valid(*p)) ==> (
            r matches Some(m) && m@ == "invalid truncation direction or strategy"@),
            (old(self).is_live(handle) && (params matches Some(p) ==> trunc_params_valid(*p)))
                ==> {
                let pre = old(self).engine_at(handle);
                let post = final(self).engine_at(handle);
                &&& Self::others_unchanged(*old(self), *final(self), handle)
                &&& final(self).is_live(handle)
                &&& engine_padding(post) == engine_padding(pre)
                &&& forall|b: bool| #[trigger] engine_vocab_size(post, b) == engine_vocab_size(
                    pre,
                    b,
                )
                &&& match params {
                    None => r is None && engine_truncation(post) is None,
                    Some(p) => {
                        &&& r is None <==> p.max_length >= engine_added_tokens(pre) + p.stride
                        &&& r is None ==> engine_truncation(post) == Some(
                            (p.direction, p.strategy, p.max_length as usize, p.stride as usize),
                        )
                        &&& r is Some ==> engine_truncation(post) == engine_truncation(pre)
                        &&& r matches Some(m) ==> (if p.max_length < engine_added_tokens(pre) {
                            m@ == "truncation max_length smaller than the added special tokens"@
                        } else {
                            has_prefix(m@, "failed tokenizer.with_truncation: "@)
                        })
                    },
                }
            },
    {
        if handle == 0 || handle > self.slots.len() {
            return Some(err("failed to cast tokenizer"));
        }
        if self.slots[handle - 1].is_none() {
            return Some(err("failed to cast tokenizer"));
        }
        let config = match params {
            Some(p) => match truncation_config_of(p) {
                Some(c) => Some(c),
                None => { return Some(err("invalid truncation direction or strategy")) },
            },
            None => None,
        };
        let idx = handle - 1;
        let slot = self.slots.remove(idx);
        match slot {
            Some(mut tokenizer) => {
                let outcome: Option<String> = match config {
                    Some(c) => {
                        let added = tok_added_tokens(&tokenizer);
                        if c.max_length < added {
                            Some(err("truncation max_length smaller than the added special tokens"))
                        } else {
                            match tok_with_truncation(&mut tokenizer, Some(&c)) {
                                Ok(_) => None,
                                Err(msg) => {
                                    let full = concat_str(
                                        "failed tokenizer.with_truncation: ",
                                        msg.as_str(),
                                    );
                                    proof {
                                        assert(full@.subrange(
                                            0,
                                            "failed tokenizer.with_truncation: "@.len() as int,
                                        ) =~= "failed tokenizer.with_truncation: "@);
                                    }
                                    Some(full)
                                },
                            }
                        }
                    },
                    None => match tok_with_truncation(&mut tokenizer, None) {
                        Ok(_) => None,
                        Err(_) => { unreached() },
                    },
                };
                self.slots.insert(idx, Some(tokenizer));
                proof {
                    assert(final(self).slots@ =~= old(self).slots@.update(
                        idx as int,
                        final(self).slots@[idx as int],
                    ));
                }
                outcome
            },
            None => { unreached() },
        }
    }

    /// Reads the engine's truncation policy into a caller-supplied flat
    /// record. Returns true and fills the record exactly when a policy is
    /// configured; otherwise returns false and leaves the record untouched.
    /// A handle that is not live is a contract violation for this call.
    pub fn get_truncation(&self, handle: usize, params: &mut TruncationParams) -> (r: bool)
        requires
            self.is_live(handle),
        ensures
            r == self.truncation_configured(handle),
            !r ==> *final(params) == *old(params),
            r ==> {
                let m = engine_truncation(self.engine_at(handle))->Some_0;
                &&& final(params).direction == m.0
                &&& final(params).strategy == m.1
                &&& final(params).max_length == m.2 as u32
                &&& final(params).stride == m.3 as u32
            },
    {
        let tokenizer = match &self.slots[handle - 1] {
            Some(t) => t,
            None => { unreached() },
        };
        match tok_get_truncation(tokenizer) {
            Some(c) => {
                params.max_length = #[verifier::truncate] (c.max_length as u32);
                params.stride = #[verifier::truncate] (c.stride as u32);
                params.direction = match c.direction {
                    TruncateSide::Left => 0,
                    TruncateSide::Right => 1,
                };
                params.strategy = match c.strategy {
                    TruncateStrategy::LongestFirst => 0,
                    TruncateStrategy::OnlyFirst => 1,
                    TruncateStrategy::OnlySecond => 2,
                };
                true
            },
            None => false,
        }
    }

    /// Replaces or clears the engine's padding policy; an absent record
    /// clears it. Padding has no out-of-domain codes, so for a live handle
    /// the policy is always replaced; on a handle that is not live this is a
    /// silent no-op.
    pub fn set_padding(&mut self, handle: usize, params: Option<&PaddingParams>)
        ensures
            !old(self).is_live(handle) ==> final(self).slots@ == old(self).slots@,
            old(self).is_live(handle) ==> {
                let pre = old(self).engine_at(handle);
                let post = final(self).engine_at(handle);
                &&& Self::others_unchanged(*old(self), *final(self), handle)
                &&& final(self).is_live(handle)
                &&& engine_truncation(post) == engine_truncation(pre)
                &&& forall|b: bool| #[trigger] engine_vocab_size(post, b) == engine_vocab_size(
                    pre,
                    b,
                )
                &&& match params {
                    None => engine_padding(post) is None,
                    Some(p) => engine_padding(post) == Some(flat_pad_model(*p)),
                }
            },
    {
        if handle == 0 || handle > self.slots.len() {
            return ;
        }
        let idx = handle - 1;
        let slot = self.slots.remove(idx);
        match slot {
            Some(mut tokenizer) => {
                match params {
                    Some(p) => {
                        let config = padding_config_of(p);
                        tok_with_padding(&mut tokenizer, Some(&config));
                    },
                    None => {
                        tok_with_padding(&mut tokenizer, None);
                    },
                }
                self.slots.insert(idx, Some(tokenizer));
                proof {
                    assert(final(self).slots@ =~= old(self).slots@.update(
                        idx as int,
                        final(self).slots@[idx as int],
                    ));
                }
            },
            None => {
                self.slots.insert(idx, None);
                proof {
                    assert(final(self).slots@ =~= old(self).slots@);
                }
            },
        }
    }

    /// Reads the engine's padding policy into a caller-supplied flat record.
    /// Returns true and fills the record exactly when a policy is
    /// configured — the pad token is a freshly owned copy each time —
    /// otherwise returns false and leaves the record untouched. A handle
    /// that is not live is a contract violation for this call.
    pub fn get_padding(&self, handle: usize, params: &mut PaddingParams) -> (r: bool)
        requires
            self.is_live(handle),
        ensures
            r == self.padding_configured(handle),
            !r ==> *final(params) == *old(params),
            r ==> {
                let m = engine_padding(self.engine_at(handle))->Some_0;
                &&& final(params).strategy == (if m.0 {
                    m.1 as u32
                } else {
                    0u32
                })
                &&& final(params).direction == m.2
                &&& final(params).pad_to_multiple_of == (match m.3 {
                    Some(v) => v as u32,
                    None => 0u32,
                })
                &&& final(params).pad_id == m.4
                &&& final(params).pad_type_id == m.5
                &&& final(params).pad_token matches Some(s) && s@ == m.6
            },
    {
        let tokenizer = match &self.slots[handle - 1] {
            Some(t) => t,
            None => { unreached() },
        };
        match tok_get_padding(tokenizer) {
            Some(c) => {
                params.pad_id = c.pad_id;
                params.pad_type_id = c.pad_type_id;
                params.pad_to_multiple_of = match c.pad_to_multiple_of {
                    Some(v) => #[verifier::truncate] (v as u32),
                    None => 0,
                };
                params.direction = match c.direction {
                    PadSide::Left => 0,
                    PadSide::Right => 1,
                };
                params.strategy = match c.strategy {
                    PadStrategy::BatchLongest => 0,
                    PadStrategy::Fixed(n) => #[verifier::truncate] (n as u32),
                };
                params.pad_token = Some(c.pad_token);
                true
            },
            None => false,
        }
    }
}

/// After a successful clear of the truncation policy — the state in which
/// the engine holds no truncation configuration — a read through
/// `get_truncation` reports "not configured", never a record of
/// default-looking values.
pub proof fn truncation_cleared_reads_unconfigured(r: Registry, handle: usize)
    requires
        r.is_live(handle),
        engine_truncation(r.engine_at(handle)) is None,
    ensures
        !r.truncation_configured(handle),
{
}

} // verus!
